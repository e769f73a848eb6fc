//! Creating directories.

use crate::error::{TaskError, TaskErrorView};
use crate::host::{HostReply, HostReplyView, HostRequest, HostRequestView};
use crate::modules::command::{unexpected_reply, unexpected_reply_error};
use crate::task::{Flow, FlowView};
use crate::text::{no_lines, one_line};
use vstd::prelude::*;

verus! {

/// What creating the directory `path` asks of the host. A verbose run
/// shows the path first.
pub open spec fn create_directory_flow(path: Seq<char>, verbose: bool) -> FlowView<()> {
    FlowView::Ask {
        lines: if verbose {
            seq!["Creating directory: "@ + path]
        } else {
            Seq::empty()
        },
        request: HostRequestView::CreateDirectories(path),
    }
}

/// Asks the host to create the directory `path`, with its missing parents.
pub fn create_directory(path: &str, verbose: bool) -> (flow: Flow<()>)
    ensures
        flow@ == create_directory_flow(path@, verbose),
{
    let lines = if verbose {
        one_line(String::from_str("Creating directory: ").concat(path))
    } else {
        no_lines()
    };
    Flow::Ask { lines, request: HostRequest::CreateDirectories(String::from_str(path)) }
}

/// What becomes of an operation that has nothing to tell, once the host
/// has answered: it is done, or it failed for the host's reason.
pub open spec fn operation_verdict(reply: HostReplyView) -> FlowView<()> {
    match reply {
        HostReplyView::Done => FlowView::Done { lines: Seq::empty(), value: () },
        HostReplyView::Failed(reason) => FlowView::Failed {
            lines: Seq::empty(),
            error: TaskErrorView::Execution(reason),
        },
        _ => FlowView::Failed {
            lines: Seq::empty(),
            error: TaskErrorView::Execution(unexpected_reply()),
        },
    }
}

/// Judges the host's answer to an operation that has nothing to tell.
pub fn operation_finished(reply: &HostReply) -> (flow: Flow<()>)
    ensures
        flow@ == operation_verdict(reply@),
{
    match reply {
        HostReply::Done => Flow::Done { lines: no_lines(), value: () },
        HostReply::Failed(reason) => Flow::Failed {
            lines: no_lines(),
            error: TaskError::Execution(reason.clone()),
        },
        _ => Flow::Failed { lines: no_lines(), error: unexpected_reply_error() },
    }
}

} // verus!
