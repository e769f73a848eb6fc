//! The package manager: updating its index, at most once a day unless
//! forced, and installing packages that are not installed yet.

use crate::error::{TaskError, TaskErrorView};
use crate::host::{
    CommandLine, CommandLineView, HostReply, HostReplyView, HostRequest, HostRequestView,
};
use crate::modules::command::{
    run_command, run_command_flow, unexpected_reply, unexpected_reply_error,
};
use crate::task::{Flow, FlowView};
use crate::text::{contains, no_lines, occurs_in, one_line, views};
use crate::time::{
    describe_fault, elapsed_between, fault_text, format_instant, parse_instant, rfc3339_instant,
    rfc3339_text, time_between, Elapsed, Instant,
};
use vstd::prelude::*;

verus! {

/// The file that records when the package index was last updated.
pub const LAST_UPDATE_FILE: &'static str = "/tmp/inti-last-apt-update";

/// The seconds in a day.
pub const SECONDS_PER_DAY: i64 = 86_400;

/// The detail of the error that meets an instant outside the dates that
/// can be held.
pub open spec fn out_of_range() -> Seq<char> {
    "time is out of range"@
}

/// Whether `elapsed` is more than one day.
pub open spec fn more_than_a_day(elapsed: Elapsed) -> bool {
    elapsed.secs > SECONDS_PER_DAY || (elapsed.secs == SECONDS_PER_DAY && elapsed.nanos > 0)
}

/// Whether an update that lies `elapsed` back is due again: it is once
/// more than a day has passed.
pub fn update_is_due(elapsed: &Elapsed) -> (due: bool)
    ensures
        due == more_than_a_day(*elapsed),
{
    elapsed.secs > SECONDS_PER_DAY || (elapsed.secs == SECONDS_PER_DAY && elapsed.nanos > 0)
}

/// Whether the package index is to be updated at `now`, given what the
/// record of the last update holds.
///
/// Without a record the update is due. With one, its text has to be a
/// timestamp, and the update is due when more than a day lies between
/// that timestamp and `now`.
pub open spec fn update_decision(record: Option<Seq<char>>, now: Instant) -> Result<
    bool,
    TaskErrorView,
> {
    match record {
        None => Ok(true),
        Some(text) => match rfc3339_instant(text) {
            Err(fault) => Err(TaskErrorView::Execution(fault_text(fault))),
            Ok(last) => match time_between(now, last) {
                None => Err(TaskErrorView::Execution(out_of_range())),
                Some(elapsed) => Ok(more_than_a_day(elapsed)),
            },
        },
    }
}

/// The values that a result stands for.
pub open spec fn decision_view(decision: Result<bool, TaskError>) -> Result<bool, TaskErrorView> {
    match decision {
        Ok(due) => Ok(due),
        Err(error) => Err(error@),
    }
}

/// Decides whether the package index is to be updated at `now`, given
/// what the record of the last update holds.
pub fn should_update(record: Option<&str>, now: &Instant) -> (decision: Result<bool, TaskError>)
    ensures
        decision_view(decision) == update_decision(
            match record {
                Some(text) => Some(text@),
                None => None,
            },
            *now,
        ),
{
    match record {
        None => Ok(true),
        Some(text) => match parse_instant(text) {
            Err(fault) => Err(TaskError::Execution(describe_fault(fault))),
            Ok(last) => match elapsed_between(now, &last) {
                None => Err(TaskError::Execution(String::from_str("time is out of range"))),
                Some(elapsed) => Ok(update_is_due(&elapsed)),
            },
        },
    }
}

/// What recording an update made at `now` asks of the host: to write the
/// timestamp of `now` to the record.
pub open spec fn record_update_time_flow(now: Instant) -> FlowView<()> {
    match rfc3339_text(now) {
        Some(text) => FlowView::Ask {
            lines: Seq::empty(),
            request: HostRequestView::WriteText { path: LAST_UPDATE_FILE@, contents: text },
        },
        None => FlowView::Failed {
            lines: Seq::empty(),
            error: TaskErrorView::Execution(out_of_range()),
        },
    }
}

/// Asks the host to record that the package index was updated at `now`.
pub fn record_update_time(now: &Instant) -> (flow: Flow<()>)
    ensures
        flow@ == record_update_time_flow(*now),
{
    match format_instant(now) {
        Some(text) => Flow::Ask {
            lines: no_lines(),
            request: HostRequest::WriteText {
                path: String::from_str(LAST_UPDATE_FILE),
                contents: text,
            },
        },
        None => Flow::Failed {
            lines: no_lines(),
            error: TaskError::Execution(String::from_str("time is out of range")),
        },
    }
}

/// The command that asks the package database for the status of `package`.
pub open spec fn query_command(package: Seq<char>) -> CommandLineView {
    CommandLineView { program: "dpkg-query"@, args: seq!["-W"@, "-f='${Status}'"@, package] }
}

/// The command that updates the package index.
pub open spec fn update_command() -> CommandLineView {
    CommandLineView { program: "sudo"@, args: seq!["apt-get"@, "update"@] }
}

/// The command that installs `package` without asking.
pub open spec fn install_command(package: Seq<char>) -> CommandLineView {
    CommandLineView { program: "sudo"@, args: seq!["apt-get"@, "install"@, "-y"@, package] }
}

/// Builds the command that updates the package index.
pub fn build_update_command() -> (command: CommandLine)
    ensures
        command@ == update_command(),
{
    let mut args: Vec<String> = Vec::new();
    args.push(String::from_str("apt-get"));
    args.push(String::from_str("update"));
    assert(views(args@) =~= update_command().args);
    CommandLine { program: String::from_str("sudo"), args }
}

/// Builds the command that installs `package` without asking.
pub fn build_install_command(package: &str) -> (command: CommandLine)
    ensures
        command@ == install_command(package@),
{
    let mut args: Vec<String> = Vec::new();
    args.push(String::from_str("apt-get"));
    args.push(String::from_str("install"));
    args.push(String::from_str("-y"));
    args.push(String::from_str(package));
    assert(views(args@) =~= install_command(package@).args);
    CommandLine { program: String::from_str("sudo"), args }
}

/// What finding out whether `package` is installed asks of the host: to
/// run the status query and capture its output.
pub open spec fn is_package_installed_flow(package: Seq<char>) -> FlowView<bool> {
    FlowView::Ask {
        lines: Seq::empty(),
        request: HostRequestView::Capture(query_command(package)),
    }
}

/// Asks the host for the status of `package`.
pub fn is_package_installed(package: &str) -> (flow: Flow<bool>)
    ensures
        flow@ == is_package_installed_flow(package@),
{
    let mut args: Vec<String> = Vec::new();
    args.push(String::from_str("-W"));
    args.push(String::from_str("-f='${Status}'"));
    args.push(String::from_str(package));
    assert(views(args@) =~= query_command(package@).args);
    let command = CommandLine { program: String::from_str("dpkg-query"), args };
    Flow::Ask { lines: no_lines(), request: HostRequest::Capture(command) }
}

/// What the status query tells: the package is installed exactly when the
/// captured output holds the words `install ok installed`. The exit
/// status of the query does not count.
pub open spec fn installed_verdict(reply: HostReplyView) -> FlowView<bool> {
    match reply {
        HostReplyView::Captured(output) => FlowView::Done {
            lines: Seq::empty(),
            value: occurs_in(output.stdout, "install ok installed"@),
        },
        HostReplyView::Failed(reason) => FlowView::Failed {
            lines: Seq::empty(),
            error: TaskErrorView::Execution(reason),
        },
        _ => FlowView::Failed {
            lines: Seq::empty(),
            error: TaskErrorView::Execution(unexpected_reply()),
        },
    }
}

/// Judges the host's answer to the status query.
pub fn package_status(reply: &HostReply) -> (flow: Flow<bool>)
    ensures
        flow@ == installed_verdict(reply@),
{
    match reply {
        HostReply::Captured(output) => Flow::Done {
            lines: no_lines(),
            value: contains(output.stdout.as_str(), "install ok installed"),
        },
        HostReply::Failed(reason) => Flow::Failed {
            lines: no_lines(),
            error: TaskError::Execution(reason.clone()),
        },
        _ => Flow::Failed { lines: no_lines(), error: unexpected_reply_error() },
    }
}

/// What updating the package index comes to, once it is known whether
/// the update is `due`: a forced or due update runs, any other is passed
/// over.
pub open spec fn apt_update_flow(force: bool, verbose: bool, due: bool) -> FlowView<()> {
    if force || due {
        run_command_flow(update_command(), verbose).after(seq!["Running apt-get update..."@])
    } else {
        FlowView::Done {
            lines: seq!["Skipping apt-get update as it was run recently."@],
            value: (),
        }
    }
}

/// Updates the package index if the update is forced or `due`.
pub fn apt_update(force: bool, verbose: bool, due: bool) -> (flow: Flow<()>)
    ensures
        flow@ == apt_update_flow(force, verbose, due),
{
    if force || due {
        run_command(build_update_command(), verbose).after(
            one_line(String::from_str("Running apt-get update...")),
        )
    } else {
        Flow::Done {
            lines: one_line(String::from_str("Skipping apt-get update as it was run recently.")),
            value: (),
        }
    }
}

/// What installing `package` comes to, once it is known whether it is
/// `installed` already: only a package that is not installed is installed.
pub open spec fn apt_install_flow(package: Seq<char>, verbose: bool, installed: bool) -> FlowView<
    (),
> {
    if !installed {
        run_command_flow(install_command(package), verbose).after(
            seq!["Installing package: "@ + package],
        )
    } else {
        FlowView::Done {
            lines: seq!["Package "@ + package + " is already installed."@],
            value: (),
        }
    }
}

/// Installs `package` unless it is `installed` already.
pub fn apt_install(package: &str, verbose: bool, installed: bool) -> (flow: Flow<()>)
    ensures
        flow@ == apt_install_flow(package@, verbose, installed),
{
    if !installed {
        run_command(build_install_command(package), verbose).after(
            one_line(String::from_str("Installing package: ").concat(package)),
        )
    } else {
        Flow::Done {
            lines: one_line(
                String::from_str("Package ").concat(package).concat(" is already installed."),
            ),
            value: (),
        }
    }
}

} // verus!
