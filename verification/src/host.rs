//! What the engine asks of the host, and what the host answers.
//!
//! The engine decides; the host acts. A request names one elementary
//! operation, and the reply reports what came of it.

use crate::text::views;
use crate::time::{current_instant, Instant};
use vstd::prelude::*;

verus! {

/// A program and the arguments it is started with.
#[derive(Debug, PartialEq, Eq)]
pub struct CommandLine {
    pub program: String,
    pub args: Vec<String>,
}

/// The mathematical value of a [`CommandLine`].
pub struct CommandLineView {
    pub program: Seq<char>,
    pub args: Seq<Seq<char>>,
}

impl View for CommandLine {
    type V = CommandLineView;

    open spec fn view(&self) -> CommandLineView {
        CommandLineView { program: self.program@, args: views(self.args@) }
    }
}

/// One elementary operation that the host is asked to carry out.
#[derive(Debug, PartialEq, Eq)]
pub enum HostRequest {
    /// Nothing is to be done; the engine only wants to be resumed.
    Proceed,
    /// Run the command to its end and capture what it writes.
    Capture(CommandLine),
    /// Run the command to its end on the operator's own terminal; only
    /// its exit status is wanted.
    Probe(CommandLine),
    /// Create the directory at this path, with its missing parents.
    CreateDirectories(String),
    /// Read the file at this path as text.
    ReadText(String),
    /// Replace the contents of the file at `path`.
    WriteText { path: String, contents: String },
    /// Tell when the file at this path was last modified.
    Modified(String),
    /// Tell the current time.
    Clock,
}

/// The mathematical value of a [`HostRequest`].
pub enum HostRequestView {
    Proceed,
    Capture(CommandLineView),
    Probe(CommandLineView),
    CreateDirectories(Seq<char>),
    ReadText(Seq<char>),
    WriteText { path: Seq<char>, contents: Seq<char> },
    Modified(Seq<char>),
    Clock,
}

impl View for HostRequest {
    type V = HostRequestView;

    open spec fn view(&self) -> HostRequestView {
        match self {
            HostRequest::Proceed => HostRequestView::Proceed,
            HostRequest::Capture(command) => HostRequestView::Capture(command@),
            HostRequest::Probe(command) => HostRequestView::Probe(command@),
            HostRequest::CreateDirectories(path) => HostRequestView::CreateDirectories(path@),
            HostRequest::ReadText(path) => HostRequestView::ReadText(path@),
            HostRequest::WriteText { path, contents } => HostRequestView::WriteText {
                path: path@,
                contents: contents@,
            },
            HostRequest::Modified(path) => HostRequestView::Modified(path@),
            HostRequest::Clock => HostRequestView::Clock,
        }
    }
}

/// What a command left behind when it ended.
#[derive(Debug, PartialEq, Eq)]
pub struct CommandOutput {
    /// Whether the command ended with exit status zero.
    pub success: bool,
    /// The exit status, as the host words it.
    pub status: String,
    pub stdout: String,
    pub stderr: String,
}

/// The mathematical value of a [`CommandOutput`].
pub struct CommandOutputView {
    pub success: bool,
    pub status: Seq<char>,
    pub stdout: Seq<char>,
    pub stderr: Seq<char>,
}

impl View for CommandOutput {
    type V = CommandOutputView;

    open spec fn view(&self) -> CommandOutputView {
        CommandOutputView {
            success: self.success,
            status: self.status@,
            stdout: self.stdout@,
            stderr: self.stderr@,
        }
    }
}

/// The host's answer to one request.
#[derive(Debug, PartialEq, Eq)]
pub enum HostReply {
    /// The operation was carried out and has nothing to tell.
    Done,
    /// The operation could not be carried out, for the reason given.
    Failed(String),
    /// The answer to `Capture`.
    Captured(CommandOutput),
    /// The answer to `Probe`: whether the exit status was zero, and the
    /// status as the host words it.
    Exited { success: bool, status: String },
    /// The answer to `ReadText`: the text, or nothing where no such file
    /// exists.
    Text(Option<String>),
    /// The answer to `Modified`: the whole seconds from 1970-01-01
    /// 00:00:00 UTC to the last modification, or nothing where the host
    /// cannot tell.
    Modified(Option<u64>),
    /// The answer to `Clock`.
    Now(Instant),
}

/// The mathematical value of a [`HostReply`].
pub enum HostReplyView {
    Done,
    Failed(Seq<char>),
    Captured(CommandOutputView),
    Exited { success: bool, status: Seq<char> },
    Text(Option<Seq<char>>),
    Modified(Option<u64>),
    Now(Instant),
}

/// The text that an optional string holds, if it holds one.
pub open spec fn optional_text(text: Option<String>) -> Option<Seq<char>> {
    match text {
        Some(t) => Some(t@),
        None => None,
    }
}

impl View for HostReply {
    type V = HostReplyView;

    open spec fn view(&self) -> HostReplyView {
        match self {
            HostReply::Done => HostReplyView::Done,
            HostReply::Failed(reason) => HostReplyView::Failed(reason@),
            HostReply::Captured(output) => HostReplyView::Captured(output@),
            HostReply::Exited { success, status } => HostReplyView::Exited {
                success: *success,
                status: status@,
            },
            HostReply::Text(text) => HostReplyView::Text(optional_text(*text)),
            HostReply::Modified(secs) => HostReplyView::Modified(*secs),
            HostReply::Now(now) => HostReplyView::Now(*now),
        }
    }
}

/// Answers the request `Clock` from the system clock.
pub fn clock_reply() -> (reply: HostReply)
    ensures
        reply is Now,
{
    HostReply::Now(current_instant())
}

} // verus!
