//! Running a command, and testing a shell condition.

use crate::error::{TaskError, TaskErrorView};
use crate::host::{
    CommandLine, CommandLineView, CommandOutput, CommandOutputView, HostReply, HostReplyView,
    HostRequest, HostRequestView,
};
use crate::task::{Flow, FlowView};
use crate::text::{no_lines, one_line, push_item, views};
use vstd::prelude::*;

verus! {

/// The detail of the error that meets a reply of the wrong kind.
pub open spec fn unexpected_reply() -> Seq<char> {
    "unexpected reply from the host"@
}

/// The error that meets a reply of the wrong kind.
pub fn unexpected_reply_error() -> (error: TaskError)
    ensures
        error@ == TaskErrorView::Execution(unexpected_reply()),
{
    TaskError::Execution(String::from_str("unexpected reply from the host"))
}

/// `word` between double quotes.
pub open spec fn quoted(word: Seq<char>) -> Seq<char> {
    "\""@ + word + "\""@
}

/// Each of `words` between double quotes, with a space before it.
pub open spec fn quoted_words(words: Seq<Seq<char>>) -> Seq<char>
    decreases words.len(),
{
    if words.len() == 0 {
        Seq::empty()
    } else {
        quoted_words(words.drop_last()) + " "@ + quoted(words.last())
    }
}

/// A command as it is shown to the operator: the program and each
/// argument between double quotes, separated by spaces.
pub open spec fn rendered(command: CommandLineView) -> Seq<char> {
    quoted(command.program) + quoted_words(command.args)
}

/// Writes a command as it is shown to the operator.
pub fn render_command(command: &CommandLine) -> (text: String)
    ensures
        text@ == rendered(command@),
{
    let mut text = String::from_str("\"");
    text.append(command.program.as_str());
    text.append("\"");
    let ghost words = views(command.args@);
    let mut at: usize = 0;
    assert(words.take(0) =~= Seq::<Seq<char>>::empty());
    while at < command.args.len()
        invariant
            at <= command.args.len(),
            words == views(command.args@),
            text@ == quoted(command.program@) + quoted_words(words.take(at as int)),
        decreases command.args.len() - at,
    {
        text.append(" ");
        text.append("\"");
        text.append(command.args[at].as_str());
        text.append("\"");
        proof {
            let grown = words.take(at + 1);
            assert(grown.drop_last() =~= words.take(at as int));
            assert(grown.last() == command.args@[at as int]@);
            assert(text@ =~= quoted(command.program@) + quoted_words(grown));
        }
        at += 1;
    }
    assert(words.take(at as int) =~= words);
    text
}

/// The command that hands `script` to the system shell.
pub open spec fn shell(script: Seq<char>) -> CommandLineView {
    CommandLineView { program: "sh"@, args: seq!["-c"@, script] }
}

/// Builds the command that hands `script` to the system shell.
pub fn shell_command(script: &str) -> (command: CommandLine)
    ensures
        command@ == shell(script@),
{
    let mut args: Vec<String> = Vec::new();
    args.push(String::from_str("-c"));
    args.push(String::from_str(script));
    assert(views(args@) =~= seq!["-c"@, script@]);
    CommandLine { program: String::from_str("sh"), args }
}

/// What running `command` asks of the host: to run it and capture its
/// output. A verbose run shows the command first.
pub open spec fn run_command_flow(command: CommandLineView, verbose: bool) -> FlowView<()> {
    FlowView::Ask {
        lines: if verbose {
            seq!["Executing command: "@ + rendered(command)]
        } else {
            Seq::empty()
        },
        request: HostRequestView::Capture(command),
    }
}

/// Asks the host to run `command`.
pub fn run_command(command: CommandLine, verbose: bool) -> (flow: Flow<()>)
    ensures
        flow@ == run_command_flow(command@, verbose),
{
    let lines = if verbose {
        one_line(String::from_str("Executing command: ").concat(render_command(&command).as_str()))
    } else {
        no_lines()
    };
    Flow::Ask { lines, request: HostRequest::Capture(command) }
}

/// What a verbose run shows of a command's output: the captured standard
/// output and the captured standard error, each only where it is not empty.
pub open spec fn output_lines(output: CommandOutputView) -> Seq<Seq<char>> {
    (if output.stdout.len() > 0 {
        seq!["stdout: "@ + output.stdout + "\n"@]
    } else {
        Seq::empty()
    }) + (if output.stderr.len() > 0 {
        seq!["stderr: "@ + output.stderr + "\n"@]
    } else {
        Seq::empty()
    })
}

fn show_output(output: &CommandOutput) -> (lines: Vec<String>)
    ensures
        views(lines@) == output_lines(output@),
{
    let mut lines = no_lines();
    if !output.stdout.as_str().is_empty() {
        let line = String::from_str("stdout: ").concat(output.stdout.as_str()).concat("\n");
        push_item(&mut lines, line);
    }
    if !output.stderr.as_str().is_empty() {
        let line = String::from_str("stderr: ").concat(output.stderr.as_str()).concat("\n");
        push_item(&mut lines, line);
    }
    assert(views(lines@) =~= output_lines(output@));
    lines
}

/// What becomes of running `command` once the host has answered.
///
/// A command that ended with status zero is done. One that ended with
/// another status has failed, and the error names the status and the
/// command. Where the host could not run the command at all, the error
/// carries the host's reason.
pub open spec fn command_verdict(
    command: CommandLineView,
    verbose: bool,
    reply: HostReplyView,
) -> FlowView<()> {
    match reply {
        HostReplyView::Captured(output) => {
            let lines = if verbose {
                output_lines(output)
            } else {
                Seq::empty()
            };
            if output.success {
                FlowView::Done { lines, value: () }
            } else {
                FlowView::Failed {
                    lines,
                    error: TaskErrorView::Execution(
                        "Command failed with status "@ + output.status + ": "@ + rendered(command),
                    ),
                }
            }
        },
        HostReplyView::Failed(reason) => FlowView::Failed {
            lines: Seq::empty(),
            error: TaskErrorView::Execution(reason),
        },
        _ => FlowView::Failed {
            lines: Seq::empty(),
            error: TaskErrorView::Execution(unexpected_reply()),
        },
    }
}

/// Judges the host's answer to running `command`.
pub fn command_finished(command: &CommandLine, verbose: bool, reply: &HostReply) -> (flow: Flow<
    (),
>)
    ensures
        flow@ == command_verdict(command@, verbose, reply@),
{
    match reply {
        HostReply::Captured(output) => {
            let lines = if verbose {
                show_output(output)
            } else {
                no_lines()
            };
            if output.success {
                Flow::Done { lines, value: () }
            } else {
                let detail = String::from_str("Command failed with status ").concat(
                    output.status.as_str(),
                ).concat(": ").concat(render_command(command).as_str());
                Flow::Failed { lines, error: TaskError::Execution(detail) }
            }
        },
        HostReply::Failed(reason) => Flow::Failed {
            lines: no_lines(),
            error: TaskError::Execution(reason.clone()),
        },
        _ => Flow::Failed { lines: no_lines(), error: unexpected_reply_error() },
    }
}

/// What testing the shell condition `script` asks of the host: to run it
/// through the system shell and tell the exit status. A verbose run shows
/// the condition first.
pub open spec fn check_command_flow(script: Seq<char>, verbose: bool) -> FlowView<bool> {
    FlowView::Ask {
        lines: if verbose {
            seq!["Checking 'unless' condition: "@ + script]
        } else {
            Seq::empty()
        },
        request: HostRequestView::Probe(shell(script)),
    }
}

/// Asks the host to test the shell condition `script`.
pub fn check_command(script: &str, verbose: bool) -> (flow: Flow<bool>)
    ensures
        flow@ == check_command_flow(script@, verbose),
{
    let lines = if verbose {
        one_line(String::from_str("Checking 'unless' condition: ").concat(script))
    } else {
        no_lines()
    };
    Flow::Ask { lines, request: HostRequest::Probe(shell_command(script)) }
}

/// What becomes of a shell condition once the host has answered: it holds
/// exactly when the shell ended with status zero. Another status is no
/// error. Where the host could not run the shell at all, that is one.
pub open spec fn check_verdict(verbose: bool, reply: HostReplyView) -> FlowView<bool> {
    match reply {
        HostReplyView::Exited { success, status } => FlowView::Done {
            lines: if verbose {
                seq!["'unless' command finished with status: "@ + status]
            } else {
                Seq::empty()
            },
            value: success,
        },
        HostReplyView::Failed(reason) => FlowView::Failed {
            lines: Seq::empty(),
            error: TaskErrorView::Execution(reason),
        },
        _ => FlowView::Failed {
            lines: Seq::empty(),
            error: TaskErrorView::Execution(unexpected_reply()),
        },
    }
}

/// Judges the host's answer to testing a shell condition.
pub fn check_finished(verbose: bool, reply: &HostReply) -> (flow: Flow<bool>)
    ensures
        flow@ == check_verdict(verbose, reply@),
{
    match reply {
        HostReply::Exited { success, status } => {
            let lines = if verbose {
                one_line(
                    String::from_str("'unless' command finished with status: ").concat(
                        status.as_str(),
                    ),
                )
            } else {
                no_lines()
            };
            Flow::Done { lines, value: *success }
        },
        HostReply::Failed(reason) => Flow::Failed {
            lines: no_lines(),
            error: TaskError::Execution(reason.clone()),
        },
        _ => Flow::Failed { lines: no_lines(), error: unexpected_reply_error() },
    }
}

} // verus!
