//! The task that runs a shell command.

use crate::error::{TaskError, TaskErrorView};
use crate::modules::command::{
    command_finished, command_verdict, run_command, run_command_flow, shell, shell_command,
    unexpected_reply, unexpected_reply_error,
};
use crate::task::{
    Flow, FlowView, Progress, ProgressView, Stage, TaskContext, TaskContextView, TaskExecutor,
    TaskResult, TaskResultView, TaskStep, TaskStepView,
};
use crate::text::no_lines;
use crate::value::{ConfigValue, ConfigView};
use vstd::prelude::*;

verus! {

/// Hands a command to the system shell.
#[derive(Debug)]
pub struct CommandTask {
    command: String,
}

/// The mathematical value of a [`CommandTask`].
pub struct CommandTaskView {
    pub command: Seq<char>,
}

impl View for CommandTask {
    type V = CommandTaskView;

    closed spec fn view(&self) -> CommandTaskView {
        CommandTaskView { command: self.command@ }
    }
}

/// The detail of the error that meets a configuration that is neither
/// a text nor a table.
pub open spec fn command_shape() -> Seq<char> {
    "a command task is configured by its command as text, or by a table"@
}

impl CommandTaskView {
    /// The task that `config` describes: the command itself as text, or
    /// a table whose field `command` is text. For any other
    /// configuration, the error that tells what is wrong.
    pub open spec fn decode(config: ConfigView) -> Result<CommandTaskView, TaskErrorView> {
        match config {
            ConfigView::Text(command) => Ok(CommandTaskView { command }),
            ConfigView::Table(_) => match config.required_text("command"@) {
                Ok(command) => Ok(CommandTaskView { command }),
                Err(error) => Err(error),
            },
            _ => Err(TaskErrorView::InvalidConfiguration(command_shape())),
        }
    }

    /// What the task reports when its command has run.
    pub open spec fn result(self) -> TaskResultView {
        TaskResultView {
            success: true,
            changed: true,
            message: "Command '"@ + self.command + "' executed"@,
            stdout: None,
            stderr: None,
        }
    }

    /// The step that the task takes.
    ///
    /// From the start, the task asks for its command to be run through
    /// the system shell. Resumed, it has finished if the command ended
    /// with status zero, and has failed if not.
    pub open spec fn step(self, context: TaskContextView, progress: ProgressView) -> TaskStepView {
        match progress {
            ProgressView::Start => match run_command_flow(shell(self.command), context.verbose) {
                FlowView::Ask { lines, request } => TaskStepView::Ask {
                    lines,
                    stage: Stage::RunningCommand,
                    request,
                },
                FlowView::Done { lines, .. } => TaskStepView::Finished {
                    lines,
                    result: self.result(),
                },
                FlowView::Failed { lines, error } => TaskStepView::Failed { lines, error },
            },
            ProgressView::Resumed { stage: Stage::RunningCommand, reply } => match command_verdict(
                shell(self.command),
                context.verbose,
                reply,
            ) {
                FlowView::Done { lines, .. } => TaskStepView::Finished {
                    lines,
                    result: self.result(),
                },
                FlowView::Failed { lines, error } => TaskStepView::Failed { lines, error },
                FlowView::Ask { lines, .. } => TaskStepView::Failed {
                    lines,
                    error: TaskErrorView::Execution(unexpected_reply()),
                },
            },
            ProgressView::Resumed { .. } => TaskStepView::Failed {
                lines: Seq::empty(),
                error: TaskErrorView::Execution(unexpected_reply()),
            },
        }
    }
}

impl CommandTask {
    /// Reads a command task from its configuration.
    pub fn from_config(config: &ConfigValue) -> (task: Result<CommandTask, TaskError>)
        ensures
            match task {
                Ok(task) => CommandTaskView::decode(config@) == Ok::<
                    CommandTaskView,
                    TaskErrorView,
                >(task@),
                Err(error) => CommandTaskView::decode(config@) == Err::<
                    CommandTaskView,
                    TaskErrorView,
                >(error@),
            },
    {
        match config {
            ConfigValue::Text(command) => Ok(CommandTask { command: command.clone() }),
            ConfigValue::Table(_) => match config.required_text("command") {
                Ok(command) => Ok(CommandTask { command: command.clone() }),
                Err(error) => Err(error),
            },
            _ => Err(
                TaskError::InvalidConfiguration(
                    String::from_str(
                        "a command task is configured by its command as text, or by a table",
                    ),
                ),
            ),
        }
    }

    /// The command that the task hands to the shell.
    pub fn command(&self) -> (command: &String)
        ensures
            command@ == self@.command,
    {
        &self.command
    }

    fn result(&self) -> (result: TaskResult)
        ensures
            result@ == self@.result(),
    {
        TaskResult {
            success: true,
            changed: true,
            message: String::from_str("Command '").concat(self.command.as_str()).concat(
                "' executed",
            ),
            stdout: None,
            stderr: None,
        }
    }
}

impl TaskExecutor for CommandTask {
    open spec fn step(&self, context: TaskContextView, progress: ProgressView) -> TaskStepView {
        self@.step(context, progress)
    }

    fn execute(&self, context: &TaskContext, progress: &Progress) -> (step: TaskStep) {
        match progress {
            Progress::Start => match run_command(
                shell_command(self.command.as_str()),
                context.verbose,
            ) {
                Flow::Ask { lines, request } => TaskStep::Ask {
                    lines,
                    stage: Stage::RunningCommand,
                    request,
                },
                Flow::Done { lines, .. } => TaskStep::Finished { lines, result: self.result() },
                Flow::Failed { lines, error } => TaskStep::Failed { lines, error },
            },
            Progress::Resumed { stage: Stage::RunningCommand, reply } => match command_finished(
                &shell_command(self.command.as_str()),
                context.verbose,
                reply,
            ) {
                Flow::Done { lines, .. } => TaskStep::Finished { lines, result: self.result() },
                Flow::Failed { lines, error } => TaskStep::Failed { lines, error },
                Flow::Ask { lines, .. } => TaskStep::Failed {
                    lines,
                    error: unexpected_reply_error(),
                },
            },
            Progress::Resumed { .. } => TaskStep::Failed {
                lines: no_lines(),
                error: unexpected_reply_error(),
            },
        }
    }

    open spec fn type_key(&self) -> Seq<char> {
        "command"@
    }

    fn task_type(&self) -> (key: &'static str) {
        "command"
    }

    open spec fn defect(&self) -> Option<Seq<char>> {
        None
    }

    fn validate(&self) -> (checked: Result<(), TaskError>) {
        Ok(())
    }

    fn description(&self) -> (text: &'static str)
        ensures
            text@ == "Execute a shell command"@,
    {
        "Execute a shell command"
    }
}

} // verus!
