//! The task that manages files and directories.

use crate::error::{TaskError, TaskErrorView};
use crate::modules::command::{unexpected_reply, unexpected_reply_error};
use crate::modules::file::{
    create_directory, create_directory_flow, operation_finished, operation_verdict,
};
use crate::task::{
    Flow, FlowView, Progress, ProgressView, Stage, TaskContext, TaskContextView, TaskExecutor,
    TaskResult, TaskResultView, TaskStep, TaskStepView,
};
use crate::text::{no_lines, same_text};
use crate::value::{ConfigValue, ConfigView};
use vstd::prelude::*;

verus! {

/// Brings a path into a desired state. The one state that asks anything
/// of the host is `directory`.
#[derive(Debug)]
pub struct FileTask {
    path: String,
    state: String,
}

/// The mathematical value of a [`FileTask`].
pub struct FileTaskView {
    pub path: Seq<char>,
    pub state: Seq<char>,
}

impl View for FileTask {
    type V = FileTaskView;

    closed spec fn view(&self) -> FileTaskView {
        FileTaskView { path: self.path@, state: self.state@ }
    }
}

/// The detail of the error that meets a configuration that is no table.
pub open spec fn file_shape() -> Seq<char> {
    "a file task is configured by a table"@
}

impl FileTaskView {
    /// The task that `config` describes: a table whose fields `path` and
    /// `state` are both text. For any other configuration, the error
    /// that tells what is wrong first: that it is no table, or which
    /// field is missing or no text, `path` before `state`.
    pub open spec fn decode(config: ConfigView) -> Result<FileTaskView, TaskErrorView> {
        if !(config is Table) {
            Err(TaskErrorView::InvalidConfiguration(file_shape()))
        } else {
            match config.required_text("path"@) {
                Err(error) => Err(error),
                Ok(path) => match config.required_text("state"@) {
                    Err(error) => Err(error),
                    Ok(state) => Ok(FileTaskView { path, state }),
                },
            }
        }
    }

    /// What the task reports when it has run.
    pub open spec fn result(self) -> TaskResultView {
        TaskResultView {
            success: true,
            changed: true,
            message: "Directory "@ + self.path + " created"@,
            stdout: None,
            stderr: None,
        }
    }

    /// The step that the task takes.
    ///
    /// From the start, a task whose state is `directory` asks for its
    /// directory to be created, and any other task has finished at once.
    /// Resumed, the task has finished if the directory was created, and
    /// has failed if it was not.
    pub open spec fn step(self, context: TaskContextView, progress: ProgressView) -> TaskStepView {
        match progress {
            ProgressView::Start => if self.state == "directory"@ {
                match create_directory_flow(self.path, context.verbose) {
                    FlowView::Ask { lines, request } => TaskStepView::Ask {
                        lines,
                        stage: Stage::CreatingDirectory,
                        request,
                    },
                    FlowView::Done { lines, .. } => TaskStepView::Finished {
                        lines,
                        result: self.result(),
                    },
                    FlowView::Failed { lines, error } => TaskStepView::Failed { lines, error },
                }
            } else {
                TaskStepView::Finished { lines: Seq::empty(), result: self.result() }
            },
            ProgressView::Resumed { stage: Stage::CreatingDirectory, reply } => match operation_verdict(
                reply,
            ) {
                FlowView::Done { lines, .. } => TaskStepView::Finished {
                    lines,
                    result: self.result(),
                },
                FlowView::Failed { lines, error } => TaskStepView::Failed { lines, error },
                FlowView::Ask { lines, .. } => TaskStepView::Failed {
                    lines,
                    error: TaskErrorView::Execution(unexpected_reply()),
                },
            },
            ProgressView::Resumed { .. } => TaskStepView::Failed {
                lines: Seq::empty(),
                error: TaskErrorView::Execution(unexpected_reply()),
            },
        }
    }
}

impl FileTask {
    /// Reads a file task from its configuration.
    pub fn from_config(config: &ConfigValue) -> (task: Result<FileTask, TaskError>)
        ensures
            match task {
                Ok(task) => FileTaskView::decode(config@) == Ok::<FileTaskView, TaskErrorView>(
                    task@,
                ),
                Err(error) => FileTaskView::decode(config@) == Err::<FileTaskView, TaskErrorView>(
                    error@,
                ),
            },
    {
        if !config.is_table() {
            return Err(
                TaskError::InvalidConfiguration(
                    String::from_str("a file task is configured by a table"),
                ),
            );
        }
        let path = match config.required_text("path") {
            Ok(path) => path.clone(),
            Err(error) => {
                return Err(error);
            },
        };
        let state = match config.required_text("state") {
            Ok(state) => state.clone(),
            Err(error) => {
                return Err(error);
            },
        };
        Ok(FileTask { path, state })
    }

    /// The path that the task manages.
    pub fn path(&self) -> (path: &String)
        ensures
            path@ == self@.path,
    {
        &self.path
    }

    /// The state that the path is to be brought into.
    pub fn state(&self) -> (state: &String)
        ensures
            state@ == self@.state,
    {
        &self.state
    }

    fn result(&self) -> (result: TaskResult)
        ensures
            result@ == self@.result(),
    {
        TaskResult {
            success: true,
            changed: true,
            message: String::from_str("Directory ").concat(self.path.as_str()).concat(" created"),
            stdout: None,
            stderr: None,
        }
    }
}

impl TaskExecutor for FileTask {
    open spec fn step(&self, context: TaskContextView, progress: ProgressView) -> TaskStepView {
        self@.step(context, progress)
    }

    fn execute(&self, context: &TaskContext, progress: &Progress) -> (step: TaskStep) {
        match progress {
            Progress::Start => {
                if same_text(self.state.as_str(), "directory") {
                    match create_directory(self.path.as_str(), context.verbose) {
                        Flow::Ask { lines, request } => TaskStep::Ask {
                            lines,
                            stage: Stage::CreatingDirectory,
                            request,
                        },
                        Flow::Done { lines, .. } => TaskStep::Finished {
                            lines,
                            result: self.result(),
                        },
                        Flow::Failed { lines, error } => TaskStep::Failed { lines, error },
                    }
                } else {
                    TaskStep::Finished { lines: no_lines(), result: self.result() }
                }
            },
            Progress::Resumed { stage: Stage::CreatingDirectory, reply } => match operation_finished(
                reply,
            ) {
                Flow::Done { lines, .. } => TaskStep::Finished { lines, result: self.result() },
                Flow::Failed { lines, error } => TaskStep::Failed { lines, error },
                Flow::Ask { lines, .. } => TaskStep::Failed {
                    lines,
                    error: unexpected_reply_error(),
                },
            },
            Progress::Resumed { .. } => TaskStep::Failed {
                lines: no_lines(),
                error: unexpected_reply_error(),
            },
        }
    }

    open spec fn type_key(&self) -> Seq<char> {
        "file"@
    }

    fn task_type(&self) -> (key: &'static str) {
        "file"
    }

    open spec fn defect(&self) -> Option<Seq<char>> {
        None
    }

    fn validate(&self) -> (checked: Result<(), TaskError>) {
        Ok(())
    }

    fn description(&self) -> (text: &'static str)
        ensures
            text@ == "Manage files and directories"@,
    {
        "Manage files and directories"
    }
}

} // verus!
