//! The contract between the engine and the tasks it runs.
//!
//! A task never touches the host. Its `execute` is one step of a
//! conversation: told how far the work has come and what the host last
//! answered, it says what the host is to do next, or how the work ended.

use crate::error::{TaskError, TaskErrorView};
use crate::host::{optional_text, HostReply, HostReplyView, HostRequest, HostRequestView};
use crate::time::Instant;
use crate::text::{join_lines, views};
use std::collections::HashMap;
use vstd::prelude::*;

verus! {

/// The settings of one run, the same for every task in it.
#[derive(Debug, Clone)]
pub struct TaskContext {
    pub verbose: bool,
    pub dry_run: bool,
    pub working_directory: String,
    pub environment: HashMap<String, String>,
}

/// The mathematical value of a [`TaskContext`].
pub struct TaskContextView {
    pub verbose: bool,
    pub dry_run: bool,
    pub working_directory: Seq<char>,
    pub environment: Map<Seq<char>, Seq<char>>,
}

impl View for TaskContext {
    type V = TaskContextView;

    open spec fn view(&self) -> TaskContextView {
        TaskContextView {
            verbose: self.verbose,
            dry_run: self.dry_run,
            working_directory: self.working_directory@,
            environment: self.environment.deep_view(),
        }
    }
}

/// How a task that ran to its end turned out.
#[derive(Debug, Clone, PartialEq, Eq)]
pub struct TaskResult {
    pub success: bool,
    pub changed: bool,
    pub message: String,
    pub stdout: Option<String>,
    pub stderr: Option<String>,
}

/// The mathematical value of a [`TaskResult`].
pub struct TaskResultView {
    pub success: bool,
    pub changed: bool,
    pub message: Seq<char>,
    pub stdout: Option<Seq<char>>,
    pub stderr: Option<Seq<char>>,
}

impl View for TaskResult {
    type V = TaskResultView;

    open spec fn view(&self) -> TaskResultView {
        TaskResultView {
            success: self.success,
            changed: self.changed,
            message: self.message@,
            stdout: optional_text(self.stdout),
            stderr: optional_text(self.stderr),
        }
    }
}

/// Where a task stands while it waits for the host: which of its requests
/// is the one that is out.
#[derive(Debug, Clone, Copy, PartialEq, Eq)]
pub enum Stage {
    /// The directory of a file task is being created.
    CreatingDirectory,
    /// The command of a command task is running.
    RunningCommand,
    /// The clock is being read, to judge the age of the update stamp.
    TimingStamp,
    /// The update stamp's modification time is being read; the instant is
    /// the clock's answer.
    ReadingStamp(Instant),
    /// The record of the last update is being read; the instant is the
    /// clock's answer.
    ReadingRecord(Instant),
    /// The package index is being updated.
    Updating,
    /// The clock is being read, to date the record of this update.
    TimingRecord,
    /// The record of this update is being written.
    Recording,
    /// The update stamp is being written.
    Stamping,
    /// The package at this position is being looked up.
    Querying(usize),
    /// The package at this position is being installed.
    Installing(usize),
}

/// How far a task has come when it is asked for its next step.
#[derive(Debug)]
pub enum Progress {
    /// Nothing has been asked of the host yet.
    Start,
    /// The request made at `stage` has been answered with `reply`.
    Resumed { stage: Stage, reply: HostReply },
}

/// The mathematical value of a [`Progress`].
pub enum ProgressView {
    Start,
    Resumed { stage: Stage, reply: HostReplyView },
}

impl View for Progress {
    type V = ProgressView;

    open spec fn view(&self) -> ProgressView {
        match self {
            Progress::Start => ProgressView::Start,
            Progress::Resumed { stage, reply } => ProgressView::Resumed {
                stage: *stage,
                reply: reply@,
            },
        }
    }
}

/// What a piece of work wants next. Every outcome comes with the lines
/// that the operator is to be shown first.
#[derive(Debug, PartialEq, Eq)]
pub enum Flow<T> {
    /// The host is to carry out `request`.
    Ask { lines: Vec<String>, request: HostRequest },
    /// The work is done, and this is what it yields.
    Done { lines: Vec<String>, value: T },
    /// The work failed.
    Failed { lines: Vec<String>, error: TaskError },
}

/// The mathematical value of a [`Flow`].
pub enum FlowView<V> {
    Ask { lines: Seq<Seq<char>>, request: HostRequestView },
    Done { lines: Seq<Seq<char>>, value: V },
    Failed { lines: Seq<Seq<char>>, error: TaskErrorView },
}

impl<T: View> View for Flow<T> {
    type V = FlowView<T::V>;

    open spec fn view(&self) -> FlowView<T::V> {
        match self {
            Flow::Ask { lines, request } => FlowView::Ask {
                lines: views(lines@),
                request: request@,
            },
            Flow::Done { lines, value } => FlowView::Done { lines: views(lines@), value: value@ },
            Flow::Failed { lines, error } => FlowView::Failed {
                lines: views(lines@),
                error: error@,
            },
        }
    }
}

impl<V> FlowView<V> {
    /// The lines that come with this outcome.
    pub open spec fn lines(self) -> Seq<Seq<char>> {
        match self {
            FlowView::Ask { lines, .. } => lines,
            FlowView::Done { lines, .. } => lines,
            FlowView::Failed { lines, .. } => lines,
        }
    }

    /// The same outcome, with `first` shown before its own lines.
    pub open spec fn after(self, first: Seq<Seq<char>>) -> FlowView<V> {
        match self {
            FlowView::Ask { lines, request } => FlowView::Ask { lines: first + lines, request },
            FlowView::Done { lines, value } => FlowView::Done { lines: first + lines, value },
            FlowView::Failed { lines, error } => FlowView::Failed { lines: first + lines, error },
        }
    }
}

impl<T: View> Flow<T> {
    /// The same outcome, with `first` shown before its own lines.
    pub fn after(self, first: Vec<String>) -> (joined: Flow<T>)
        ensures
            joined@ == self@.after(views(first@)),
    {
        match self {
            Flow::Ask { lines, request } => Flow::Ask { lines: join_lines(first, lines), request },
            Flow::Done { lines, value } => Flow::Done { lines: join_lines(first, lines), value },
            Flow::Failed { lines, error } => Flow::Failed {
                lines: join_lines(first, lines),
                error,
            },
        }
    }
}

/// One step of a task's execution.
#[derive(Debug, PartialEq, Eq)]
pub enum TaskStep {
    /// The host is to carry out `request`; the task is to be resumed at
    /// `stage` with the reply.
    Ask { lines: Vec<String>, stage: Stage, request: HostRequest },
    /// The task ran to its end.
    Finished { lines: Vec<String>, result: TaskResult },
    /// The task failed.
    Failed { lines: Vec<String>, error: TaskError },
}

/// The mathematical value of a [`TaskStep`].
pub enum TaskStepView {
    Ask { lines: Seq<Seq<char>>, stage: Stage, request: HostRequestView },
    Finished { lines: Seq<Seq<char>>, result: TaskResultView },
    Failed { lines: Seq<Seq<char>>, error: TaskErrorView },
}

impl View for TaskStep {
    type V = TaskStepView;

    open spec fn view(&self) -> TaskStepView {
        match self {
            TaskStep::Ask { lines, stage, request } => TaskStepView::Ask {
                lines: views(lines@),
                stage: *stage,
                request: request@,
            },
            TaskStep::Finished { lines, result } => TaskStepView::Finished {
                lines: views(lines@),
                result: result@,
            },
            TaskStep::Failed { lines, error } => TaskStepView::Failed {
                lines: views(lines@),
                error: error@,
            },
        }
    }
}

impl TaskStepView {
    /// The lines that come with this step.
    pub open spec fn lines(self) -> Seq<Seq<char>> {
        match self {
            TaskStepView::Ask { lines, .. } => lines,
            TaskStepView::Finished { lines, .. } => lines,
            TaskStepView::Failed { lines, .. } => lines,
        }
    }
}

/// What every kind of task offers the engine.
pub trait TaskExecutor: Send + Sync {
    /// The step that `execute` takes.
    spec fn step(&self, context: TaskContextView, progress: ProgressView) -> TaskStepView;

    /// Takes one step of the task's work: the first on `Progress::Start`,
    /// the one that follows the host's reply otherwise.
    ///
    /// A step that asks something of the host names the stage at which
    /// the task is to be resumed with the reply. An instance is run from
    /// its start to its end once.
    fn execute(&self, context: &TaskContext, progress: &Progress) -> (step: TaskStep)
        ensures
            step@ == self.step(context@, progress@),
    ;

    /// The key under which this kind of task is registered.
    spec fn type_key(&self) -> Seq<char>;

    /// The key under which this kind of task is registered.
    fn task_type(&self) -> (key: &'static str)
        ensures
            key@ == self.type_key(),
    ;

    /// The flaw in the configuration that the task holds, if it has one.
    spec fn defect(&self) -> Option<Seq<char>>;

    /// Checks the configuration that the task holds, before the first step is taken.
    fn validate(&self) -> (checked: Result<(), TaskError>)
        ensures
            match checked {
                Ok(_) => self.defect() is None,
                Err(error) => self.defect() == Some(error@.detail()) && error is Validation,
            },
    ;

    /// A summary of what this kind of task does; empty unless the kind
    /// gives one.
    fn description(&self) -> (text: &'static str)
        default_ensures
            text@.len() == 0,
    {
        let text = "";
        proof {
            reveal_strlit("");
        }
        text
    }

    /// Whether the task needs elevated privilege; it does not unless the
    /// kind says so.
    fn requires_sudo(&self) -> (needed: bool)
        default_ensures
            !needed,
    {
        false
    }

    /// Whether the task can run on this platform; it can unless the kind
    /// says otherwise.
    fn is_platform_supported(&self) -> (supported: bool)
        default_ensures
            supported,
    {
        true
    }

    /// Whether running the task twice leaves the host as running it once
    /// does; it is taken to unless the kind says otherwise.
    fn is_idempotent(&self) -> (idempotent: bool)
        default_ensures
            idempotent,
    {
        true
    }

    /// The labels of the task; none unless the kind gives some.
    fn tags(&self) -> (tags: Vec<&'static str>)
        default_ensures
            tags@.len() == 0,
    {
        Vec::new()
    }

    /// How many seconds the task is expected to take; unknown unless the
    /// kind says.
    fn estimated_duration(&self) -> (seconds: Option<u64>)
        default_ensures
            seconds is None,
    {
        None
    }
}

} // verus!
