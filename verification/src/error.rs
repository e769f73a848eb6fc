//! The errors a run can end with.

use vstd::prelude::*;

verus! {

/// Why a task could not be built or carried out. Each kind carries a
/// free-text detail.
#[derive(Debug, PartialEq, Eq)]
pub enum TaskError {
    /// A freshly built task failed its own structural check.
    Validation(String),
    /// An operation on the host failed while the task was running.
    Execution(String),
    /// A declaration names a task type that nothing is registered under.
    NotFound(String),
    /// A declaration's configuration does not have the shape its task type expects.
    InvalidConfiguration(String),
}

/// The mathematical value of a [`TaskError`].
pub enum TaskErrorView {
    Validation(Seq<char>),
    Execution(Seq<char>),
    NotFound(Seq<char>),
    InvalidConfiguration(Seq<char>),
}

impl TaskErrorView {
    /// The free-text detail the error carries.
    pub open spec fn detail(self) -> Seq<char> {
        match self {
            TaskErrorView::Validation(d) => d,
            TaskErrorView::Execution(d) => d,
            TaskErrorView::NotFound(d) => d,
            TaskErrorView::InvalidConfiguration(d) => d,
        }
    }

    /// The sentence shown to the operator: a fixed lead for the kind, then
    /// the detail.
    pub open spec fn describe(self) -> Seq<char> {
        match self {
            TaskErrorView::Validation(d) => "Task validation failed: "@ + d,
            TaskErrorView::Execution(d) => "Task execution failed: "@ + d,
            TaskErrorView::NotFound(d) => "Task not found: "@ + d,
            TaskErrorView::InvalidConfiguration(d) => "Invalid task configuration: "@ + d,
        }
    }
}

impl View for TaskError {
    type V = TaskErrorView;

    open spec fn view(&self) -> TaskErrorView {
        match self {
            TaskError::Validation(d) => TaskErrorView::Validation(d@),
            TaskError::Execution(d) => TaskErrorView::Execution(d@),
            TaskError::NotFound(d) => TaskErrorView::NotFound(d@),
            TaskError::InvalidConfiguration(d) => TaskErrorView::InvalidConfiguration(d@),
        }
    }
}

impl TaskError {
    /// The free-text detail the error carries.
    pub fn detail(&self) -> (detail: &String)
        ensures
            detail@ == self@.detail(),
    {
        match self {
            TaskError::Validation(d) => d,
            TaskError::Execution(d) => d,
            TaskError::NotFound(d) => d,
            TaskError::InvalidConfiguration(d) => d,
        }
    }

    /// An independent copy of this error.
    pub fn duplicate(&self) -> (copy: TaskError)
        ensures
            copy@ == self@,
    {
        match self {
            TaskError::Validation(d) => TaskError::Validation(d.clone()),
            TaskError::Execution(d) => TaskError::Execution(d.clone()),
            TaskError::NotFound(d) => TaskError::NotFound(d.clone()),
            TaskError::InvalidConfiguration(d) => TaskError::InvalidConfiguration(d.clone()),
        }
    }

    /// The sentence shown to the operator.
    pub fn describe(&self) -> (text: String)
        ensures
            text@ == self@.describe(),
    {
        match self {
            TaskError::Validation(d) => String::from_str("Task validation failed: ").concat(
                d.as_str(),
            ),
            TaskError::Execution(d) => String::from_str("Task execution failed: ").concat(
                d.as_str(),
            ),
            TaskError::NotFound(d) => String::from_str("Task not found: ").concat(d.as_str()),
            TaskError::InvalidConfiguration(d) => String::from_str(
                "Invalid task configuration: ",
            ).concat(d.as_str()),
        }
    }
}

} // verus!
