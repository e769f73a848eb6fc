//! The runner: it takes the declarations of a run one after the other,
//! tests each guard, builds each task through the registry, and drives it
//! to its end.
//!
//! The runner acts on nothing itself. Each call of [`Runner::step`] takes
//! the host's reply to the last request and hands out the next directive;
//! the caller shows the lines, carries the request out, and calls again.

use crate::error::{TaskError, TaskErrorView};
use crate::host::{optional_text, HostReply, HostReplyView, HostRequest, HostRequestView};
use crate::modules::command::{
    check_command, check_command_flow, check_finished, check_verdict, quoted, unexpected_reply,
    unexpected_reply_error,
};
use crate::registry::{RegistryView, Task, TaskRegistry, TaskView};
use crate::task::{
    Flow, FlowView, Progress, ProgressView, Stage, TaskContext, TaskContextView, TaskExecutor,
    TaskResult, TaskResultView, TaskStep, TaskStepView,
};
use crate::text::{
    decimal, join_lines, lemma_occurs_between, no_lines, occurs_in, one_line, push_item,
    render_decimal, views,
};
use crate::value::{entry_views, ConfigValue, EntryView};
use vstd::prelude::*;

verus! {

/// One entry of the list of tasks to run.
#[derive(Debug)]
pub struct TaskDeclaration {
    /// The name by which the operator knows the task.
    pub name: String,
    /// A shell condition; where it holds, the task is skipped.
    pub guard: Option<String>,
    /// What else the declaration holds: the type keys it names, each
    /// with its configuration. A declaration in order names one.
    pub entries: Vec<(String, ConfigValue)>,
}

/// The mathematical value of a [`TaskDeclaration`].
pub struct DeclarationView {
    pub name: Seq<char>,
    pub guard: Option<Seq<char>>,
    pub entries: Seq<EntryView>,
}

impl View for TaskDeclaration {
    type V = DeclarationView;

    open spec fn view(&self) -> DeclarationView {
        DeclarationView {
            name: self.name@,
            guard: optional_text(self.guard),
            entries: entry_views(self.entries@),
        }
    }
}

/// The keys of `entries` between double quotes, separated by a comma and
/// a space.
pub open spec fn listed_keys(entries: Seq<EntryView>) -> Seq<char>
    decreases entries.len(),
{
    if entries.len() == 0 {
        Seq::empty()
    } else if entries.len() == 1 {
        quoted(entries[0].name)
    } else {
        listed_keys(entries.drop_last()) + ", "@ + quoted(entries.last().name)
    }
}

impl DeclarationView {
    /// The detail of the error that meets a declaration which does not
    /// name one type key: it gives the declaration's name, the number
    /// of keys found, and the keys.
    pub open spec fn malformed(self) -> Seq<char> {
        "Task '"@ + self.name + "' must have exactly one task type key, but found "@ + decimal(
            self.entries.len(),
        ) + ": ["@ + listed_keys(self.entries) + "]"@
    }

    /// The type key that the declaration names, with its configuration.
    /// A declaration that names no key, or more than one, is an error.
    pub open spec fn task_entry(self) -> Result<EntryView, TaskErrorView> {
        if self.entries.len() == 1 {
            Ok(self.entries[0])
        } else {
            Err(TaskErrorView::InvalidConfiguration(self.malformed()))
        }
    }
}

impl TaskDeclaration {
    fn list_keys(&self) -> (text: String)
        ensures
            text@ == listed_keys(self@.entries),
    {
        let mut text = String::new();
        let ghost all = self@.entries;
        let mut at: usize = 0;
        assert(all.take(0) =~= Seq::<EntryView>::empty());
        while at < self.entries.len()
            invariant
                at <= self.entries.len(),
                all == self@.entries,
                all.len() == self.entries.len(),
                text@ == listed_keys(all.take(at as int)),
            decreases self.entries.len() - at,
        {
            if at > 0 {
                text.append(", ");
            }
            text.append("\"");
            text.append(self.entries[at].0.as_str());
            text.append("\"");
            proof {
                let grown = all.take(at + 1);
                assert(grown.drop_last() =~= all.take(at as int));
                assert(grown.last().name == self.entries@[at as int].0@);
                assert(grown[0] == all[0]);
                assert(text@ =~= listed_keys(grown));
            }
            at += 1;
        }
        assert(all.take(at as int) =~= all);
        text
    }

    /// The type key that the declaration names, with its configuration.
    /// The declaration itself is left as it is.
    pub fn task_entry(&self) -> (entry: Result<(&String, &ConfigValue), TaskError>)
        ensures
            match entry {
                Ok((key, config)) => self@.task_entry() == Ok::<EntryView, TaskErrorView>(
                    EntryView { name: key@, value: config@ },
                ),
                Err(error) => self@.task_entry() == Err::<EntryView, TaskErrorView>(error@),
            },
    {
        if self.entries.len() == 1 {
            Ok((&self.entries[0].0, &self.entries[0].1))
        } else {
            let mut detail = String::from_str("Task '");
            detail.append(self.name.as_str());
            detail.append("' must have exactly one task type key, but found ");
            detail.append(render_decimal(self.entries.len()).as_str());
            detail.append(": [");
            detail.append(self.list_keys().as_str());
            detail.append("]");
            Err(TaskError::InvalidConfiguration(detail))
        }
    }
}

/// How the runner dealt with one declaration.
#[derive(Debug, Clone, Copy, PartialEq, Eq)]
pub enum Outcome {
    /// The guard held, and the task was not built.
    Skipped,
    /// The task ran and reported success.
    Succeeded { changed: bool },
    /// The task ran and reported that it did not succeed.
    Unsuccessful,
}

/// Where a run stands between two steps.
#[derive(Debug)]
pub enum Phase {
    /// The declaration at this position comes next; nothing has been
    /// asked of the host for it. The position past the last declaration
    /// says that none is left.
    Pending(usize),
    /// The guard of the declaration at this position is with the host.
    Guarding(usize),
    /// The task of the declaration at `index` is at work; its request
    /// made at `stage` is with the host.
    Executing { index: usize, task: Task, stage: Stage },
    /// Every declaration has been dealt with.
    Finished,
    /// The run was given up for this error.
    Aborted(TaskError),
}

/// The mathematical value of a [`Phase`].
pub enum PhaseView {
    Pending(usize),
    Guarding(usize),
    Executing { index: usize, task: TaskView, stage: Stage },
    Finished,
    Aborted(TaskErrorView),
}

impl View for Phase {
    type V = PhaseView;

    open spec fn view(&self) -> PhaseView {
        match self {
            Phase::Pending(index) => PhaseView::Pending(*index),
            Phase::Guarding(index) => PhaseView::Guarding(*index),
            Phase::Executing { index, task, stage } => PhaseView::Executing {
                index: *index,
                task: task@,
                stage: *stage,
            },
            Phase::Finished => PhaseView::Finished,
            Phase::Aborted(error) => PhaseView::Aborted(error@),
        }
    }
}

/// What the runner tells its caller to do.
#[derive(Debug, PartialEq, Eq)]
pub enum Directive {
    /// Show the lines, carry out the request, and step again with the
    /// host's reply.
    Perform { lines: Vec<String>, request: HostRequest },
    /// Show the lines; the run has come to its end.
    Complete { lines: Vec<String> },
    /// Show the lines; the run is given up for this error.
    Abort { lines: Vec<String>, error: TaskError },
}

/// The mathematical value of a [`Directive`].
pub enum DirectiveView {
    Perform { lines: Seq<Seq<char>>, request: HostRequestView },
    Complete { lines: Seq<Seq<char>> },
    Abort { lines: Seq<Seq<char>>, error: TaskErrorView },
}

impl View for Directive {
    type V = DirectiveView;

    open spec fn view(&self) -> DirectiveView {
        match self {
            Directive::Perform { lines, request } => DirectiveView::Perform {
                lines: views(lines@),
                request: request@,
            },
            Directive::Complete { lines } => DirectiveView::Complete { lines: views(lines@) },
            Directive::Abort { lines, error } => DirectiveView::Abort {
                lines: views(lines@),
                error: error@,
            },
        }
    }
}

/// The mathematical value of a [`Runner`].
pub struct RunnerView {
    pub registry: RegistryView,
    pub context: TaskContextView,
    pub declarations: Seq<DeclarationView>,
    pub phase: PhaseView,
    /// How each declaration dealt with so far turned out, in order.
    pub outcomes: Seq<Outcome>,
}

/// The line that reports how the task named `name` turned out.
pub open spec fn report_line(name: Seq<char>, result: TaskResultView) -> Seq<char> {
    if result.success {
        "Task '"@ + name + "' completed successfully"@
    } else {
        "Task '"@ + name + "' failed: "@ + result.message
    }
}

/// The record of a task that ran to its end.
pub open spec fn outcome_of(result: TaskResultView) -> Outcome {
    if result.success {
        Outcome::Succeeded { changed: result.changed }
    } else {
        Outcome::Unsuccessful
    }
}

impl RunnerView {
    /// The position of the declaration that the run is at; the number of
    /// declarations once it is over.
    pub open spec fn position(self) -> int {
        match self.phase {
            PhaseView::Pending(index) => index as int,
            PhaseView::Guarding(index) => index as int,
            PhaseView::Executing { index, .. } => index as int,
            PhaseView::Finished => self.declarations.len() as int,
            PhaseView::Aborted(_) => self.declarations.len() as int,
        }
    }

    /// Whether the run is over.
    pub open spec fn over(self) -> bool {
        self.phase is Finished || self.phase is Aborted
    }

    /// Whether the run is in order: a declaration that is being dealt
    /// with exists, and there is one outcome for each declaration before
    /// it.
    pub open spec fn wf(self) -> bool {
        &&& self.declarations.len() <= usize::MAX
        &&& match self.phase {
            PhaseView::Pending(index) => index <= self.declarations.len() && self.outcomes.len()
                == index,
            PhaseView::Guarding(index) => index < self.declarations.len() && self.outcomes.len()
                == index,
            PhaseView::Executing { index, .. } => index < self.declarations.len()
                && self.outcomes.len() == index,
            PhaseView::Finished => self.outcomes.len() == self.declarations.len(),
            PhaseView::Aborted(_) => self.outcomes.len() <= self.declarations.len(),
        }
    }

    /// The run as it stands before its first step.
    pub open spec fn start(
        registry: RegistryView,
        context: TaskContextView,
        declarations: Seq<DeclarationView>,
    ) -> RunnerView {
        RunnerView {
            registry,
            context,
            declarations,
            phase: PhaseView::Pending(0),
            outcomes: Seq::empty(),
        }
    }

    /// This run in another phase.
    pub open spec fn at(self, phase: PhaseView) -> RunnerView {
        RunnerView {
            registry: self.registry,
            context: self.context,
            declarations: self.declarations,
            phase,
            outcomes: self.outcomes,
        }
    }

    /// This run with the declaration at `index` dealt with in the way
    /// `outcome` tells, and the next declaration pending.
    pub open spec fn settled(self, index: usize, outcome: Outcome) -> RunnerView {
        RunnerView {
            registry: self.registry,
            context: self.context,
            declarations: self.declarations,
            phase: PhaseView::Pending((index + 1) as usize),
            outcomes: self.outcomes.push(outcome),
        }
    }

    /// The run is given up for `error`, after `lines`.
    pub open spec fn abort(self, lines: Seq<Seq<char>>, error: TaskErrorView) -> (
        RunnerView,
        DirectiveView,
    ) {
        (self.at(PhaseView::Aborted(error)), DirectiveView::Abort { lines, error })
    }

    /// What becomes of the run when `task`, built for the declaration at
    /// `index`, has taken `step`, after `lines`.
    ///
    /// A task that asks something of the host has the run wait for the
    /// reply. A task that ran to its end is reported, with success or
    /// without, and the next declaration is pending. A task that failed
    /// has the run given up.
    pub open spec fn advance(
        self,
        index: usize,
        task: TaskView,
        step: TaskStepView,
        lines: Seq<Seq<char>>,
    ) -> (RunnerView, DirectiveView) {
        match step {
            TaskStepView::Ask { lines: more, stage, request } => (
                self.at(PhaseView::Executing { index, task, stage }),
                DirectiveView::Perform { lines: lines + more, request },
            ),
            TaskStepView::Finished { lines: more, result } => (
                self.settled(index, outcome_of(result)),
                DirectiveView::Perform {
                    lines: lines + more + seq![
                        report_line(self.declarations[index as int].name, result),
                    ],
                    request: HostRequestView::Proceed,
                },
            ),
            TaskStepView::Failed { lines: more, error } => self.abort(lines + more, error),
        }
    }

    /// What becomes of the run when the task of the declaration at
    /// `index` is to be built and started, after `lines`.
    ///
    /// The declaration has to name one type key, and the registry has to
    /// make a task for it; else the run is given up before anything is
    /// asked of the host. The task that was made takes its first step.
    pub open spec fn launch(self, index: usize, lines: Seq<Seq<char>>) -> (
        RunnerView,
        DirectiveView,
    ) {
        match self.declarations[index as int].task_entry() {
            Err(error) => self.abort(lines, error),
            Ok(entry) => match self.registry.create(entry.name, entry.value) {
                Err(error) => self.abort(lines, error),
                Ok(task) => self.advance(
                    index,
                    task,
                    task.step(self.context, ProgressView::Start),
                    lines,
                ),
            },
        }
    }

    /// What becomes of the run when the declaration at `index` is taken
    /// up.
    ///
    /// Past the last declaration the run is complete. Else the
    /// declaration is announced; its guard, if it has one, goes to the
    /// host, and without a guard its task is built and started.
    pub open spec fn begin(self, index: usize) -> (RunnerView, DirectiveView) {
        if index >= self.declarations.len() {
            (self.at(PhaseView::Finished), DirectiveView::Complete { lines: Seq::empty() })
        } else {
            let declaration = self.declarations[index as int];
            let announcement = seq!["Executing task: "@ + declaration.name];
            match declaration.guard {
                Some(guard) => match check_command_flow(guard, self.context.verbose) {
                    FlowView::Ask { lines, request } => (
                        self.at(PhaseView::Guarding(index)),
                        DirectiveView::Perform { lines: announcement + lines, request },
                    ),
                    FlowView::Done { lines, .. } => self.abort(
                        announcement + lines,
                        TaskErrorView::Execution(unexpected_reply()),
                    ),
                    FlowView::Failed { lines, error } => self.abort(announcement + lines, error),
                },
                None => self.launch(index, announcement),
            }
        }
    }

    /// The line that tells of a skipped declaration.
    pub open spec fn skip_line(name: Seq<char>) -> Seq<char> {
        "Skipping task '"@ + name + "' because 'unless' command succeeded."@
    }

    /// What becomes of the run when the host has answered the guard of
    /// the declaration at `index`.
    ///
    /// A guard that holds has the declaration skipped: no task is built,
    /// nothing is asked of the host, and the next declaration is
    /// pending. A guard that does not hold has the task built and
    /// started. A guard that the host could not test has the run given
    /// up.
    pub open spec fn after_guard(self, index: usize, reply: HostReplyView) -> (
        RunnerView,
        DirectiveView,
    ) {
        match check_verdict(self.context.verbose, reply) {
            FlowView::Done { lines, value: holds } => if holds {
                (
                    self.settled(index, Outcome::Skipped),
                    DirectiveView::Perform {
                        lines: lines + seq![
                            Self::skip_line(self.declarations[index as int].name),
                        ],
                        request: HostRequestView::Proceed,
                    },
                )
            } else {
                self.launch(index, lines)
            },
            FlowView::Failed { lines, error } => self.abort(lines, error),
            FlowView::Ask { lines, .. } => self.abort(
                lines,
                TaskErrorView::Execution(unexpected_reply()),
            ),
        }
    }

    /// One step of the run: what the run becomes, and what its caller is
    /// told, when the host has answered the last request with `reply`.
    ///
    /// The reply to a request for nothing is not looked at, nor is any
    /// reply once the run is over: a run that is over stays as it is and
    /// says again how it ended.
    pub open spec fn step(self, reply: HostReplyView) -> (RunnerView, DirectiveView) {
        match self.phase {
            PhaseView::Pending(index) => self.begin(index),
            PhaseView::Guarding(index) => self.after_guard(index, reply),
            PhaseView::Executing { index, task, stage } => self.advance(
                index,
                task,
                task.step(self.context, ProgressView::Resumed { stage, reply }),
                Seq::empty(),
            ),
            PhaseView::Finished => (self, DirectiveView::Complete { lines: Seq::empty() }),
            PhaseView::Aborted(error) => (
                self,
                DirectiveView::Abort { lines: Seq::empty(), error },
            ),
        }
    }
}

/// A run of a list of declarations.
#[derive(Debug)]
pub struct Runner {
    registry: TaskRegistry,
    context: TaskContext,
    declarations: Vec<TaskDeclaration>,
    phase: Phase,
    outcomes: Vec<Outcome>,
}

impl View for Runner {
    type V = RunnerView;

    closed spec fn view(&self) -> RunnerView {
        RunnerView {
            registry: self.registry@,
            context: self.context@,
            declarations: views(self.declarations@),
            phase: self.phase@,
            outcomes: self.outcomes@,
        }
    }
}

fn report(name: &str, result: &TaskResult) -> (line: String)
    ensures
        line@ == report_line(name@, result@),
{
    if result.success {
        String::from_str("Task '").concat(name).concat("' completed successfully")
    } else {
        String::from_str("Task '").concat(name).concat("' failed: ").concat(
            result.message.as_str(),
        )
    }
}

impl Runner {
    /// The declaration that the run is at exists.
    #[verifier::type_invariant]
    spec fn at_a_declaration(&self) -> bool {
        match self.phase {
            Phase::Pending(index) => index <= self.declarations@.len(),
            Phase::Guarding(index) => index < self.declarations@.len(),
            Phase::Executing { index, .. } => index < self.declarations@.len(),
            _ => true,
        }
    }

    /// A run of `declarations`, before its first step.
    pub fn new(registry: TaskRegistry, context: TaskContext, declarations: Vec<TaskDeclaration>) -> (runner:
        Runner)
        ensures
            runner@ == RunnerView::start(registry@, context@, views(declarations@)),
            runner@.wf(),
    {
        assert(views(declarations@).len() == declarations.len());
        Runner { registry, context, declarations, phase: Phase::Pending(0), outcomes: Vec::new() }
    }

    /// How each declaration dealt with so far turned out, in order.
    pub fn outcomes(&self) -> (outcomes: &Vec<Outcome>)
        ensures
            outcomes@ == self@.outcomes,
    {
        &self.outcomes
    }

    /// Whether the run is over.
    pub fn is_over(&self) -> (over: bool)
        ensures
            over == self@.over(),
    {
        match self.phase {
            Phase::Finished => true,
            Phase::Aborted(_) => true,
            _ => false,
        }
    }

    fn record(&mut self, outcome: Outcome)
        ensures
            final(self).outcomes@ == old(self).outcomes@.push(outcome),
            final(self).registry == old(self).registry,
            final(self).context == old(self).context,
            final(self).declarations == old(self).declarations,
            final(self).phase == old(self).phase,
    {
        proof {
            use_type_invariant(&*self);
        }
        let mut outcomes: Vec<Outcome> = Vec::new();
        core::mem::swap(&mut self.outcomes, &mut outcomes);
        outcomes.push(outcome);
        self.outcomes = outcomes;
    }

    fn abort(&mut self, lines: Vec<String>, error: TaskError) -> (directive: Directive)
        ensures
            (final(self)@, directive@) == old(self)@.abort(views(lines@), error@),
    {
        self.phase = Phase::Aborted(error.duplicate());
        Directive::Abort { lines, error }
    }

    fn advance(&mut self, index: usize, task: Task, step: TaskStep, lines: Vec<String>) -> (directive:
        Directive)
        requires
            index < old(self).declarations.len(),
        ensures
            (final(self)@, directive@) == old(self)@.advance(index, task@, step@, views(lines@)),
    {
        match step {
            TaskStep::Ask { lines: more, stage, request } => {
                self.phase = Phase::Executing { index, task, stage };
                Directive::Perform { lines: join_lines(lines, more), request }
            },
            TaskStep::Finished { lines: more, result } => {
                let mut shown = join_lines(lines, more);
                assert(views(self.declarations@)[index as int].name
                    == self.declarations@[index as int].name@);
                let line = report(self.declarations[index].name.as_str(), &result);
                push_item(&mut shown, line);
                assert(views(shown@) =~= views(lines@) + views(more@) + seq![line@]);
                let outcome = if result.success {
                    Outcome::Succeeded { changed: result.changed }
                } else {
                    Outcome::Unsuccessful
                };
                self.record(outcome);
                self.phase = Phase::Pending(index + 1);
                Directive::Perform { lines: shown, request: HostRequest::Proceed }
            },
            TaskStep::Failed { lines: more, error } => self.abort(join_lines(lines, more), error),
        }
    }

    fn launch(&mut self, index: usize, lines: Vec<String>) -> (directive: Directive)
        requires
            index < old(self).declarations.len(),
        ensures
            (final(self)@, directive@) == old(self)@.launch(index, views(lines@)),
    {
        let made = match self.declarations[index].task_entry() {
            Err(error) => Err(error),
            Ok((key, config)) => self.registry.create_task(key.as_str(), config),
        };
        match made {
            Err(error) => self.abort(lines, error),
            Ok(task) => {
                let step = task.execute(&self.context, &Progress::Start);
                self.advance(index, task, step, lines)
            },
        }
    }

    fn begin(&mut self, index: usize) -> (directive: Directive)
        requires
            index <= old(self).declarations.len(),
        ensures
            (final(self)@, directive@) == old(self)@.begin(index),
    {
        if index >= self.declarations.len() {
            self.phase = Phase::Finished;
            return Directive::Complete { lines: no_lines() };
        }
        let announcement = one_line(
            String::from_str("Executing task: ").concat(self.declarations[index].name.as_str()),
        );
        let flow = match &self.declarations[index].guard {
            Some(guard) => check_command(guard.as_str(), self.context.verbose),
            None => {
                return self.launch(index, announcement);
            },
        };
        match flow {
            Flow::Ask { lines, request } => {
                self.phase = Phase::Guarding(index);
                Directive::Perform { lines: join_lines(announcement, lines), request }
            },
            Flow::Done { lines, .. } => self.abort(
                join_lines(announcement, lines),
                unexpected_reply_error(),
            ),
            Flow::Failed { lines, error } => self.abort(join_lines(announcement, lines), error),
        }
    }

    fn after_guard(&mut self, index: usize, reply: &HostReply) -> (directive: Directive)
        requires
            index < old(self).declarations.len(),
        ensures
            (final(self)@, directive@) == old(self)@.after_guard(index, reply@),
    {
        match check_finished(self.context.verbose, reply) {
            Flow::Done { lines, value: holds } => {
                if holds {
                    let mut shown = lines;
                    assert(views(self.declarations@)[index as int].name
                        == self.declarations@[index as int].name@);
                    let line = String::from_str("Skipping task '").concat(
                        self.declarations[index].name.as_str(),
                    ).concat("' because 'unless' command succeeded.");
                    push_item(&mut shown, line);
                    assert(views(shown@) =~= views(lines@) + seq![line@]);
                    self.record(Outcome::Skipped);
                    self.phase = Phase::Pending(index + 1);
                    Directive::Perform { lines: shown, request: HostRequest::Proceed }
                } else {
                    self.launch(index, lines)
                }
            },
            Flow::Failed { lines, error } => self.abort(lines, error),
            Flow::Ask { lines, .. } => self.abort(lines, unexpected_reply_error()),
        }
    }

    /// Takes one step of the run: the first on any reply, each later one
    /// on the host's reply to the request that the last directive made.
    pub fn step(&mut self, reply: HostReply) -> (directive: Directive)
        ensures
            (final(self)@, directive@) == old(self)@.step(reply@),
            old(self)@.wf() ==> final(self)@.wf(),
    {
        proof {
            use_type_invariant(&*self);
        }
        let mut phase = Phase::Finished;
        core::mem::swap(&mut self.phase, &mut phase);
        let directive = match phase {
            Phase::Pending(index) => {
                self.phase = Phase::Pending(index);
                self.begin(index)
            },
            Phase::Guarding(index) => {
                self.phase = Phase::Guarding(index);
                self.after_guard(index, &reply)
            },
            Phase::Executing { index, task, stage } => {
                let step = task.execute(&self.context, &Progress::Resumed { stage, reply });
                self.advance(index, task, step, no_lines())
            },
            Phase::Finished => Directive::Complete { lines: no_lines() },
            Phase::Aborted(error) => {
                self.phase = Phase::Aborted(error.duplicate());
                Directive::Abort { lines: no_lines(), error }
            },
        };
        proof {
            if old(self)@.wf() {
                old(self)@.lemma_step_wf(reply@);
            }
        }
        directive
    }
}

impl RunnerView {
    /// A step leaves a run that is in order in order.
    pub proof fn lemma_step_wf(self, reply: HostReplyView)
        requires
            self.wf(),
        ensures
            self.step(reply).0.wf(),
    {
    }

    /// A declaration whose guard holds is skipped. Whatever the
    /// declaration holds besides, no task is built for it and nothing
    /// is asked of the host: the run records the skip and has the next
    /// declaration pending.
    pub proof fn law_guard_that_holds_skips(self, index: usize, status: Seq<char>)
        requires
            self.wf(),
            self.phase == PhaseView::Guarding(index),
        ensures
            ({
                let (next, directive) = self.step(HostReplyView::Exited { success: true, status });
                &&& next.phase == PhaseView::Pending((index + 1) as usize)
                &&& next.outcomes == self.outcomes.push(Outcome::Skipped)
                &&& directive matches DirectiveView::Perform { request, .. }
                &&& request == HostRequestView::Proceed
            }),
    {
    }

    /// A run never goes back: a step leaves the registry, the context
    /// and the declarations as they are, keeps every outcome recorded so
    /// far, and leaves the run at the same declaration or a later one.
    /// So a declaration that was skipped stays skipped.
    pub proof fn law_steps_go_forward(self, reply: HostReplyView)
        requires
            self.wf(),
        ensures
            ({
                let next = self.step(reply).0;
                &&& next.registry == self.registry
                &&& next.context == self.context
                &&& next.declarations == self.declarations
                &&& next.position() >= self.position()
                &&& self.outcomes.len() <= next.outcomes.len() <= next.position()
                &&& next.outcomes.subrange(0, self.outcomes.len() as int) == self.outcomes
            }),
    {
        let next = self.step(reply).0;
        assert(next.outcomes.subrange(0, self.outcomes.len() as int) =~= self.outcomes);
    }

    /// A declaration whose guard does not hold runs as its task says.
    /// Where the declaration names one type key and the registry makes
    /// the task `task` for it, the step that follows the guard is the
    /// first step of `task`: what it asks is asked of the host, its end
    /// is recorded, and its failure gives the run up.
    pub proof fn law_guard_that_fails_runs(self, index: usize, status: Seq<char>, task: TaskView)
        requires
            self.wf(),
            self.phase == PhaseView::Guarding(index),
            self.declarations[index as int].entries.len() == 1,
            self.registry.create(
                self.declarations[index as int].entries[0].name,
                self.declarations[index as int].entries[0].value,
            ) == Ok::<TaskView, TaskErrorView>(task),
        ensures
            ({
                let reply = HostReplyView::Exited { success: false, status };
                let shown = check_verdict(self.context.verbose, reply).lines();
                let (next, directive) = self.step(reply);
                match task.step(self.context, ProgressView::Start) {
                    TaskStepView::Ask { lines, stage, request } => {
                        &&& next.phase == PhaseView::Executing { index, task, stage }
                        &&& next.outcomes == self.outcomes
                        &&& directive == DirectiveView::Perform { lines: shown + lines, request }
                    },
                    TaskStepView::Finished { lines, result } => {
                        &&& next.phase == PhaseView::Pending((index + 1) as usize)
                        &&& next.outcomes == self.outcomes.push(outcome_of(result))
                        &&& directive matches DirectiveView::Perform { request, .. }
                        &&& request == HostRequestView::Proceed
                    },
                    TaskStepView::Failed { lines, error } => {
                        &&& next.phase == PhaseView::Aborted(error)
                        &&& directive == DirectiveView::Abort { lines: shown + lines, error }
                    },
                }
            }),
    {
    }

    /// The detail of the error that meets a declaration which does not
    /// name one type key holds the declaration's name and the number of
    /// keys found.
    pub proof fn lemma_malformed_names(declaration: DeclarationView)
        ensures
            occurs_in(declaration.malformed(), declaration.name),
            occurs_in(declaration.malformed(), decimal(declaration.entries.len())),
    {
        let count = decimal(declaration.entries.len());
        let tail = ": ["@ + listed_keys(declaration.entries) + "]"@;
        lemma_occurs_between(
            "Task '"@,
            declaration.name,
            "' must have exactly one task type key, but found "@ + count + tail,
        );
        assert(declaration.malformed() =~= "Task '"@ + declaration.name + (
        "' must have exactly one task type key, but found "@ + count + tail));
        lemma_occurs_between(
            "Task '"@ + declaration.name + "' must have exactly one task type key, but found "@,
            count,
            tail,
        );
        assert(declaration.malformed() =~= "Task '"@ + declaration.name
            + "' must have exactly one task type key, but found "@ + count + tail);
    }

    /// A declaration without a guard that names no type key, or more
    /// than one, gives the run up when it is taken up. Nothing is asked
    /// of the host for it, and the error is of the kind
    /// `InvalidConfiguration`; its detail holds the declaration's name
    /// and the number of keys found.
    pub proof fn law_malformed_declaration_aborts(self, index: usize, reply: HostReplyView)
        requires
            self.wf(),
            index < self.declarations.len(),
            self.phase == PhaseView::Pending(index),
            self.declarations[index as int].guard is None,
            self.declarations[index as int].entries.len() != 1,
        ensures
            ({
                let declaration = self.declarations[index as int];
                let error = TaskErrorView::InvalidConfiguration(declaration.malformed());
                let (next, directive) = self.step(reply);
                &&& next.phase == PhaseView::Aborted(error)
                &&& next.outcomes == self.outcomes
                &&& directive matches DirectiveView::Abort { error: told, .. }
                &&& told == error
                &&& occurs_in(declaration.malformed(), declaration.name)
                &&& occurs_in(declaration.malformed(), decimal(declaration.entries.len()))
            }),
    {
        Self::lemma_malformed_names(self.declarations[index as int]);
    }

    /// A declaration whose guard does not hold and that names no type
    /// key, or more than one, gives the run up in the same way.
    pub proof fn law_malformed_declaration_aborts_after_guard(
        self,
        index: usize,
        status: Seq<char>,
    )
        requires
            self.wf(),
            self.phase == PhaseView::Guarding(index),
            self.declarations[index as int].entries.len() != 1,
        ensures
            ({
                let declaration = self.declarations[index as int];
                let error = TaskErrorView::InvalidConfiguration(declaration.malformed());
                let (next, directive) = self.step(
                    HostReplyView::Exited { success: false, status },
                );
                &&& next.phase == PhaseView::Aborted(error)
                &&& next.outcomes == self.outcomes
                &&& directive matches DirectiveView::Abort { error: told, .. }
                &&& told == error
                &&& occurs_in(declaration.malformed(), declaration.name)
                &&& occurs_in(declaration.malformed(), decimal(declaration.entries.len()))
            }),
    {
        Self::lemma_malformed_names(self.declarations[index as int]);
    }

    /// A declaration whose task the registry cannot make gives the run
    /// up with the registry's error, before anything is asked of the
    /// host for it.
    pub proof fn law_unmade_task_aborts(self, index: usize, lines: Seq<Seq<char>>, error: TaskErrorView)
        requires
            index < self.declarations.len(),
            self.declarations[index as int].entries.len() == 1,
            self.registry.create(
                self.declarations[index as int].entries[0].name,
                self.declarations[index as int].entries[0].value,
            ) == Err::<TaskView, TaskErrorView>(error),
        ensures
            self.launch(index, lines) == self.abort(lines, error),
    {
    }

    /// The run as it stands when the host has answered with `replies`,
    /// one after the other.
    pub open spec fn after(self, replies: Seq<HostReplyView>) -> RunnerView
        decreases replies.len(),
    {
        if replies.len() == 0 {
            self
        } else {
            self.step(replies[0]).0.after(replies.drop_first())
        }
    }

    /// Whatever the host answers, a run that is in order stays in
    /// order, keeps its registry, its context and its declarations, never
    /// goes back to an earlier declaration, and never takes back an
    /// outcome.
    pub proof fn law_runs_go_forward(self, replies: Seq<HostReplyView>)
        requires
            self.wf(),
        ensures
            ({
                let later = self.after(replies);
                &&& later.wf()
                &&& later.registry == self.registry
                &&& later.context == self.context
                &&& later.declarations == self.declarations
                &&& later.position() >= self.position()
                &&& self.outcomes.len() <= later.outcomes.len() <= later.position()
                &&& later.outcomes.subrange(0, self.outcomes.len() as int) == self.outcomes
            }),
        decreases replies.len(),
    {
        if replies.len() == 0 {
            assert(self.outcomes.subrange(0, self.outcomes.len() as int) =~= self.outcomes);
        } else {
            let next = self.step(replies[0]).0;
            self.lemma_step_wf(replies[0]);
            self.law_steps_go_forward(replies[0]);
            next.law_runs_go_forward(replies.drop_first());
            let later = self.after(replies);
            assert(later.outcomes.subrange(0, self.outcomes.len() as int) =~= self.outcomes) by {
                assert(later.outcomes.subrange(0, next.outcomes.len() as int) == next.outcomes);
                assert(next.outcomes.subrange(0, self.outcomes.len() as int) == self.outcomes);
                assert forall|i: int| 0 <= i < self.outcomes.len() implies later.outcomes[i]
                    == self.outcomes[i] by {
                    assert(later.outcomes.subrange(0, next.outcomes.len() as int)[i]
                        == later.outcomes[i]);
                    assert(next.outcomes.subrange(0, self.outcomes.len() as int)[i]
                        == next.outcomes[i]);
                }
            }
        }
    }

    /// A declaration whose guard holds never runs. Once the host has
    /// told that the guard holds, the run is past the declaration for
    /// good, whatever the host answers from then on: its outcome stays
    /// `Skipped`, and no task is ever at work for it.
    pub proof fn law_skipped_declaration_never_runs(
        self,
        index: usize,
        status: Seq<char>,
        replies: Seq<HostReplyView>,
    )
        requires
            self.wf(),
            self.phase == PhaseView::Guarding(index),
        ensures
            ({
                let skipped = self.step(HostReplyView::Exited { success: true, status }).0;
                let later = skipped.after(replies);
                &&& later.position() > index
                &&& later.outcomes[index as int] == Outcome::Skipped
                &&& !(later.phase matches PhaseView::Executing { index: at, .. } && at == index)
            }),
    {
        let reply = HostReplyView::Exited { success: true, status };
        let skipped = self.step(reply).0;
        self.law_guard_that_holds_skips(index, status);
        self.lemma_step_wf(reply);
        skipped.law_runs_go_forward(replies);
        let later = skipped.after(replies);
        assert(later.outcomes.subrange(0, skipped.outcomes.len() as int)[index as int]
            == later.outcomes[index as int]);
    }

    /// A run that was given up stays given up, whatever the host answers
    /// from then on: no declaration is taken up after the one that gave
    /// the run up.
    pub proof fn law_aborted_run_stays_aborted(self, replies: Seq<HostReplyView>)
        requires
            self.phase is Aborted,
        ensures
            self.after(replies) == self,
        decreases replies.len(),
    {
        if replies.len() > 0 {
            self.law_over_is_final(replies[0]);
            self.law_aborted_run_stays_aborted(replies.drop_first());
        }
    }

    /// A run that is over stays over: every further step leaves it as
    /// it is, asks nothing of the host, and says again how the run
    /// ended.
    pub proof fn law_over_is_final(self, reply: HostReplyView)
        requires
            self.over(),
        ensures
            self.step(reply).0 == self,
            match self.phase {
                PhaseView::Aborted(error) => self.step(reply).1 == DirectiveView::Abort {
                    lines: Seq::empty(),
                    error,
                },
                _ => self.step(reply).1 == DirectiveView::Complete { lines: Seq::empty() },
            },
    {
    }

    /// A task that runs to its end does not give the run up, whether it
    /// reports success or not: its outcome is recorded and the next
    /// declaration is pending. Only a task that fails gives the run up.
    pub proof fn law_unsuccessful_result_goes_on(
        self,
        index: usize,
        task: TaskView,
        stage: Stage,
        reply: HostReplyView,
    )
        requires
            self.wf(),
            self.phase == (PhaseView::Executing { index, task, stage }),
        ensures
            ({
                let (next, directive) = self.step(reply);
                match task.step(self.context, ProgressView::Resumed { stage, reply }) {
                    TaskStepView::Finished { result, .. } => {
                        &&& next.phase == PhaseView::Pending((index + 1) as usize)
                        &&& next.outcomes == self.outcomes.push(outcome_of(result))
                        &&& directive is Perform
                    },
                    TaskStepView::Failed { error, .. } => next.phase == PhaseView::Aborted(error)
                        && directive is Abort,
                    TaskStepView::Ask { stage: then, request, .. } => {
                        &&& next.phase == PhaseView::Executing { index, task, stage: then }
                        &&& directive matches DirectiveView::Perform { request: asked, .. }
                        &&& asked == request
                    },
                }
            }),
    {
    }
}

} // verus!
