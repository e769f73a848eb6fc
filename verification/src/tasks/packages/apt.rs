//! The task that manages packages through apt.

use crate::error::{TaskError, TaskErrorView};
use crate::host::{HostReply, HostReplyView, HostRequest, HostRequestView};
use crate::modules::apt::{
    apt_install, apt_install_flow, apt_update, apt_update_flow, build_install_command,
    build_update_command, install_command, is_package_installed,
    is_package_installed_flow, installed_verdict, package_status, record_update_time,
    record_update_time_flow, should_update, update_command, update_decision, LAST_UPDATE_FILE,
};
use crate::modules::command::{
    command_finished, command_verdict, unexpected_reply, unexpected_reply_error,
};
use crate::modules::file::{operation_finished, operation_verdict};
use crate::task::{
    Flow, FlowView, Progress, ProgressView, Stage, TaskContext, TaskContextView, TaskExecutor,
    TaskResult, TaskResultView, TaskStep, TaskStepView,
};
use crate::text::{join_lines, no_lines, one_line, same_text, views};
use crate::time::Instant;
use crate::value::{ConfigValue, ConfigView};
use vstd::prelude::*;

verus! {

/// The file whose modification time tells when an apt task last updated
/// the package index.
pub const UPDATE_STAMP_FILE: &'static str = "/tmp/inti-apt-update-last-ran";

/// The seconds for which an update of the package index is taken to
/// last: three hours.
pub const UPDATE_PERIOD_SECS: u64 = 10_800;

/// Updates the package index and installs packages.
#[derive(Debug)]
pub struct AptTask {
    update: Option<ConfigValue>,
    package: Option<String>,
    packages: Option<Vec<String>>,
}

/// The mathematical value of an [`AptTask`].
pub struct AptTaskView {
    /// The update directive, where one is given.
    pub update: Option<ConfigView>,
    /// The single package to install, where one is given.
    pub package: Option<Seq<char>>,
    /// The list of packages to install, where one is given.
    pub packages: Option<Seq<Seq<char>>>,
}

impl View for AptTask {
    type V = AptTaskView;

    closed spec fn view(&self) -> AptTaskView {
        AptTaskView {
            update: match self.update {
                Some(update) => Some(update@),
                None => None,
            },
            package: match self.package {
                Some(package) => Some(package@),
                None => None,
            },
            packages: match self.packages {
                Some(packages) => Some(views(packages@)),
                None => None,
            },
        }
    }
}

/// The detail of the error that meets a configuration that is no table.
pub open spec fn apt_shape() -> Seq<char> {
    "an apt task is configured by a table"@
}

/// The detail of the error that meets a clock that stands before 1970.
pub open spec fn clock_before_epoch() -> Seq<char> {
    "system time is before 1970"@
}

/// Whether an update stamp last modified at `modified_secs` calls for an
/// update at `now_secs`, both in seconds since 1970.
///
/// It does where there is no stamp, where the stamp is three hours old
/// or older, and where the stamp lies in the future.
pub open spec fn stamp_is_stale(now_secs: u64, modified_secs: Option<u64>) -> bool {
    match modified_secs {
        None => true,
        Some(modified) => now_secs < modified || now_secs - modified >= UPDATE_PERIOD_SECS,
    }
}

impl AptTaskView {
    /// The task that `config` describes: a table in which `package`, if
    /// given, is text and `packages`, if given, is a list of texts. The
    /// field `update` may hold anything. For any other configuration,
    /// the error that tells what is wrong first: that it is no table,
    /// or which field is of the wrong kind, `package` before `packages`.
    pub open spec fn decode(config: ConfigView) -> Result<AptTaskView, TaskErrorView> {
        if !(config is Table) {
            Err(TaskErrorView::InvalidConfiguration(apt_shape()))
        } else {
            match config.optional_text("package"@) {
                Err(error) => Err(error),
                Ok(package) => match config.optional_texts("packages"@) {
                    Err(error) => Err(error),
                    Ok(packages) => Ok(
                        AptTaskView { update: config.optional("update"@), package, packages },
                    ),
                },
            }
        }
    }

    /// Whether the update is forced: the directive is the text `force`
    /// or the boolean `true`.
    pub open spec fn forced(self) -> bool {
        match self.update {
            Some(ConfigView::Text(text)) => text == "force"@,
            Some(ConfigView::Bool(force)) => force,
            _ => false,
        }
    }

    /// The packages to install, in the order in which they are
    /// installed: the single package first, then the list.
    pub open spec fn wanted(self) -> Seq<Seq<char>> {
        (match self.package {
            Some(package) => seq![package],
            None => Seq::empty(),
        }) + (match self.packages {
            Some(packages) => packages,
            None => Seq::empty(),
        })
    }

    /// What the task reports when it has run.
    pub open spec fn result() -> TaskResultView {
        TaskResultView {
            success: true,
            changed: true,
            message: "Apt task executed"@,
            stdout: None,
            stderr: None,
        }
    }

    /// The step that follows `lines` and begins with the package at
    /// position `at`: the status of that package is asked for, or, with
    /// no package left, the task has finished.
    pub open spec fn install_from(self, at: int, lines: Seq<Seq<char>>) -> TaskStepView {
        if 0 <= at < self.wanted().len() {
            match is_package_installed_flow(self.wanted()[at]) {
                FlowView::Ask { lines: more, request } => TaskStepView::Ask {
                    lines: lines + more,
                    stage: Stage::Querying(at as usize),
                    request,
                },
                FlowView::Done { lines: more, .. } => TaskStepView::Finished {
                    lines: lines + more,
                    result: Self::result(),
                },
                FlowView::Failed { lines: more, error } => TaskStepView::Failed {
                    lines: lines + more,
                    error,
                },
            }
        } else {
            TaskStepView::Finished { lines, result: Self::result() }
        }
    }

    /// The step that follows `lines` and renews the stamp at `path`: the
    /// file is written anew, with nothing in it.
    pub open spec fn renew(path: Seq<char>, lines: Seq<Seq<char>>) -> TaskStepView {
        TaskStepView::Ask {
            lines,
            stage: Stage::Stamping,
            request: HostRequestView::WriteText { path, contents: Seq::empty() },
        }
    }

    /// The step that follows `lines` and renews the update stamp.
    pub open spec fn stamp(lines: Seq<Seq<char>>) -> TaskStepView {
        Self::renew(UPDATE_STAMP_FILE@, lines)
    }

    /// The step that an update of the package index begins with: the
    /// update runs, or it was passed over and the stamp is renewed.
    pub open spec fn update_with(flow: FlowView<()>) -> TaskStepView {
        match flow {
            FlowView::Ask { lines, request } => TaskStepView::Ask {
                lines,
                stage: Stage::Updating,
                request,
            },
            FlowView::Done { lines, .. } => Self::stamp(lines),
            FlowView::Failed { lines, error } => TaskStepView::Failed { lines, error },
        }
    }

    /// The first step. Without an update directive the packages come at
    /// once. A forced update runs at once. Any other update depends on
    /// the age of the update stamp, so the clock is read first.
    pub open spec fn begin(self, verbose: bool) -> TaskStepView {
        if self.update is None {
            self.install_from(0, Seq::empty())
        } else if self.forced() {
            Self::update_with(apt_update_flow(true, verbose, false))
        } else {
            TaskStepView::Ask {
                lines: Seq::empty(),
                stage: Stage::TimingStamp,
                request: HostRequestView::Clock,
            }
        }
    }

    /// The step after the clock was read for the stamp: the stamp's
    /// modification time is asked for.
    pub open spec fn after_timing_stamp(reply: HostReplyView) -> TaskStepView {
        match reply {
            HostReplyView::Now(now) => if now.secs < 0 {
                failed(clock_before_epoch())
            } else {
                TaskStepView::Ask {
                    lines: Seq::empty(),
                    stage: Stage::ReadingStamp(now),
                    request: HostRequestView::Modified(UPDATE_STAMP_FILE@),
                }
            },
            HostReplyView::Failed(reason) => failed(reason),
            _ => failed(unexpected_reply()),
        }
    }

    /// The step after the stamp's modification time was read. A stale
    /// stamp has the record of the last update read; a fresh one has the
    /// update passed over, and the packages come.
    pub open spec fn after_reading_stamp(self, now: Instant, reply: HostReplyView) -> TaskStepView {
        match reply {
            HostReplyView::Modified(modified) => if now.secs >= 0 && stamp_is_stale(
                now.secs as u64,
                modified,
            ) {
                TaskStepView::Ask {
                    lines: Seq::empty(),
                    stage: Stage::ReadingRecord(now),
                    request: HostRequestView::ReadText(LAST_UPDATE_FILE@),
                }
            } else {
                self.install_from(0, seq!["Skipping apt update: last run less than 3 hours ago."@])
            },
            HostReplyView::Failed(reason) => failed(reason),
            _ => failed(unexpected_reply()),
        }
    }

    /// The step after the record of the last update was read: the update
    /// runs if it is due.
    pub open spec fn after_reading_record(
        now: Instant,
        verbose: bool,
        reply: HostReplyView,
    ) -> TaskStepView {
        match reply {
            HostReplyView::Text(record) => match update_decision(record, now) {
                Ok(due) => Self::update_with(apt_update_flow(false, verbose, due)),
                Err(error) => TaskStepView::Failed { lines: Seq::empty(), error },
            },
            HostReplyView::Failed(reason) => failed(reason),
            _ => failed(unexpected_reply()),
        }
    }

    /// The step after the update ran: the clock is read, to date the
    /// record of this update.
    pub open spec fn after_updating(verbose: bool, reply: HostReplyView) -> TaskStepView {
        match command_verdict(update_command(), verbose, reply) {
            FlowView::Done { lines, .. } => TaskStepView::Ask {
                lines,
                stage: Stage::TimingRecord,
                request: HostRequestView::Clock,
            },
            FlowView::Failed { lines, error } => TaskStepView::Failed { lines, error },
            FlowView::Ask { lines, .. } => TaskStepView::Failed {
                lines,
                error: TaskErrorView::Execution(unexpected_reply()),
            },
        }
    }

    /// The step after the clock was read for the record: the record is
    /// written.
    pub open spec fn after_timing_record(reply: HostReplyView) -> TaskStepView {
        match reply {
            HostReplyView::Now(now) => match record_update_time_flow(now) {
                FlowView::Ask { lines, request } => TaskStepView::Ask {
                    lines,
                    stage: Stage::Recording,
                    request,
                },
                FlowView::Done { lines, .. } => Self::stamp(lines),
                FlowView::Failed { lines, error } => TaskStepView::Failed { lines, error },
            },
            HostReplyView::Failed(reason) => failed(reason),
            _ => failed(unexpected_reply()),
        }
    }

    /// The step after the record was written: the stamp is renewed.
    pub open spec fn after_recording(reply: HostReplyView) -> TaskStepView {
        match operation_verdict(reply) {
            FlowView::Done { lines, .. } => Self::stamp(lines),
            FlowView::Failed { lines, error } => TaskStepView::Failed { lines, error },
            FlowView::Ask { lines, .. } => TaskStepView::Failed {
                lines,
                error: TaskErrorView::Execution(unexpected_reply()),
            },
        }
    }

    /// The step after the stamp was renewed: the packages come.
    pub open spec fn after_stamping(self, reply: HostReplyView) -> TaskStepView {
        match operation_verdict(reply) {
            FlowView::Done { lines, .. } => self.install_from(0, lines),
            FlowView::Failed { lines, error } => TaskStepView::Failed { lines, error },
            FlowView::Ask { lines, .. } => TaskStepView::Failed {
                lines,
                error: TaskErrorView::Execution(unexpected_reply()),
            },
        }
    }

    /// The step after the status of the package at `at` was read: the
    /// package is installed if it is not installed yet, and else the
    /// next package comes.
    pub open spec fn after_querying(self, at: usize, verbose: bool, reply: HostReplyView) -> TaskStepView {
        if at < self.wanted().len() {
            match installed_verdict(reply) {
                FlowView::Done { lines, value: installed } => match apt_install_flow(
                    self.wanted()[at as int],
                    verbose,
                    installed,
                ) {
                    FlowView::Ask { lines: more, request } => TaskStepView::Ask {
                        lines: lines + more,
                        stage: Stage::Installing(at),
                        request,
                    },
                    FlowView::Done { lines: more, .. } => self.install_from(at + 1, lines + more),
                    FlowView::Failed { lines: more, error } => TaskStepView::Failed {
                        lines: lines + more,
                        error,
                    },
                },
                FlowView::Failed { lines, error } => TaskStepView::Failed { lines, error },
                FlowView::Ask { lines, .. } => TaskStepView::Failed {
                    lines,
                    error: TaskErrorView::Execution(unexpected_reply()),
                },
            }
        } else {
            failed(unexpected_reply())
        }
    }

    /// The step after the package at `at` was installed: the next
    /// package comes.
    pub open spec fn after_installing(self, at: usize, verbose: bool, reply: HostReplyView) -> TaskStepView {
        if at < self.wanted().len() {
            match command_verdict(install_command(self.wanted()[at as int]), verbose, reply) {
                FlowView::Done { lines, .. } => self.install_from(at + 1, lines),
                FlowView::Failed { lines, error } => TaskStepView::Failed { lines, error },
                FlowView::Ask { lines, .. } => TaskStepView::Failed {
                    lines,
                    error: TaskErrorView::Execution(unexpected_reply()),
                },
            }
        } else {
            failed(unexpected_reply())
        }
    }

    /// The step that the task takes.
    ///
    /// The update comes first, where a directive is given: a forced
    /// update runs whatever its age, any other only where the update
    /// stamp is three hours old and the record of the last update more
    /// than a day. An update that ran is recorded, and after any update
    /// that was not barred by the stamp the stamp is renewed. Then each
    /// wanted package that is not installed yet is installed, in order.
    /// The first operation that fails fails the task.
    pub open spec fn step(self, context: TaskContextView, progress: ProgressView) -> TaskStepView {
        match progress {
            ProgressView::Start => self.begin(context.verbose),
            ProgressView::Resumed { stage, reply } => match stage {
                Stage::TimingStamp => Self::after_timing_stamp(reply),
                Stage::ReadingStamp(now) => self.after_reading_stamp(now, reply),
                Stage::ReadingRecord(now) => Self::after_reading_record(
                    now,
                    context.verbose,
                    reply,
                ),
                Stage::Updating => Self::after_updating(context.verbose, reply),
                Stage::TimingRecord => Self::after_timing_record(reply),
                Stage::Recording => Self::after_recording(reply),
                Stage::Stamping => self.after_stamping(reply),
                Stage::Querying(at) => self.after_querying(at, context.verbose, reply),
                Stage::Installing(at) => self.after_installing(at, context.verbose, reply),
                _ => failed(unexpected_reply()),
            },
        }
    }
}

/// The step of a task that fails, with nothing to show, on a host
/// operation that went wrong in the way `detail` tells.
pub open spec fn failed(detail: Seq<char>) -> TaskStepView {
    TaskStepView::Failed { lines: Seq::empty(), error: TaskErrorView::Execution(detail) }
}

fn fail(detail: String) -> (step: TaskStep)
    ensures
        step@ == failed(detail@),
{
    TaskStep::Failed { lines: no_lines(), error: TaskError::Execution(detail) }
}

fn fail_unexpected() -> (step: TaskStep)
    ensures
        step@ == failed(unexpected_reply()),
{
    TaskStep::Failed { lines: no_lines(), error: unexpected_reply_error() }
}

impl AptTask {
    /// Reads an apt task from its configuration.
    pub fn from_config(config: &ConfigValue) -> (task: Result<AptTask, TaskError>)
        ensures
            match task {
                Ok(task) => AptTaskView::decode(config@) == Ok::<AptTaskView, TaskErrorView>(task@),
                Err(error) => AptTaskView::decode(config@) == Err::<AptTaskView, TaskErrorView>(
                    error@,
                ),
            },
    {
        if !config.is_table() {
            return Err(
                TaskError::InvalidConfiguration(
                    String::from_str("an apt task is configured by a table"),
                ),
            );
        }
        let package = match config.optional_text("package") {
            Ok(Some(package)) => Some(package.clone()),
            Ok(None) => None,
            Err(error) => {
                return Err(error);
            },
        };
        let packages = match config.optional_texts("packages") {
            Ok(packages) => packages,
            Err(error) => {
                return Err(error);
            },
        };
        let update = match config.optional("update") {
            Some(value) => Some(value.duplicate()),
            None => None,
        };
        Ok(AptTask { update, package, packages })
    }

    /// Whether an update stamp last modified at `modified_secs` calls
    /// for an update at `now_secs`, both in seconds since 1970.
    pub fn should_run_apt_update(now_secs: u64, modified_secs: Option<u64>) -> (stale: bool)
        ensures
            stale == stamp_is_stale(now_secs, modified_secs),
    {
        match modified_secs {
            None => true,
            Some(modified) => now_secs < modified || now_secs - modified >= UPDATE_PERIOD_SECS,
        }
    }

    /// Asks the host to renew the stamp at `timestamp_file`, after
    /// `lines`.
    pub fn update_timestamp(timestamp_file: &str, lines: Vec<String>) -> (step: TaskStep)
        ensures
            step@ == AptTaskView::renew(timestamp_file@, views(lines@)),
    {
        TaskStep::Ask {
            lines,
            stage: Stage::Stamping,
            request: HostRequest::WriteText {
                path: String::from_str(timestamp_file),
                contents: String::new(),
            },
        }
    }

    /// Whether the update is forced.
    pub fn forced(&self) -> (forced: bool)
        ensures
            forced == self@.forced(),
    {
        match &self.update {
            Some(ConfigValue::Text(text)) => same_text(text.as_str(), "force"),
            Some(ConfigValue::Bool(force)) => *force,
            _ => false,
        }
    }

    /// The package at position `at` among those to install, if there is
    /// one.
    pub fn wanted_at(&self, at: usize) -> (package: Option<&String>)
        ensures
            match package {
                Some(package) => at < self@.wanted().len() && package@ == self@.wanted()[at as int],
                None => at >= self@.wanted().len(),
            },
    {
        match (&self.package, &self.packages) {
            (Some(package), Some(packages)) => {
                if at == 0 {
                    Some(package)
                } else if at - 1 < packages.len() {
                    Some(&packages[at - 1])
                } else {
                    None
                }
            },
            (Some(package), None) => {
                if at == 0 {
                    Some(package)
                } else {
                    None
                }
            },
            (None, Some(packages)) => {
                if at < packages.len() {
                    Some(&packages[at])
                } else {
                    None
                }
            },
            (None, None) => None,
        }
    }

    fn result() -> (result: TaskResult)
        ensures
            result@ == AptTaskView::result(),
    {
        TaskResult {
            success: true,
            changed: true,
            message: String::from_str("Apt task executed"),
            stdout: None,
            stderr: None,
        }
    }

    fn install_from(&self, at: usize, lines: Vec<String>) -> (step: TaskStep)
        ensures
            step@ == self@.install_from(at as int, views(lines@)),
    {
        match self.wanted_at(at) {
            Some(package) => match is_package_installed(package.as_str()) {
                Flow::Ask { lines: more, request } => TaskStep::Ask {
                    lines: join_lines(lines, more),
                    stage: Stage::Querying(at),
                    request,
                },
                Flow::Done { lines: more, .. } => TaskStep::Finished {
                    lines: join_lines(lines, more),
                    result: Self::result(),
                },
                Flow::Failed { lines: more, error } => TaskStep::Failed {
                    lines: join_lines(lines, more),
                    error,
                },
            },
            None => TaskStep::Finished { lines, result: Self::result() },
        }
    }

    fn install_after(&self, at: usize, lines: Vec<String>) -> (step: TaskStep)
        requires
            at < self@.wanted().len(),
        ensures
            step@ == self@.install_from(at + 1, views(lines@)),
    {
        if at == usize::MAX {
            proof {
                if self.packages is Some {
                    assert(views(self.packages->0@).len() == self.packages->0.len());
                }
                assert(self@.wanted().len() <= usize::MAX + 1);
            }
            TaskStep::Finished { lines, result: Self::result() }
        } else {
            self.install_from(at + 1, lines)
        }
    }

    fn update_with(flow: Flow<()>) -> (step: TaskStep)
        ensures
            step@ == AptTaskView::update_with(flow@),
    {
        match flow {
            Flow::Ask { lines, request } => TaskStep::Ask { lines, stage: Stage::Updating, request },
            Flow::Done { lines, .. } => Self::update_timestamp(UPDATE_STAMP_FILE, lines),
            Flow::Failed { lines, error } => TaskStep::Failed { lines, error },
        }
    }

    fn begin(&self, verbose: bool) -> (step: TaskStep)
        ensures
            step@ == self@.begin(verbose),
    {
        if self.update.is_none() {
            self.install_from(0, no_lines())
        } else if self.forced() {
            Self::update_with(apt_update(true, verbose, false))
        } else {
            TaskStep::Ask { lines: no_lines(), stage: Stage::TimingStamp, request: HostRequest::Clock }
        }
    }

    fn after_timing_stamp(reply: &HostReply) -> (step: TaskStep)
        ensures
            step@ == AptTaskView::after_timing_stamp(reply@),
    {
        match reply {
            HostReply::Now(now) => {
                if now.secs < 0 {
                    fail(String::from_str("system time is before 1970"))
                } else {
                    TaskStep::Ask {
                        lines: no_lines(),
                        stage: Stage::ReadingStamp(*now),
                        request: HostRequest::Modified(String::from_str(UPDATE_STAMP_FILE)),
                    }
                }
            },
            HostReply::Failed(reason) => fail(reason.clone()),
            _ => fail_unexpected(),
        }
    }

    fn after_reading_stamp(&self, now: Instant, reply: &HostReply) -> (step: TaskStep)
        ensures
            step@ == self@.after_reading_stamp(now, reply@),
    {
        match reply {
            HostReply::Modified(modified) => {
                if now.secs >= 0 && Self::should_run_apt_update(now.secs as u64, *modified) {
                    TaskStep::Ask {
                        lines: no_lines(),
                        stage: Stage::ReadingRecord(now),
                        request: HostRequest::ReadText(String::from_str(LAST_UPDATE_FILE)),
                    }
                } else {
                    self.install_from(
                        0,
                        one_line(
                            String::from_str("Skipping apt update: last run less than 3 hours ago."),
                        ),
                    )
                }
            },
            HostReply::Failed(reason) => fail(reason.clone()),
            _ => fail_unexpected(),
        }
    }

    fn after_reading_record(now: Instant, verbose: bool, reply: &HostReply) -> (step: TaskStep)
        ensures
            step@ == AptTaskView::after_reading_record(now, verbose, reply@),
    {
        match reply {
            HostReply::Text(record) => {
                let decision = match record {
                    Some(text) => should_update(Some(text.as_str()), &now),
                    None => should_update(None, &now),
                };
                match decision {
                    Ok(due) => Self::update_with(apt_update(false, verbose, due)),
                    Err(error) => TaskStep::Failed { lines: no_lines(), error },
                }
            },
            HostReply::Failed(reason) => fail(reason.clone()),
            _ => fail_unexpected(),
        }
    }

    fn after_updating(verbose: bool, reply: &HostReply) -> (step: TaskStep)
        ensures
            step@ == AptTaskView::after_updating(verbose, reply@),
    {
        match command_finished(&build_update_command(), verbose, reply) {
            Flow::Done { lines, .. } => TaskStep::Ask {
                lines,
                stage: Stage::TimingRecord,
                request: HostRequest::Clock,
            },
            Flow::Failed { lines, error } => TaskStep::Failed { lines, error },
            Flow::Ask { lines, .. } => TaskStep::Failed { lines, error: unexpected_reply_error() },
        }
    }

    fn after_timing_record(reply: &HostReply) -> (step: TaskStep)
        ensures
            step@ == AptTaskView::after_timing_record(reply@),
    {
        match reply {
            HostReply::Now(now) => match record_update_time(now) {
                Flow::Ask { lines, request } => TaskStep::Ask {
                    lines,
                    stage: Stage::Recording,
                    request,
                },
                Flow::Done { lines, .. } => Self::update_timestamp(UPDATE_STAMP_FILE, lines),
                Flow::Failed { lines, error } => TaskStep::Failed { lines, error },
            },
            HostReply::Failed(reason) => fail(reason.clone()),
            _ => fail_unexpected(),
        }
    }

    fn after_recording(reply: &HostReply) -> (step: TaskStep)
        ensures
            step@ == AptTaskView::after_recording(reply@),
    {
        match operation_finished(reply) {
            Flow::Done { lines, .. } => Self::update_timestamp(UPDATE_STAMP_FILE, lines),
            Flow::Failed { lines, error } => TaskStep::Failed { lines, error },
            Flow::Ask { lines, .. } => TaskStep::Failed { lines, error: unexpected_reply_error() },
        }
    }

    fn after_stamping(&self, reply: &HostReply) -> (step: TaskStep)
        ensures
            step@ == self@.after_stamping(reply@),
    {
        match operation_finished(reply) {
            Flow::Done { lines, .. } => self.install_from(0, lines),
            Flow::Failed { lines, error } => TaskStep::Failed { lines, error },
            Flow::Ask { lines, .. } => TaskStep::Failed { lines, error: unexpected_reply_error() },
        }
    }

    fn after_querying(&self, at: usize, verbose: bool, reply: &HostReply) -> (step: TaskStep)
        ensures
            step@ == self@.after_querying(at, verbose, reply@),
    {
        match self.wanted_at(at) {
            Some(package) => match package_status(reply) {
                Flow::Done { lines, value: installed } => match apt_install(
                    package.as_str(),
                    verbose,
                    installed,
                ) {
                    Flow::Ask { lines: more, request } => TaskStep::Ask {
                        lines: join_lines(lines, more),
                        stage: Stage::Installing(at),
                        request,
                    },
                    Flow::Done { lines: more, .. } => self.install_after(
                        at,
                        join_lines(lines, more),
                    ),
                    Flow::Failed { lines: more, error } => TaskStep::Failed {
                        lines: join_lines(lines, more),
                        error,
                    },
                },
                Flow::Failed { lines, error } => TaskStep::Failed { lines, error },
                Flow::Ask { lines, .. } => TaskStep::Failed {
                    lines,
                    error: unexpected_reply_error(),
                },
            },
            None => fail_unexpected(),
        }
    }

    fn after_installing(&self, at: usize, verbose: bool, reply: &HostReply) -> (step: TaskStep)
        ensures
            step@ == self@.after_installing(at, verbose, reply@),
    {
        match self.wanted_at(at) {
            Some(package) => match command_finished(
                &build_install_command(package.as_str()),
                verbose,
                reply,
            ) {
                Flow::Done { lines, .. } => self.install_after(at, lines),
                Flow::Failed { lines, error } => TaskStep::Failed { lines, error },
                Flow::Ask { lines, .. } => TaskStep::Failed {
                    lines,
                    error: unexpected_reply_error(),
                },
            },
            None => fail_unexpected(),
        }
    }
}

impl TaskExecutor for AptTask {
    open spec fn step(&self, context: TaskContextView, progress: ProgressView) -> TaskStepView {
        self@.step(context, progress)
    }

    fn execute(&self, context: &TaskContext, progress: &Progress) -> (step: TaskStep) {
        match progress {
            Progress::Start => self.begin(context.verbose),
            Progress::Resumed { stage, reply } => match stage {
                Stage::TimingStamp => Self::after_timing_stamp(reply),
                Stage::ReadingStamp(now) => self.after_reading_stamp(*now, reply),
                Stage::ReadingRecord(now) => Self::after_reading_record(
                    *now,
                    context.verbose,
                    reply,
                ),
                Stage::Updating => Self::after_updating(context.verbose, reply),
                Stage::TimingRecord => Self::after_timing_record(reply),
                Stage::Recording => Self::after_recording(reply),
                Stage::Stamping => self.after_stamping(reply),
                Stage::Querying(at) => self.after_querying(*at, context.verbose, reply),
                Stage::Installing(at) => self.after_installing(*at, context.verbose, reply),
                _ => fail_unexpected(),
            },
        }
    }

    open spec fn type_key(&self) -> Seq<char> {
        "apt"@
    }

    fn task_type(&self) -> (key: &'static str) {
        "apt"
    }

    open spec fn defect(&self) -> Option<Seq<char>> {
        None
    }

    fn validate(&self) -> (checked: Result<(), TaskError>) {
        Ok(())
    }

    fn description(&self) -> (text: &'static str)
        ensures
            text@ == "Manage APT packages"@,
    {
        "Manage APT packages"
    }

    fn requires_sudo(&self) -> (needed: bool)
        ensures
            needed,
    {
        true
    }
}

} // verus!
