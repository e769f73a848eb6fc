use inti::error::TaskError;
use inti::host::{clock_reply, CommandLine, CommandOutput, HostReply, HostRequest};
use inti::modules::apt::{
    apt_install, apt_update, is_package_installed, package_status, record_update_time,
    should_update, update_is_due, LAST_UPDATE_FILE,
};
use inti::modules::command::{
    check_command, check_finished, command_finished, render_command, run_command, shell_command,
};
use inti::modules::file::{create_directory, operation_finished};
use inti::task::{Flow, Progress, Stage, TaskContext, TaskExecutor, TaskResult, TaskStep};
use inti::tasks::packages::apt::{AptTask, UPDATE_STAMP_FILE};
use inti::tasks::system::command::CommandTask;
use inti::tasks::system::file::FileTask;
use inti::time::{describe_fault, Elapsed, Instant, TimestampFault};
use inti::value::ConfigValue;
use std::collections::HashMap;

fn context(verbose: bool) -> TaskContext {
    TaskContext {
        verbose,
        dry_run: false,
        working_directory: ".".to_string(),
        environment: HashMap::new(),
    }
}

fn text(value: &str) -> ConfigValue {
    ConfigValue::Text(value.to_string())
}

fn table(entries: Vec<(&str, ConfigValue)>) -> ConfigValue {
    ConfigValue::Table(entries.into_iter().map(|(name, value)| (name.to_string(), value)).collect())
}

fn command(program: &str, args: &[&str]) -> CommandLine {
    CommandLine {
        program: program.to_string(),
        args: args.iter().map(|arg| arg.to_string()).collect(),
    }
}

fn captured(success: bool, stdout: &str, stderr: &str) -> HostReply {
    HostReply::Captured(CommandOutput {
        success,
        status: if success { "exit status: 0".to_string() } else { "exit status: 100".to_string() },
        stdout: stdout.to_string(),
        stderr: stderr.to_string(),
    })
}

fn resumed(stage: Stage, reply: HostReply) -> Progress {
    Progress::Resumed { stage, reply }
}

fn apt_result() -> TaskResult {
    TaskResult {
        success: true,
        changed: true,
        message: "Apt task executed".to_string(),
        stdout: None,
        stderr: None,
    }
}

fn query(package: &str) -> HostRequest {
    HostRequest::Capture(command("dpkg-query", &["-W", "-f='${Status}'", package]))
}

fn install(package: &str) -> HostRequest {
    HostRequest::Capture(command("sudo", &["apt-get", "install", "-y", package]))
}

fn update() -> HostRequest {
    HostRequest::Capture(command("sudo", &["apt-get", "update"]))
}

#[test]
fn test_should_run_apt_update_no_file() {
    assert!(AptTask::should_run_apt_update(1_700_000_000, None));
}

#[test]
fn test_should_run_apt_update_recent_file() {
    let now: u64 = 1_700_000_000;
    assert!(!AptTask::should_run_apt_update(now, Some(now)));
}

#[test]
fn test_should_run_apt_update_old_file() {
    let now: u64 = 1_700_000_000;
    let old_time = now - (10800 + 60);
    assert!(AptTask::should_run_apt_update(now, Some(old_time)));
}

#[test]
fn stamp_turns_stale_after_exactly_three_hours() {
    let now: u64 = 1_700_000_000;
    assert!(!AptTask::should_run_apt_update(now, Some(now - 10799)));
    assert!(AptTask::should_run_apt_update(now, Some(now - 10800)));
    assert!(AptTask::should_run_apt_update(now, Some(now + 1)));
    assert!(AptTask::should_run_apt_update(0, Some(u64::MAX)));
}

#[test]
fn file_task_reads_path_and_state() {
    let task = FileTask::from_config(&table(vec![
        ("state", text("directory")),
        ("mode", ConfigValue::Integer(755)),
        ("path", text("build")),
    ]))
    .unwrap();
    assert_eq!(task.path(), "build");
    assert_eq!(task.state(), "directory");
}

fn invalid(detail: &str) -> TaskError {
    TaskError::InvalidConfiguration(detail.to_string())
}

#[test]
fn file_task_rejects_other_shapes() {
    let shape = invalid("a file task is configured by a table");
    assert_eq!(FileTask::from_config(&ConfigValue::Null).unwrap_err(), shape);
    assert_eq!(FileTask::from_config(&text("build")).unwrap_err(), shape);
    assert_eq!(
        FileTask::from_config(&ConfigValue::List(vec![text("build"), text("directory")]))
            .unwrap_err(),
        shape
    );
    assert_eq!(
        FileTask::from_config(&table(vec![("path", text("build"))])).unwrap_err(),
        invalid("missing field `state`")
    );
    assert_eq!(
        FileTask::from_config(&table(Vec::new())).unwrap_err(),
        invalid("missing field `path`")
    );
    assert_eq!(
        FileTask::from_config(&table(vec![("path", text("build")), ("state", ConfigValue::Null)]))
            .unwrap_err(),
        invalid("field `state` must be text")
    );
    assert_eq!(
        FileTask::from_config(&table(vec![
            ("state", ConfigValue::Bool(true)),
            ("path", ConfigValue::Integer(5)),
        ]))
        .unwrap_err(),
        invalid("field `path` must be text")
    );
}

#[test]
fn first_entry_of_a_name_is_the_one_read() {
    let task = FileTask::from_config(&table(vec![
        ("path", text("first")),
        ("path", text("second")),
        ("state", text("directory")),
    ]))
    .unwrap();
    assert_eq!(task.path(), "first");
}

#[test]
fn file_task_reports_the_directory() {
    let task =
        FileTask::from_config(&table(vec![("path", text("build")), ("state", text("directory"))]))
            .unwrap();
    assert_eq!(
        task.execute(&context(false), &resumed(Stage::CreatingDirectory, HostReply::Done)),
        TaskStep::Finished {
            lines: Vec::new(),
            result: TaskResult {
                success: true,
                changed: true,
                message: "Directory build created".to_string(),
                stdout: None,
                stderr: None,
            },
        }
    );
    assert_eq!(
        task.execute(&context(false), &resumed(Stage::RunningCommand, HostReply::Done)),
        TaskStep::Failed {
            lines: Vec::new(),
            error: TaskError::Execution("unexpected reply from the host".to_string()),
        }
    );
}

#[test]
fn command_task_reads_a_text_or_a_field() {
    assert_eq!(CommandTask::from_config(&text("echo hi")).unwrap().command(), "echo hi");
    assert_eq!(
        CommandTask::from_config(&table(vec![("command", text("echo ho"))])).unwrap().command(),
        "echo ho"
    );
    assert_eq!(
        CommandTask::from_config(&table(vec![("cmd", text("echo ho"))])).unwrap_err(),
        invalid("missing field `command`")
    );
    assert_eq!(
        CommandTask::from_config(&table(vec![("command", ConfigValue::Unsupported)])).unwrap_err(),
        invalid("field `command` must be text")
    );
    assert_eq!(
        CommandTask::from_config(&ConfigValue::Integer(1)).unwrap_err(),
        invalid("a command task is configured by its command as text, or by a table")
    );
}

#[test]
fn command_task_runs_through_the_shell() {
    let task = CommandTask::from_config(&text("echo hi")).unwrap();
    assert_eq!(
        task.execute(&context(true), &Progress::Start),
        TaskStep::Ask {
            lines: vec!["Executing command: \"sh\" \"-c\" \"echo hi\"".to_string()],
            stage: Stage::RunningCommand,
            request: HostRequest::Capture(command("sh", &["-c", "echo hi"])),
        }
    );
    assert_eq!(
        task.execute(&context(true), &resumed(Stage::RunningCommand, captured(true, "hi\n", ""))),
        TaskStep::Finished {
            lines: vec!["stdout: hi\n\n".to_string()],
            result: TaskResult {
                success: true,
                changed: true,
                message: "Command 'echo hi' executed".to_string(),
                stdout: None,
                stderr: None,
            },
        }
    );
    assert_eq!(
        task.execute(
            &context(false),
            &resumed(Stage::RunningCommand, HostReply::Failed("no shell".to_string()))
        ),
        TaskStep::Failed { lines: Vec::new(), error: TaskError::Execution("no shell".to_string()) }
    );
}

#[test]
fn run_command_asks_for_the_command() {
    assert_eq!(
        run_command(command("ls", &[]), false),
        Flow::Ask { lines: Vec::new(), request: HostRequest::Capture(command("ls", &[])) }
    );
    assert_eq!(render_command(&command("ls", &[])), "\"ls\"");
    assert_eq!(render_command(&command("ls", &["-l", "a b"])), "\"ls\" \"-l\" \"a b\"");
    assert_eq!(shell_command("true"), command("sh", &["-c", "true"]));
}

#[test]
fn command_finished_judges_by_the_status() {
    let ls = command("ls", &["x"]);
    assert_eq!(
        command_finished(&ls, false, &captured(true, "out", "err")),
        Flow::Done { lines: Vec::new(), value: () }
    );
    assert_eq!(
        command_finished(&ls, true, &captured(true, "out", "err")),
        Flow::Done {
            lines: vec!["stdout: out\n".to_string(), "stderr: err\n".to_string()],
            value: (),
        }
    );
    assert_eq!(
        command_finished(&ls, false, &captured(false, "", "")),
        Flow::Failed {
            lines: Vec::new(),
            error: TaskError::Execution(
                "Command failed with status exit status: 100: \"ls\" \"x\"".to_string()
            ),
        }
    );
    assert_eq!(
        command_finished(&ls, true, &HostReply::Text(None)),
        Flow::Failed {
            lines: Vec::new(),
            error: TaskError::Execution("unexpected reply from the host".to_string()),
        }
    );
}

#[test]
fn check_command_probes_through_the_shell() {
    assert_eq!(
        check_command("test -f x", true),
        Flow::Ask {
            lines: vec!["Checking 'unless' condition: test -f x".to_string()],
            request: HostRequest::Probe(command("sh", &["-c", "test -f x"])),
        }
    );
    assert_eq!(
        check_finished(false, &HostReply::Exited { success: false, status: "1".to_string() }),
        Flow::Done { lines: Vec::new(), value: false }
    );
    assert_eq!(
        check_finished(false, &HostReply::Exited { success: true, status: "0".to_string() }),
        Flow::Done { lines: Vec::new(), value: true }
    );
    assert_eq!(
        check_finished(true, &HostReply::Failed("gone".to_string())),
        Flow::Failed { lines: Vec::new(), error: TaskError::Execution("gone".to_string()) }
    );
}

#[test]
fn create_directory_asks_for_the_path() {
    assert_eq!(
        create_directory("a/b", false),
        Flow::Ask { lines: Vec::new(), request: HostRequest::CreateDirectories("a/b".to_string()) }
    );
    assert_eq!(operation_finished(&HostReply::Done), Flow::Done { lines: Vec::new(), value: () });
    assert_eq!(
        operation_finished(&HostReply::Failed("full".to_string())),
        Flow::Failed { lines: Vec::new(), error: TaskError::Execution("full".to_string()) }
    );
    assert_eq!(
        operation_finished(&HostReply::Modified(None)),
        Flow::Failed {
            lines: Vec::new(),
            error: TaskError::Execution("unexpected reply from the host".to_string()),
        }
    );
}

#[test]
fn package_status_reads_the_words() {
    assert_eq!(
        is_package_installed("curl"),
        Flow::Ask { lines: Vec::new(), request: query("curl") }
    );
    assert_eq!(
        package_status(&captured(true, "'install ok installed'", "")),
        Flow::Done { lines: Vec::new(), value: true }
    );
    assert_eq!(
        package_status(&captured(true, "'deinstall ok config-files'", "")),
        Flow::Done { lines: Vec::new(), value: false }
    );
    assert_eq!(
        package_status(&captured(false, "", "dpkg-query: no packages found matching curl")),
        Flow::Done { lines: Vec::new(), value: false }
    );
    assert_eq!(
        package_status(&HostReply::Failed("no dpkg-query".to_string())),
        Flow::Failed { lines: Vec::new(), error: TaskError::Execution("no dpkg-query".to_string()) }
    );
}

#[test]
fn apt_install_installs_only_what_is_missing() {
    assert_eq!(
        apt_install("curl", false, false),
        Flow::Ask { lines: vec!["Installing package: curl".to_string()], request: install("curl") }
    );
    assert_eq!(
        apt_install("curl", true, false),
        Flow::Ask {
            lines: vec![
                "Installing package: curl".to_string(),
                "Executing command: \"sudo\" \"apt-get\" \"install\" \"-y\" \"curl\"".to_string(),
            ],
            request: install("curl"),
        }
    );
    assert_eq!(
        apt_install("curl", false, true),
        Flow::Done { lines: vec!["Package curl is already installed.".to_string()], value: () }
    );
}

#[test]
fn apt_update_runs_when_forced_or_due() {
    let running = Flow::Ask { lines: vec!["Running apt-get update...".to_string()], request: update() };
    assert_eq!(apt_update(true, false, false), running);
    assert_eq!(apt_update(false, false, true), running);
    assert_eq!(apt_update(true, false, true), running);
    assert_eq!(
        apt_update(false, false, false),
        Flow::Done {
            lines: vec!["Skipping apt-get update as it was run recently.".to_string()],
            value: (),
        }
    );
}

#[test]
fn update_is_due_after_more_than_a_day() {
    assert!(!update_is_due(&Elapsed { secs: 0, nanos: 0 }));
    assert!(!update_is_due(&Elapsed { secs: 86_399, nanos: 999_999_999 }));
    assert!(!update_is_due(&Elapsed { secs: 86_400, nanos: 0 }));
    assert!(update_is_due(&Elapsed { secs: 86_400, nanos: 1 }));
    assert!(update_is_due(&Elapsed { secs: 86_401, nanos: 0 }));
    assert!(!update_is_due(&Elapsed { secs: -86_401, nanos: -5 }));
}

#[test]
fn should_update_without_record() {
    assert_eq!(should_update(None, &Instant { secs: 1_700_000_000, nanos: 0 }), Ok(true));
}

#[test]
fn should_update_reads_the_record() {
    let record = "2023-11-14T22:13:20+00:00";
    let then: i64 = 1_700_000_000;
    assert_eq!(should_update(Some(record), &Instant { secs: then, nanos: 0 }), Ok(false));
    assert_eq!(should_update(Some(record), &Instant { secs: then + 86_400, nanos: 0 }), Ok(false));
    assert_eq!(should_update(Some(record), &Instant { secs: then + 86_400, nanos: 1 }), Ok(true));
    assert_eq!(should_update(Some(record), &Instant { secs: then + 90_000, nanos: 0 }), Ok(true));
    assert_eq!(should_update(Some(record), &Instant { secs: then - 90_000, nanos: 0 }), Ok(false));
    assert_eq!(
        should_update(Some("2023-11-15 00:13:20.5+02:00"), &Instant { secs: then + 86_400, nanos: 500_000_001 }),
        Ok(true)
    );
    assert_eq!(
        should_update(Some("2023-11-15 00:13:20.5+02:00"), &Instant { secs: then + 86_400, nanos: 500_000_000 }),
        Ok(false)
    );
}

#[test]
fn should_update_rejects_what_is_no_timestamp() {
    let now = Instant { secs: 1_700_000_000, nanos: 0 };
    assert_eq!(
        should_update(Some("yesterday"), &now),
        Err(TaskError::Execution("input contains invalid characters".to_string()))
    );
    assert_eq!(
        should_update(Some(""), &now),
        Err(TaskError::Execution("premature end of input".to_string()))
    );
    assert_eq!(
        should_update(Some("2023-11-14T22:13:20+00:00 or so"), &now),
        Err(TaskError::Execution("trailing input".to_string()))
    );
    assert_eq!(
        should_update(Some("2023-13-14T22:13:20+00:00"), &now),
        Err(TaskError::Execution("input is out of range".to_string()))
    );
    assert_eq!(
        should_update(Some("2023-11-14T22:13:20+00:00"), &Instant { secs: i64::MAX, nanos: 0 }),
        Err(TaskError::Execution("time is out of range".to_string()))
    );
}

#[test]
fn record_update_time_writes_the_timestamp() {
    assert_eq!(LAST_UPDATE_FILE, "/tmp/inti-last-apt-update");
    assert_eq!(
        record_update_time(&Instant { secs: 1_700_000_000, nanos: 0 }),
        Flow::Ask {
            lines: Vec::new(),
            request: HostRequest::WriteText {
                path: "/tmp/inti-last-apt-update".to_string(),
                contents: "2023-11-14T22:13:20+00:00".to_string(),
            },
        }
    );
    assert_eq!(
        record_update_time(&Instant { secs: 1_700_000_000, nanos: 250_000_000 }),
        Flow::Ask {
            lines: Vec::new(),
            request: HostRequest::WriteText {
                path: "/tmp/inti-last-apt-update".to_string(),
                contents: "2023-11-14T22:13:20.250+00:00".to_string(),
            },
        }
    );
    assert_eq!(
        record_update_time(&Instant { secs: i64::MIN, nanos: 0 }),
        Flow::Failed {
            lines: Vec::new(),
            error: TaskError::Execution("time is out of range".to_string()),
        }
    );
}

#[test]
fn written_record_is_read_back() {
    let now = Instant { secs: 1_700_000_000, nanos: 123_456_789 };
    let written = match record_update_time(&now) {
        Flow::Ask { request: HostRequest::WriteText { contents, .. }, .. } => contents,
        other => panic!("{:?}", other),
    };
    assert_eq!(should_update(Some(&written), &now), Ok(false));
    let later = Instant { secs: now.secs + 86_400, nanos: now.nanos + 1 };
    assert_eq!(should_update(Some(&written), &later), Ok(true));
}

fn apt(entries: Vec<(&str, ConfigValue)>) -> AptTask {
    AptTask::from_config(&table(entries)).unwrap()
}

#[test]
fn apt_task_reads_its_fields() {
    let task = apt(vec![
        ("update", text("force")),
        ("package", text("curl")),
        ("packages", ConfigValue::List(vec![text("git"), text("vim")])),
    ]);
    assert!(task.forced());
    assert_eq!(task.wanted_at(0).unwrap(), "curl");
    assert_eq!(task.wanted_at(1).unwrap(), "git");
    assert_eq!(task.wanted_at(2).unwrap(), "vim");
    assert_eq!(task.wanted_at(3), None);
    assert!(apt(vec![("update", ConfigValue::Bool(true))]).forced());
    assert!(!apt(vec![("update", ConfigValue::Bool(false))]).forced());
    assert!(!apt(vec![("update", text("yes"))]).forced());
    assert!(!apt(vec![("update", ConfigValue::Integer(1))]).forced());
    assert!(!apt(vec![("update", ConfigValue::Null)]).forced());
    assert!(!apt(Vec::new()).forced());
    assert_eq!(apt(vec![("packages", ConfigValue::List(vec![text("git")]))]).wanted_at(0).unwrap(), "git");
    assert_eq!(apt(vec![("package", ConfigValue::Null)]).wanted_at(0), None);
}

#[test]
fn apt_task_rejects_other_shapes() {
    let shape = invalid("an apt task is configured by a table");
    assert_eq!(AptTask::from_config(&ConfigValue::Null).unwrap_err(), shape);
    assert_eq!(AptTask::from_config(&text("curl")).unwrap_err(), shape);
    assert_eq!(
        AptTask::from_config(&table(vec![("package", ConfigValue::Integer(5))])).unwrap_err(),
        invalid("field `package` must be text")
    );
    assert_eq!(
        AptTask::from_config(&table(vec![("packages", text("curl"))])).unwrap_err(),
        invalid("field `packages` must be a list of texts")
    );
    assert_eq!(
        AptTask::from_config(&table(vec![(
            "packages",
            ConfigValue::List(vec![text("git"), ConfigValue::Bool(true)])
        )]))
        .unwrap_err(),
        invalid("field `packages` must be a list of texts")
    );
    assert_eq!(
        AptTask::from_config(&table(vec![
            ("packages", ConfigValue::Integer(1)),
            ("package", ConfigValue::Integer(2)),
        ]))
        .unwrap_err(),
        invalid("field `package` must be text")
    );
}

#[test]
fn test_update_timestamp() {
    assert_eq!(
        AptTask::update_timestamp("/tmp/stamp", vec!["done".to_string()]),
        TaskStep::Ask {
            lines: vec!["done".to_string()],
            stage: Stage::Stamping,
            request: HostRequest::WriteText {
                path: "/tmp/stamp".to_string(),
                contents: String::new(),
            },
        }
    );
}

#[test]
fn apt_task_without_anything_finishes_at_once() {
    assert_eq!(
        apt(Vec::new()).execute(&context(false), &Progress::Start),
        TaskStep::Finished { lines: Vec::new(), result: apt_result() }
    );
}

#[test]
fn apt_task_installs_what_is_missing_in_order() {
    let task = apt(vec![
        ("packages", ConfigValue::List(vec![text("git"), text("vim")])),
        ("package", text("curl")),
    ]);
    let ctx = context(false);
    assert_eq!(
        task.execute(&ctx, &Progress::Start),
        TaskStep::Ask { lines: Vec::new(), stage: Stage::Querying(0), request: query("curl") }
    );
    assert_eq!(
        task.execute(&ctx, &resumed(Stage::Querying(0), captured(true, "install ok installed", ""))),
        TaskStep::Ask {
            lines: vec!["Package curl is already installed.".to_string()],
            stage: Stage::Querying(1),
            request: query("git"),
        }
    );
    assert_eq!(
        task.execute(&ctx, &resumed(Stage::Querying(1), captured(false, "", ""))),
        TaskStep::Ask {
            lines: vec!["Installing package: git".to_string()],
            stage: Stage::Installing(1),
            request: install("git"),
        }
    );
    assert_eq!(
        task.execute(&ctx, &resumed(Stage::Installing(1), captured(true, "", ""))),
        TaskStep::Ask { lines: Vec::new(), stage: Stage::Querying(2), request: query("vim") }
    );
    assert_eq!(
        task.execute(&ctx, &resumed(Stage::Querying(2), captured(true, "install ok installed", ""))),
        TaskStep::Finished {
            lines: vec!["Package vim is already installed.".to_string()],
            result: apt_result(),
        }
    );
    assert_eq!(
        task.execute(&ctx, &resumed(Stage::Installing(1), captured(false, "", ""))),
        TaskStep::Failed {
            lines: Vec::new(),
            error: TaskError::Execution(
                "Command failed with status exit status: 100: \"sudo\" \"apt-get\" \"install\" \"-y\" \"git\""
                    .to_string()
            ),
        }
    );
    assert_eq!(
        task.execute(&ctx, &resumed(Stage::Querying(3), captured(true, "", ""))),
        TaskStep::Failed {
            lines: Vec::new(),
            error: TaskError::Execution("unexpected reply from the host".to_string()),
        }
    );
}

#[test]
fn forced_update_runs_at_once() {
    let task = apt(vec![("update", text("force"))]);
    let ctx = context(false);
    assert_eq!(
        task.execute(&ctx, &Progress::Start),
        TaskStep::Ask {
            lines: vec!["Running apt-get update...".to_string()],
            stage: Stage::Updating,
            request: update(),
        }
    );
    assert_eq!(
        task.execute(&ctx, &resumed(Stage::Updating, captured(true, "", ""))),
        TaskStep::Ask { lines: Vec::new(), stage: Stage::TimingRecord, request: HostRequest::Clock }
    );
    assert_eq!(
        task.execute(
            &ctx,
            &resumed(Stage::TimingRecord, HostReply::Now(Instant { secs: 1_700_000_000, nanos: 0 }))
        ),
        TaskStep::Ask {
            lines: Vec::new(),
            stage: Stage::Recording,
            request: HostRequest::WriteText {
                path: "/tmp/inti-last-apt-update".to_string(),
                contents: "2023-11-14T22:13:20+00:00".to_string(),
            },
        }
    );
    assert_eq!(
        task.execute(&ctx, &resumed(Stage::Recording, HostReply::Done)),
        TaskStep::Ask {
            lines: Vec::new(),
            stage: Stage::Stamping,
            request: HostRequest::WriteText {
                path: UPDATE_STAMP_FILE.to_string(),
                contents: String::new(),
            },
        }
    );
    assert_eq!(UPDATE_STAMP_FILE, "/tmp/inti-apt-update-last-ran");
    assert_eq!(
        task.execute(&ctx, &resumed(Stage::Stamping, HostReply::Done)),
        TaskStep::Finished { lines: Vec::new(), result: apt_result() }
    );
    assert_eq!(
        task.execute(&ctx, &resumed(Stage::Updating, captured(false, "", ""))),
        TaskStep::Failed {
            lines: Vec::new(),
            error: TaskError::Execution(
                "Command failed with status exit status: 100: \"sudo\" \"apt-get\" \"update\"".to_string()
            ),
        }
    );
}

#[test]
fn plain_update_depends_on_stamp_and_record() {
    let task = apt(vec![("update", ConfigValue::Bool(false)), ("package", text("curl"))]);
    let ctx = context(false);
    let now = Instant { secs: 1_700_000_000, nanos: 0 };
    assert_eq!(
        task.execute(&ctx, &Progress::Start),
        TaskStep::Ask { lines: Vec::new(), stage: Stage::TimingStamp, request: HostRequest::Clock }
    );
    assert_eq!(
        task.execute(&ctx, &resumed(Stage::TimingStamp, HostReply::Now(now))),
        TaskStep::Ask {
            lines: Vec::new(),
            stage: Stage::ReadingStamp(now),
            request: HostRequest::Modified("/tmp/inti-apt-update-last-ran".to_string()),
        }
    );
    assert_eq!(
        task.execute(
            &ctx,
            &resumed(Stage::ReadingStamp(now), HostReply::Modified(Some(1_700_000_000 - 60)))
        ),
        TaskStep::Ask {
            lines: vec!["Skipping apt update: last run less than 3 hours ago.".to_string()],
            stage: Stage::Querying(0),
            request: query("curl"),
        }
    );
    let read_record = TaskStep::Ask {
        lines: Vec::new(),
        stage: Stage::ReadingRecord(now),
        request: HostRequest::ReadText("/tmp/inti-last-apt-update".to_string()),
    };
    assert_eq!(
        task.execute(&ctx, &resumed(Stage::ReadingStamp(now), HostReply::Modified(None))),
        read_record
    );
    assert_eq!(
        task.execute(
            &ctx,
            &resumed(Stage::ReadingStamp(now), HostReply::Modified(Some(1_700_000_000 - 10_800)))
        ),
        read_record
    );
    assert_eq!(
        task.execute(&ctx, &resumed(Stage::ReadingRecord(now), HostReply::Text(None))),
        TaskStep::Ask {
            lines: vec!["Running apt-get update...".to_string()],
            stage: Stage::Updating,
            request: update(),
        }
    );
    assert_eq!(
        task.execute(
            &ctx,
            &resumed(
                Stage::ReadingRecord(now),
                HostReply::Text(Some("2023-11-14T20:00:00+00:00".to_string()))
            )
        ),
        TaskStep::Ask {
            lines: vec!["Skipping apt-get update as it was run recently.".to_string()],
            stage: Stage::Stamping,
            request: HostRequest::WriteText {
                path: "/tmp/inti-apt-update-last-ran".to_string(),
                contents: String::new(),
            },
        }
    );
    assert_eq!(
        task.execute(
            &ctx,
            &resumed(
                Stage::ReadingRecord(now),
                HostReply::Text(Some("2023-11-13T20:00:00+00:00".to_string()))
            )
        ),
        TaskStep::Ask {
            lines: vec!["Running apt-get update...".to_string()],
            stage: Stage::Updating,
            request: update(),
        }
    );
    assert_eq!(
        task.execute(
            &ctx,
            &resumed(Stage::ReadingRecord(now), HostReply::Text(Some("garbage".to_string())))
        ),
        TaskStep::Failed {
            lines: Vec::new(),
            error: TaskError::Execution("input contains invalid characters".to_string()),
        }
    );
    assert_eq!(
        task.execute(&ctx, &resumed(Stage::Stamping, HostReply::Done)),
        TaskStep::Ask { lines: Vec::new(), stage: Stage::Querying(0), request: query("curl") }
    );
    assert_eq!(
        task.execute(
            &ctx,
            &resumed(Stage::TimingStamp, HostReply::Now(Instant { secs: -1, nanos: 0 }))
        ),
        TaskStep::Failed {
            lines: Vec::new(),
            error: TaskError::Execution("system time is before 1970".to_string()),
        }
    );
}

#[test]
fn clock_reply_tells_a_time_of_today() {
    let first = match clock_reply() {
        HostReply::Now(now) => now,
        other => panic!("{:?}", other),
    };
    assert!(first.secs > 1_700_000_000);
    assert!(first.nanos < 1_000_000_000);
    let written = match record_update_time(&first) {
        Flow::Ask { request: HostRequest::WriteText { contents, .. }, .. } => contents,
        other => panic!("{:?}", other),
    };
    assert_eq!(should_update(Some(&written), &first), Ok(false));
}

#[test]
fn each_fault_has_its_words() {
    assert_eq!(describe_fault(TimestampFault::OutOfRange), "input is out of range");
    assert_eq!(describe_fault(TimestampFault::Impossible), "no possible date and time matching input");
    assert_eq!(
        describe_fault(TimestampFault::NotEnough),
        "input is not enough for unique date and time"
    );
    assert_eq!(describe_fault(TimestampFault::Invalid), "input contains invalid characters");
    assert_eq!(describe_fault(TimestampFault::TooShort), "premature end of input");
    assert_eq!(describe_fault(TimestampFault::TooLong), "trailing input");
    assert_eq!(describe_fault(TimestampFault::BadFormat), "bad or unsupported format string");
    assert_eq!(describe_fault(TimestampFault::Other), "input is no timestamp");
}
