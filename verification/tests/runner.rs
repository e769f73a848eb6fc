use inti::config::Config;
use inti::error::TaskError;
use inti::host::{CommandLine, CommandOutput, HostReply, HostRequest};
use inti::registry::TaskRegistry;
use inti::runner::{Directive, Outcome, Runner, TaskDeclaration};
use inti::value::ConfigValue;

fn text(value: &str) -> ConfigValue {
    ConfigValue::Text(value.to_string())
}

fn table(entries: &[(&str, ConfigValue)]) -> ConfigValue {
    let mut copied = Vec::new();
    for (name, value) in entries {
        copied.push((name.to_string(), value.duplicate()));
    }
    ConfigValue::Table(copied)
}

fn declaration(name: &str, guard: Option<&str>, entries: Vec<(&str, ConfigValue)>) -> TaskDeclaration {
    TaskDeclaration {
        name: name.to_string(),
        guard: guard.map(|g| g.to_string()),
        entries: entries.into_iter().map(|(key, config)| (key.to_string(), config)).collect(),
    }
}

fn runner(verbose: bool, declarations: Vec<TaskDeclaration>) -> Runner {
    let config = Config { parallel: false, verbose };
    Runner::new(TaskRegistry::new(), config.context(), declarations)
}

fn shell(script: &str) -> CommandLine {
    CommandLine { program: "sh".to_string(), args: vec!["-c".to_string(), script.to_string()] }
}

fn lines(items: &[&str]) -> Vec<String> {
    items.iter().map(|line| line.to_string()).collect()
}

fn exited(success: bool) -> HostReply {
    let status = if success { "exit status: 0" } else { "exit status: 1" };
    HostReply::Exited { success, status: status.to_string() }
}

fn captured(success: bool, stdout: &str, stderr: &str) -> HostReply {
    let status = if success { "exit status: 0" } else { "exit status: 2" };
    HostReply::Captured(CommandOutput {
        success,
        status: status.to_string(),
        stdout: stdout.to_string(),
        stderr: stderr.to_string(),
    })
}

fn setup_project() -> TaskDeclaration {
    declaration(
        "Setup project",
        None,
        vec![("file", table(&[("path", text("build")), ("state", text("directory"))]))],
    )
}

#[test]
fn empty_run_completes_at_once() {
    let mut run = runner(false, Vec::new());
    assert!(!run.is_over());
    assert_eq!(run.step(HostReply::Done), Directive::Complete { lines: Vec::new() });
    assert!(run.is_over());
    assert!(run.outcomes().is_empty());
}

#[test]
fn directory_declaration_creates_directory_and_reports_success() {
    let mut run = runner(false, vec![setup_project()]);
    assert_eq!(
        run.step(HostReply::Done),
        Directive::Perform {
            lines: lines(&["Executing task: Setup project"]),
            request: HostRequest::CreateDirectories("build".to_string()),
        }
    );
    assert_eq!(
        run.step(HostReply::Done),
        Directive::Perform {
            lines: lines(&["Task 'Setup project' completed successfully"]),
            request: HostRequest::Proceed,
        }
    );
    assert_eq!(run.outcomes(), &vec![Outcome::Succeeded { changed: true }]);
    assert_eq!(run.step(HostReply::Done), Directive::Complete { lines: Vec::new() });
    assert!(run.is_over());
}

#[test]
fn verbose_run_shows_the_directory_first() {
    let mut run = runner(true, vec![setup_project()]);
    assert_eq!(
        run.step(HostReply::Done),
        Directive::Perform {
            lines: lines(&["Executing task: Setup project", "Creating directory: build"]),
            request: HostRequest::CreateDirectories("build".to_string()),
        }
    );
}

#[test]
fn directory_that_cannot_be_created_aborts_the_run() {
    let mut run = runner(false, vec![setup_project(), setup_project()]);
    run.step(HostReply::Done);
    assert_eq!(
        run.step(HostReply::Failed("permission denied".to_string())),
        Directive::Abort {
            lines: Vec::new(),
            error: TaskError::Execution("permission denied".to_string()),
        }
    );
    assert!(run.is_over());
    assert!(run.outcomes().is_empty());
}

fn install_x() -> TaskDeclaration {
    declaration("Install X", Some("test -f marker"), vec![("command", text("echo hi"))])
}

#[test]
fn guard_that_fails_lets_the_command_run() {
    let mut run = runner(false, vec![install_x()]);
    assert_eq!(
        run.step(HostReply::Done),
        Directive::Perform {
            lines: lines(&["Executing task: Install X"]),
            request: HostRequest::Probe(shell("test -f marker")),
        }
    );
    assert_eq!(
        run.step(exited(false)),
        Directive::Perform { lines: Vec::new(), request: HostRequest::Capture(shell("echo hi")) }
    );
    assert_eq!(
        run.step(captured(true, "hi\n", "")),
        Directive::Perform {
            lines: lines(&["Task 'Install X' completed successfully"]),
            request: HostRequest::Proceed,
        }
    );
    assert_eq!(run.outcomes(), &vec![Outcome::Succeeded { changed: true }]);
    assert_eq!(run.step(HostReply::Done), Directive::Complete { lines: Vec::new() });
}

#[test]
fn guard_that_holds_skips_the_command() {
    let mut run = runner(false, vec![install_x()]);
    run.step(HostReply::Done);
    assert_eq!(
        run.step(exited(true)),
        Directive::Perform {
            lines: lines(&["Skipping task 'Install X' because 'unless' command succeeded."]),
            request: HostRequest::Proceed,
        }
    );
    assert_eq!(run.outcomes(), &vec![Outcome::Skipped]);
    assert_eq!(run.step(HostReply::Done), Directive::Complete { lines: Vec::new() });
}

#[test]
fn guard_that_holds_skips_even_a_malformed_declaration() {
    let broken = declaration("Broken", Some("true"), Vec::new());
    let mut run = runner(false, vec![broken, setup_project()]);
    run.step(HostReply::Done);
    run.step(exited(true));
    assert_eq!(run.outcomes(), &vec![Outcome::Skipped]);
    assert_eq!(
        run.step(HostReply::Done),
        Directive::Perform {
            lines: lines(&["Executing task: Setup project"]),
            request: HostRequest::CreateDirectories("build".to_string()),
        }
    );
}

#[test]
fn verbose_guard_shows_condition_and_status() {
    let mut run = runner(true, vec![install_x()]);
    assert_eq!(
        run.step(HostReply::Done),
        Directive::Perform {
            lines: lines(&["Executing task: Install X", "Checking 'unless' condition: test -f marker"]),
            request: HostRequest::Probe(shell("test -f marker")),
        }
    );
    assert_eq!(
        run.step(exited(true)),
        Directive::Perform {
            lines: lines(&[
                "'unless' command finished with status: exit status: 0",
                "Skipping task 'Install X' because 'unless' command succeeded.",
            ]),
            request: HostRequest::Proceed,
        }
    );
}

#[test]
fn shell_that_cannot_be_started_aborts_the_run() {
    let mut run = runner(false, vec![install_x()]);
    run.step(HostReply::Done);
    assert_eq!(
        run.step(HostReply::Failed("No such file or directory".to_string())),
        Directive::Abort {
            lines: Vec::new(),
            error: TaskError::Execution("No such file or directory".to_string()),
        }
    );
    assert!(run.is_over());
}

#[test]
fn command_with_other_status_aborts_the_run() {
    let mut run = runner(true, vec![install_x(), setup_project()]);
    run.step(HostReply::Done);
    assert_eq!(
        run.step(exited(false)),
        Directive::Perform {
            lines: lines(&[
                "'unless' command finished with status: exit status: 1",
                "Executing command: \"sh\" \"-c\" \"echo hi\"",
            ]),
            request: HostRequest::Capture(shell("echo hi")),
        }
    );
    assert_eq!(
        run.step(captured(false, "", "boom")),
        Directive::Abort {
            lines: lines(&["stderr: boom\n"]),
            error: TaskError::Execution(
                "Command failed with status exit status: 2: \"sh\" \"-c\" \"echo hi\"".to_string()
            ),
        }
    );
    assert!(run.outcomes().is_empty());
    assert_eq!(
        run.step(HostReply::Done),
        Directive::Abort {
            lines: Vec::new(),
            error: TaskError::Execution(
                "Command failed with status exit status: 2: \"sh\" \"-c\" \"echo hi\"".to_string()
            ),
        }
    );
}

#[test]
fn declaration_with_two_type_keys_aborts_before_anything_is_asked() {
    let both = declaration(
        "Both",
        None,
        vec![
            ("file", table(&[("path", text("build")), ("state", text("directory"))])),
            ("command", text("echo hi")),
        ],
    );
    let mut run = runner(false, vec![both]);
    let expected =
        "Task 'Both' must have exactly one task type key, but found 2: [\"file\", \"command\"]";
    assert_eq!(
        run.step(HostReply::Done),
        Directive::Abort {
            lines: lines(&["Executing task: Both"]),
            error: TaskError::InvalidConfiguration(expected.to_string()),
        }
    );
    assert!(run.is_over());
    assert!(run.outcomes().is_empty());
}

#[test]
fn declaration_without_type_key_aborts() {
    let none = declaration("Nothing", None, Vec::new());
    let mut run = runner(false, vec![setup_project(), none, setup_project()]);
    run.step(HostReply::Done);
    run.step(HostReply::Done);
    match run.step(HostReply::Done) {
        Directive::Abort { error: TaskError::InvalidConfiguration(detail), .. } => {
            assert_eq!(detail, "Task 'Nothing' must have exactly one task type key, but found 0: []");
        }
        other => panic!("{:?}", other),
    }
    assert_eq!(run.outcomes(), &vec![Outcome::Succeeded { changed: true }]);
}

#[test]
fn malformed_declaration_aborts_after_its_guard_failed() {
    let none = declaration("Nothing", Some("false"), Vec::new());
    let mut run = runner(false, vec![none]);
    run.step(HostReply::Done);
    match run.step(exited(false)) {
        Directive::Abort { error: TaskError::InvalidConfiguration(detail), .. } => {
            assert!(detail.contains("Nothing"));
            assert!(detail.contains("found 0"));
        }
        other => panic!("{:?}", other),
    }
}

#[test]
fn unregistered_type_key_aborts_with_not_found() {
    let docker = declaration("Container", None, vec![("docker", table(&[("image", text("x"))]))]);
    let mut run = runner(false, vec![docker]);
    assert_eq!(
        run.step(HostReply::Done),
        Directive::Abort {
            lines: lines(&["Executing task: Container"]),
            error: TaskError::NotFound("Task type 'docker' not found".to_string()),
        }
    );
    assert!(run.is_over());
}

#[test]
fn configuration_of_wrong_shape_aborts() {
    let broken = declaration("Broken", None, vec![("file", table(&[("path", text("build"))]))]);
    let mut run = runner(false, vec![broken]);
    assert_eq!(
        run.step(HostReply::Done),
        Directive::Abort {
            lines: lines(&["Executing task: Broken"]),
            error: TaskError::InvalidConfiguration("missing field `state`".to_string()),
        }
    );
}

#[test]
fn file_task_of_another_state_asks_nothing() {
    let absent = declaration(
        "Remove",
        None,
        vec![("file", table(&[("path", text("old")), ("state", text("absent"))]))],
    );
    let mut run = runner(false, vec![absent]);
    assert_eq!(
        run.step(HostReply::Done),
        Directive::Perform {
            lines: lines(&["Executing task: Remove", "Task 'Remove' completed successfully"]),
            request: HostRequest::Proceed,
        }
    );
    assert_eq!(run.step(HostReply::Done), Directive::Complete { lines: Vec::new() });
}

#[test]
fn declarations_run_in_order() {
    let first = declaration("One", None, vec![("command", text("echo 1"))]);
    let second = declaration("Two", None, vec![("command", text("echo 2"))]);
    let mut run = runner(false, vec![first, second]);
    assert_eq!(
        run.step(HostReply::Done),
        Directive::Perform {
            lines: lines(&["Executing task: One"]),
            request: HostRequest::Capture(shell("echo 1")),
        }
    );
    run.step(captured(true, "", ""));
    assert_eq!(
        run.step(HostReply::Done),
        Directive::Perform {
            lines: lines(&["Executing task: Two"]),
            request: HostRequest::Capture(shell("echo 2")),
        }
    );
    run.step(captured(true, "", ""));
    assert_eq!(run.step(HostReply::Done), Directive::Complete { lines: Vec::new() });
    assert_eq!(
        run.outcomes(),
        &vec![Outcome::Succeeded { changed: true }, Outcome::Succeeded { changed: true }]
    );
}

#[test]
fn reply_of_the_wrong_kind_aborts() {
    let mut run = runner(false, vec![install_x()]);
    run.step(HostReply::Done);
    assert_eq!(
        run.step(HostReply::Done),
        Directive::Abort {
            lines: Vec::new(),
            error: TaskError::Execution("unexpected reply from the host".to_string()),
        }
    );
}

#[test]
fn task_entry_leaves_the_declaration_as_it_is() {
    let one = setup_project();
    let (key, config) = one.task_entry().unwrap();
    assert_eq!(key, "file");
    assert_eq!(config, &table(&[("path", text("build")), ("state", text("directory"))]));
    assert_eq!(one.entries.len(), 1);
    assert!(one.task_entry().is_ok());
}

fn shown(directive: &Directive) -> String {
    let lines = match directive {
        Directive::Perform { lines, .. } => lines,
        Directive::Complete { lines } => lines,
        Directive::Abort { lines, .. } => lines,
    };
    lines.join("\n")
}

#[test]
fn test_cli_file_operations() {
    let setup = declaration(
        "Setup project",
        None,
        vec![("file", table(&[("path", text("test_dir")), ("state", text("directory"))]))],
    );
    let mut run = runner(true, vec![setup]);
    assert_eq!(
        run.step(HostReply::Done),
        Directive::Perform {
            lines: lines(&["Executing task: Setup project", "Creating directory: test_dir"]),
            request: HostRequest::CreateDirectories("test_dir".to_string()),
        }
    );
    run.step(HostReply::Done);
    assert_eq!(run.step(HostReply::Done), Directive::Complete { lines: Vec::new() });
    assert_eq!(run.outcomes(), &vec![Outcome::Succeeded { changed: true }]);
}

#[test]
fn test_cli_unless_condition() {
    let install_rust = || {
        declaration(
            "Install Rust",
            Some("./cargo --version"),
            vec![("command", text("echo 'Installing Rust...'"))],
        )
    };

    let mut run = runner(true, vec![install_rust()]);
    let mut stdout = shown(&run.step(HostReply::Done));
    stdout.push_str(&shown(&run.step(exited(true))));
    stdout.push_str(&shown(&run.step(HostReply::Done)));
    assert!(stdout.contains("Skipping task 'Install Rust'"));

    let mut run = runner(true, vec![install_rust()]);
    let mut stdout = shown(&run.step(HostReply::Done));
    let asked = run.step(exited(false));
    stdout.push_str(&shown(&asked));
    assert!(matches!(asked, Directive::Perform { request: HostRequest::Capture(_), .. }));
    stdout.push_str(&shown(&run.step(captured(true, "Installing Rust...\n", ""))));
    stdout.push_str(&shown(&run.step(HostReply::Done)));
    assert!(!stdout.contains("Skipping task 'Install Rust'"));
    assert!(stdout.contains("Task 'Install Rust' completed successfully"));
}
