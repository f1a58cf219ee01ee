//! Executions from the command line to the result, with what the processes did given as values.

use rtk::capture::{CaptureEvent, CapturePhase, CaptureRun, CapturedStream, OutputBuffer};
use rtk::execute::{
    execute, execute_on, execute_with_options, Execution, ExecutionResult, Stage,
};
use rtk::failure::EmbeddedError;
use rtk::platform::Platform;
use rtk::process::{
    CancellationToken, Interruption, IoFailure, ProcessError, ProcessOutput,
};
use rtk::route::{CargoCommand, FilterRoute, GitCommand};
use rtk::runner::{run_filtered_capture, CapturedRun, RunOptions, StreamResult, UsageRecord};
use rtk::{
    BeforeStartError, ExecuteError, ExecuteOptions, ExecutionRoute, MayHaveStartedError,
    MayHaveStartedKind,
};
use std::path::PathBuf;

fn in_directory() -> ExecuteOptions {
    ExecuteOptions::default().with_cwd(PathBuf::from("work"))
}

fn stream(bytes: &str) -> CapturedStream {
    CapturedStream { bytes: bytes.as_bytes().to_vec(), truncated: false }
}

/// Runs the shell stage of an execution to its end, as a child that writes `stdout` and exits
/// with `code`.
fn run_shell(execution: Execution, stdout: &str, code: i32) -> ExecutionResult {
    let execution = match execution.stage() {
        Stage::Directory => execution.directory_resolved(Ok(PathBuf::from("here"))),
        _ => execution,
    };
    assert!(matches!(execution.stage(), Stage::Shell));
    let run = CaptureRun::new()
        .advance(CaptureEvent::Control(execution.control().interruption()))
        .advance(CaptureEvent::Spawned(Ok(())))
        .advance(CaptureEvent::Pipes { has_stdout: true, has_stderr: true })
        .advance(CaptureEvent::Status(Ok(Some(code))))
        .advance(CaptureEvent::Collected { stdout: Ok(stream(stdout)), stderr: Ok(stream("")) });
    match run.phase {
        CapturePhase::Done(outcome) => execution
            .shell_finished(outcome)
            .0
            .into_outcome()
            .expect("finished")
            .expect("result"),
        _ => panic!("the capture is not finished"),
    }
}

/// A run of `wc -l` that gave `stdout` and its filtered form.
fn counted(stdout: &str, filtered: &str) -> CapturedRun {
    CapturedRun {
        stdout: filtered.to_string(),
        stderr: String::new(),
        exit_code: 0,
        filtered: stdout != filtered,
        stdout_truncated: false,
        stderr_truncated: false,
    }
}

/// A run of `wc -l` on a file that is not there.
fn not_counted() -> CapturedRun {
    CapturedRun {
        stdout: String::new(),
        stderr: "wc: missing.txt: No such file or directory\n".to_string(),
        exit_code: 1,
        filtered: false,
        stdout_truncated: false,
        stderr_truncated: false,
    }
}

/// What the execution wants to run now: its filter, program and arguments.
fn wanted(execution: &Execution) -> (FilterRoute, String, Vec<String>) {
    match execution.stage() {
        Stage::Direct(run) => {
            let command = run.command();
            (command.route, command.tool.to_string(), command.args.to_vec())
        }
        _ => panic!("no command is to run"),
    }
}

fn finished(execution: Execution) -> Result<ExecutionResult, ExecuteError> {
    execution.into_outcome().expect("finished")
}

#[test]
fn filters_plain_wc_command_without_printing() {
    let execution = execute_with_options("wc -l lines.txt", &in_directory());
    let (route, tool, args) = wanted(&execution);
    assert_eq!(route, FilterRoute::Wc);
    assert_eq!(tool, "wc");
    assert_eq!(args, vec!["-l", "lines.txt"]);

    let result =
        finished(execution.command_finished(Ok(counted("2 lines.txt\n", "2")))).expect("execute wc");

    assert_eq!(result.stdout.trim(), "2");
    assert!(result.stderr.is_empty());
    assert_eq!(result.exit_code, 0);
    assert_eq!(result.route, ExecutionRoute::Filtered { tool: "wc" });
    assert!(result.success());
    assert!(result.filtered());
}

#[test]
fn failed_filtered_command_returns_raw_failure_without_exiting() {
    let execution = execute_with_options("wc -l missing.txt", &in_directory());
    let raw = StreamResult {
        raw: "wc: missing.txt: No such file or directory\n".to_string(),
        raw_stdout: String::new(),
        raw_stderr: "wc: missing.txt: No such file or directory\n".to_string(),
        filtered: String::new(),
        exit_code: 1,
        stdout_truncated: false,
        stderr_truncated: false,
    };
    let opts = RunOptions::stdout_only().early_exit_on_failure();
    let (captured, record) = run_filtered_capture(
        raw,
        "wc",
        "-l missing.txt",
        |_: &str| "unused".to_string(),
        &opts,
        false,
        None,
    );
    assert!(record.is_none());

    let result = finished(execution.command_finished(Ok(captured))).expect("execute failing wc");

    assert_ne!(result.exit_code, 0);
    assert!(result.stderr.contains("missing.txt"));
    assert_eq!(
        result.route,
        ExecutionRoute::DirectPassthrough { tool: "wc" }
    );
    assert!(!result.filtered());
}

#[test]
fn complex_shell_command_falls_back_unchanged() {
    let execution = execute("printf 'alpha\\nbeta\\n' | wc -l").directory_resolved(Ok(PathBuf::from("here")));
    assert_eq!(execution.command(), "printf 'alpha\\nbeta\\n' | wc -l");
    let result = run_shell(execution, "2\n", 0);

    assert_eq!(result.stdout.trim(), "2");
    assert!(result.stderr.is_empty());
    assert_eq!(result.exit_code, 0);
    assert_eq!(result.route, ExecutionRoute::ShellPassthrough);
}

#[test]
fn safe_chains_preserve_and_or_sequence_semantics() {
    let and_chain = execute_with_options("wc -l one.txt && wc -l two.txt", &in_directory());
    assert_eq!(wanted(&and_chain).2, vec!["-l", "one.txt"]);
    let and_chain = and_chain.command_finished(Ok(counted("1 one.txt", "1")));
    assert_eq!(wanted(&and_chain).2, vec!["-l", "two.txt"]);
    let and_result =
        finished(and_chain.command_finished(Ok(counted("2 two.txt", "2")))).expect("execute and chain");
    assert_eq!(and_result.stdout, "1\n2");
    assert_eq!(and_result.exit_code, 0);
    assert_eq!(and_result.route, ExecutionRoute::Filtered { tool: "chain" });

    let or_chain = execute_with_options("wc -l missing.txt || wc -l two.txt", &in_directory());
    let or_chain = or_chain.command_finished(Ok(not_counted()));
    assert_eq!(wanted(&or_chain).2, vec!["-l", "two.txt"]);
    let or_result =
        finished(or_chain.command_finished(Ok(counted("2 two.txt", "2")))).expect("execute or chain");
    assert_eq!(or_result.stdout, "2");
    assert_eq!(or_result.exit_code, 0);
    assert!(or_result.stderr.contains("missing.txt"));
    assert_eq!(
        or_result.route,
        ExecutionRoute::DirectPassthrough { tool: "chain" }
    );

    let sequence = execute_with_options("wc -l one.txt;wc -l two.txt", &in_directory());
    let sequence = sequence.command_finished(Ok(counted("1 one.txt", "1")));
    let sequence_result = finished(sequence.command_finished(Ok(counted("2 two.txt", "2"))))
        .expect("execute sequence chain");
    assert_eq!(sequence_result.stdout, "1\n2");
    assert_eq!(sequence_result.exit_code, 0);
}

#[test]
fn skipped_commands_of_a_chain_do_not_run() {
    // A failure skips what `&&` joins and goes on behind `||`.
    let chain = execute_with_options("wc -l a && wc -l b || wc -l c ; wc -l d", &in_directory());
    assert_eq!(wanted(&chain).2, vec!["-l", "a"]);
    let chain = chain.command_finished(Ok(not_counted()));
    assert_eq!(wanted(&chain).2, vec!["-l", "c"]);
    let chain = chain.command_finished(Ok(counted("3 c", "3")));
    assert_eq!(wanted(&chain).2, vec!["-l", "d"]);
    let result = finished(chain.command_finished(Ok(not_counted()))).expect("result");
    assert_eq!(result.stdout, "3");
    assert_eq!(result.exit_code, 1);

    // A success skips what `||` joins.
    let chain = execute_with_options("wc -l a || wc -l b", &in_directory());
    let result = finished(chain.command_finished(Ok(counted("1 a", "1")))).expect("result");
    assert_eq!(result.stdout, "1");
    assert_eq!(result.route, ExecutionRoute::Filtered { tool: "chain" });
}

#[test]
fn unsupported_chain_is_preflighted_and_executed_once_by_shell() {
    let execution =
        execute_with_options("wc -l one.txt && printf fallback > marker.txt", &in_directory());
    assert!(matches!(execution.stage(), Stage::Shell));
    assert_eq!(execution.command(), "wc -l one.txt && printf fallback > marker.txt");

    let result = run_shell(execution, "1 one.txt\n", 0);

    assert_eq!(result.route, ExecutionRoute::ShellPassthrough);
    assert!(result.stdout.contains("one.txt"));

    // One command without a filter sends the complete chain to the shell.
    let mixed = execute_with_options("wc -l one.txt && printf fallback", &in_directory());
    assert!(matches!(mixed.stage(), Stage::Shell));
}

#[test]
fn unsupported_command_falls_back_to_shell() {
    let result = run_shell(execute("printf fallback"), "fallback", 0);

    assert_eq!(result.stdout, "fallback");
    assert_eq!(result.route, ExecutionRoute::ShellPassthrough);
}

#[test]
fn filters_high_value_git_routes() {
    let expected = [
        GitCommand::Status,
        GitCommand::Diff,
        GitCommand::Log,
        GitCommand::Show,
    ];
    let arguments: [&[&str]; 4] = [&[], &[], &["-1"], &["HEAD"]];
    for (index, command) in ["git status", "git diff", "git log -1", "git show HEAD"]
        .iter()
        .enumerate()
    {
        let execution = execute_with_options(command, &in_directory());
        let (route, tool, args) = wanted(&execution);
        assert_eq!(route, FilterRoute::Git(expected[index]));
        assert_eq!(tool, "git");
        assert_eq!(args, arguments[index]);
        let result = finished(execution.command_finished(Ok(counted("long", "short"))))
            .expect("execute git route");
        assert_eq!(result.exit_code, 0, "{command}: {}", result.stderr);
        assert_eq!(
            result.route,
            ExecutionRoute::Filtered { tool: "git" },
            "{command}"
        );
    }
}

#[test]
fn filters_cargo_build_check_and_test_routes() {
    let expected = [CargoCommand::Build, CargoCommand::Check, CargoCommand::Test];
    for (index, command) in ["cargo build", "cargo check", "cargo test"].iter().enumerate() {
        let execution = execute_with_options(command, &in_directory());
        assert_eq!(wanted(&execution).0, FilterRoute::Cargo(expected[index]));
        let result = finished(execution.command_finished(Ok(counted("long", "short"))))
            .expect("execute cargo route");
        assert_eq!(result.exit_code, 0, "{command}: {}", result.stderr);
        assert_eq!(
            result.route,
            ExecutionRoute::Filtered { tool: "cargo" },
            "{command}"
        );
    }
}

#[test]
fn filters_common_test_runner_route() {
    let execution = execute("/tmp/work/pytest").directory_resolved(Ok(PathBuf::from("here")));
    let (route, tool, args) = wanted(&execution);
    assert_eq!(route, FilterRoute::Test);
    assert_eq!(tool, "/tmp/work/pytest");
    assert!(args.is_empty());

    let result = finished(execution.command_finished(Ok(counted(
        "================ 2 passed in 0.01s ================\n",
        "2 passed",
    ))))
    .expect("execute test runner");

    assert_eq!(result.exit_code, 0);
    assert_eq!(result.route, ExecutionRoute::Filtered { tool: "test" });
}

#[test]
fn capture_discards_output_beyond_configured_limit() {
    let options = ExecuteOptions::default().with_output_limit(256);
    let execution = execute_with_options("yes 1234567890 | head -c 4096", &options)
        .directory_resolved(Ok(PathBuf::from("here")));
    assert!(matches!(execution.stage(), Stage::Shell));

    let mut stdout = OutputBuffer::new(execution.control().output_limit());
    let stderr = OutputBuffer::new(execution.control().output_limit());
    let written: Vec<u8> = b"1234567890\n".iter().copied().cycle().take(4096).collect();
    for chunk in written.chunks(100) {
        stdout.absorb(chunk);
    }
    let run = CaptureRun::new()
        .advance(CaptureEvent::Control(None))
        .advance(CaptureEvent::Spawned(Ok(())))
        .advance(CaptureEvent::Pipes { has_stdout: true, has_stderr: true })
        .advance(CaptureEvent::Status(Ok(Some(0))))
        .advance(CaptureEvent::Collected {
            stdout: Ok(stdout.finish()),
            stderr: Ok(stderr.finish()),
        });
    let outcome = match run.phase {
        CapturePhase::Done(outcome) => outcome,
        _ => panic!("the capture is not finished"),
    };
    let result = finished(execution.shell_finished(outcome).0).expect("execute large-output command");

    assert_eq!(result.stdout.len(), 256);
    assert!(result.stdout_truncated);
    assert!(!result.stderr_truncated);
    assert_eq!(result.stdout.as_bytes(), &written[..256]);
}

/// Runs the shell stage of an execution until it is interrupted, with what the child wrote.
fn interrupt_shell(
    execution: Execution,
    reason: Option<Interruption>,
    stdout: &str,
) -> Result<ExecutionResult, ExecuteError> {
    let run = CaptureRun::new()
        .advance(CaptureEvent::Control(None))
        .advance(CaptureEvent::Spawned(Ok(())))
        .advance(CaptureEvent::Pipes { has_stdout: true, has_stderr: true })
        .advance(CaptureEvent::Status(Ok(None)))
        .advance(CaptureEvent::Control(None))
        .advance(CaptureEvent::Slept)
        .advance(CaptureEvent::Status(Ok(None)))
        .advance(CaptureEvent::Control(reason))
        .advance(CaptureEvent::Status(Ok(None)));
    assert!(matches!(run.phase, CapturePhase::Kill(_)));
    let run = run
        .advance(CaptureEvent::Killed(Ok(())))
        .advance(CaptureEvent::Reaped(Ok(())))
        .advance(CaptureEvent::Collected { stdout: Ok(stream(stdout)), stderr: Ok(stream("")) });
    assert!(run.spawned && run.killed && run.exited && !run.guarded);
    match run.phase {
        CapturePhase::Done(outcome) => finished(execution.shell_finished(outcome).0),
        _ => panic!("the capture is not finished"),
    }
}

const MILLISECOND: u128 = 1_000_000;

#[test]
fn timeout_stops_a_running_shell_command() {
    let options = ExecuteOptions::default().with_timeout(50 * MILLISECOND);
    let execution = execute_with_options("sleep 5", &options).directory_resolved(Ok(PathBuf::from("here")));
    let control = execution.control().clone();
    assert_eq!(control.interruption_given(false, 49 * MILLISECOND), None);
    let due = control.interruption_given(false, 50 * MILLISECOND);

    let error = interrupt_shell(execution, due, "").expect_err("command should time out");

    assert!(matches!(
        error,
        ExecuteError::MayHaveStarted(MayHaveStartedError {
            kind: MayHaveStartedKind::TimedOut,
            ..
        })
    ));
}

#[test]
fn cancellation_stops_a_running_shell_command() {
    let cancellation = CancellationToken::new();
    let options = ExecuteOptions::default().with_cancellation(cancellation.clone());
    let execution = execute_with_options("sleep 5", &options).directory_resolved(Ok(PathBuf::from("here")));
    let control = execution.control().clone();
    assert_eq!(control.interruption(), None);
    cancellation.cancel();

    let error = interrupt_shell(execution, control.interruption(), "")
        .expect_err("command should be cancelled");

    assert!(matches!(
        error,
        ExecuteError::MayHaveStarted(MayHaveStartedError {
            kind: MayHaveStartedKind::Cancelled,
            ..
        })
    ));
}

#[test]
fn cancellation_before_spawn_is_safe_to_retry() {
    let cancellation = CancellationToken::new();
    cancellation.cancel();
    let options = ExecuteOptions::default().with_cancellation(cancellation);
    let execution = execute_with_options("printf should-not-run", &options).directory_resolved(Ok(PathBuf::from("here")));
    let control = execution.control().clone();

    let run = CaptureRun::new().advance(CaptureEvent::Control(control.interruption()));
    assert!(!run.spawned);
    let outcome = match run.phase {
        CapturePhase::Done(outcome) => outcome,
        _ => panic!("the capture is not finished"),
    };
    let error = finished(execution.shell_finished(outcome).0).expect_err("pre-cancelled command");

    assert!(matches!(
        &error,
        ExecuteError::BeforeStart(BeforeStartError::Cancelled)
    ));
    assert!(!error.may_have_started());
}

#[test]
fn interruption_returns_partial_output_without_retrying() {
    let options = ExecuteOptions::default().with_timeout(50 * MILLISECOND);
    let execution =
        execute_with_options("printf started; sleep 5", &options).directory_resolved(Ok(PathBuf::from("here")));

    let error = interrupt_shell(execution, Some(Interruption::TimedOut), "started")
        .expect_err("command should time out");

    let ExecuteError::MayHaveStarted(error) = error else {
        panic!("timeout after output must be classified as may-have-started");
    };
    assert!(matches!(error.kind, MayHaveStartedKind::TimedOut));
    assert_eq!(error.partial_output.stdout, "started");
}

#[test]
fn timeout_terminates_shell_descendants() {
    let options = in_directory().with_timeout(100 * MILLISECOND);
    let command = "sh -c 'sleep 30 & echo $! > child.pid; wait'";
    let execution = execute_with_options(command, &options);

    // The complete process group is killed and waited for before the execution ends.
    let error = interrupt_shell(execution, Some(Interruption::TimedOut), "")
        .expect_err("command should time out");
    assert!(matches!(
        error,
        ExecuteError::MayHaveStarted(MayHaveStartedError {
            kind: MayHaveStartedKind::TimedOut,
            ..
        })
    ));
}

#[test]
fn nonzero_status_is_returned_without_exiting_host() {
    let result = run_shell(execute("exit 7"), "", 7);

    assert_eq!(result.exit_code, 7);
    assert!(!result.success());
}

#[test]
fn public_api_executes_and_filters_a_command() {
    let options = ExecuteOptions {
        cwd: Some(PathBuf::from("work")),
        tracking: false,
        ..ExecuteOptions::default()
    };

    let execution = execute_with_options("wc -l input.txt", &options);
    let result = finished(execution.command_finished(Ok(counted("3 input.txt\n", "3"))))
        .expect("execute command");

    assert_eq!(result.stdout.trim(), "3");
    assert_eq!(result.exit_code, 0);
    assert_eq!(result.route, ExecutionRoute::Filtered { tool: "wc" });
}

#[test]
fn options_default_to_no_side_effects() {
    let options = ExecuteOptions::default();
    assert!(options.cwd.is_none());
    assert!(!options.tracking);
    assert!(options.timeout.is_none());
    assert!(options.cancellation.is_none());
    assert_eq!(options.output_limit, 10 * 1024 * 1024);
    assert_eq!(rtk::DEFAULT_OUTPUT_LIMIT, 10_485_760);
    assert!(ExecuteOptions::default().with_tracking(true).tracking);
    assert!(!execute("git status").tracking());
    let recorded = execute_with_options("git status", &in_directory().with_tracking(true));
    assert!(recorded.tracking());
    assert_eq!(recorded.control().output_limit(), rtk::DEFAULT_OUTPUT_LIMIT);
}

#[test]
fn unknown_directory_ends_before_the_start() {
    let failure = IoFailure::Reported { code: Some(2), message: "gone".to_string() };
    let error = finished(execute("git status").directory_resolved(Err(failure)))
        .expect_err("no directory");
    assert!(!error.may_have_started());
    assert_eq!(
        error.message(),
        "command did not start: failed to determine working directory: gone"
    );
}

#[test]
fn a_failure_behind_other_commands_keeps_their_output() {
    let chain = execute_with_options("wc -l a ; wc -l b", &in_directory());
    let chain = chain.command_finished(Ok(counted("1 a", "1")));
    let error = finished(chain.command_finished(Err(EmbeddedError::Process(
        ProcessError::Interrupted {
            reason: Interruption::Cancelled,
            started: false,
            stdout: Vec::new(),
            stderr: Vec::new(),
            stdout_truncated: false,
            stderr_truncated: false,
        },
    ))))
    .expect_err("cancelled chain");
    assert!(error.may_have_started());
    let ExecuteError::MayHaveStarted(error) = error else {
        panic!("a command has run");
    };
    assert_eq!(error.kind, MayHaveStartedKind::Cancelled);
    assert_eq!(error.partial_output.stdout, "1");

    // The same failure of the first command leaves nothing behind.
    let chain = execute_with_options("wc -l a ; wc -l b", &in_directory());
    let error = finished(chain.command_finished(Err(EmbeddedError::Process(
        ProcessError::Interrupted {
            reason: Interruption::TimedOut,
            started: false,
            stdout: Vec::new(),
            stderr: Vec::new(),
            stdout_truncated: false,
            stderr_truncated: false,
        },
    ))))
    .expect_err("timed out chain");
    assert_eq!(error, ExecuteError::BeforeStart(BeforeStartError::TimedOut));
}

#[test]
fn shell_output_is_decoded_and_its_truncation_kept() {
    let outcome: Result<ProcessOutput, ProcessError> = Ok(ProcessOutput {
        stdout: vec![b'a', 0xff, b'b'],
        stderr: "\u{e9}".as_bytes().to_vec(),
        status: 3,
        stdout_truncated: true,
        stderr_truncated: false,
    });
    let execution = execute("printf x | cat").directory_resolved(Ok(PathBuf::from("here")));
    let result = finished(execution.shell_finished(outcome).0).expect("result");
    assert_eq!(result.stdout, "a\u{fffd}b");
    assert_eq!(result.stderr, "\u{e9}");
    assert_eq!(result.exit_code, 3);
    assert!(result.stdout_truncated);
    assert!(!result.stderr_truncated);
}

#[test]
fn every_command_runs_in_the_directory_of_the_execution() {
    let chain = execute_with_options("wc -l a ; wc -l b", &in_directory());
    let (command, directory) = chain.direct_command().expect("first command");
    assert_eq!(command.args, vec!["-l", "a"]);
    assert_eq!(directory, &PathBuf::from("work"));
    assert!(chain.shell_command().is_none());
    let chain = chain.command_finished(Ok(counted("1 a", "1")));
    let (command, directory) = chain.direct_command().expect("second command");
    assert_eq!(command.args, vec!["-l", "b"]);
    assert_eq!(directory, &PathBuf::from("work"));

    let unknown = execute("git status");
    assert!(unknown.directory().is_none());
    assert!(unknown.direct_command().is_none());
    let known = unknown.directory_resolved(Ok(PathBuf::from("here")));
    assert_eq!(known.directory(), Some(&PathBuf::from("here")));
    assert_eq!(known.direct_command().expect("command").1, &PathBuf::from("here"));
}

#[test]
fn the_shell_gets_the_command_line_as_one_argument() {
    let command = "  printf 'a b'  | cat ";
    for (platform, program, flag) in
        [(Platform::Unix, "sh", "-c"), (Platform::Windows, "cmd", "/C")]
    {
        let execution = execute_on(platform, command, &in_directory());
        let shell = execution.shell_command().expect("shell");
        assert_eq!(shell.program, program);
        assert_eq!(shell.flag, flag);
        assert_eq!(shell.command, command);
        assert_eq!(shell.directory, &PathBuf::from("work"));
        assert!(execution.direct_command().is_none());
    }
    let here = execute_with_options(command, &in_directory());
    let expected = if Platform::current() == Platform::Windows { "cmd" } else { "sh" };
    assert_eq!(here.shell_command().expect("shell").program, expected);
}

#[test]
fn a_tracked_shell_execution_is_recorded() {
    let output = || ProcessOutput {
        stdout: b"x".to_vec(),
        stderr: Vec::new(),
        status: 0,
        stdout_truncated: false,
        stderr_truncated: false,
    };
    let recording = in_directory().with_tracking(true);
    let (_, record) = execute_with_options("printf x", &recording).shell_finished(Ok(output()));
    assert_eq!(
        record,
        Some(UsageRecord::Passthrough {
            command: "printf x".to_string(),
            rtk_command: "rtk printf x (passthrough)".to_string(),
        })
    );
    let (_, record) = execute_with_options("printf x", &in_directory()).shell_finished(Ok(output()));
    assert_eq!(record, None);
    let failure = IoFailure::Reported { code: Some(2), message: "gone".to_string() };
    let (_, record) = execute_with_options("printf x", &recording)
        .shell_finished(Err(ProcessError::Spawn(failure)));
    assert_eq!(record, None);
}

#[test]
fn cloned_options_share_their_signal() {
    let token = CancellationToken::new();
    let options = in_directory().with_timeout(7).with_cancellation(token.clone());
    let copy = options.clone();
    assert_eq!(copy.cwd, options.cwd);
    assert_eq!(copy.timeout, Some(7));
    token.cancel();
    assert!(copy.cancellation.expect("signal").is_cancelled());
}

#[test]
fn a_stopped_command_of_a_chain_adds_what_it_had_written() {
    let stopped = || {
        Err(EmbeddedError::Process(ProcessError::Interrupted {
            reason: Interruption::TimedOut,
            started: true,
            stdout: "caf\u{e9}".as_bytes().to_vec(),
            stderr: vec![b'e', 0xff],
            stdout_truncated: false,
            stderr_truncated: true,
        }))
    };
    let chain = execute_with_options("wc -l a ; wc -l b", &in_directory());
    let chain = chain.command_finished(Ok(counted("1 a", "1")));
    let error = finished(chain.command_finished(stopped())).expect_err("stopped chain");
    let ExecuteError::MayHaveStarted(error) = error else {
        panic!("a command has run");
    };
    assert_eq!(error.kind, MayHaveStartedKind::TimedOut);
    assert_eq!(error.partial_output.stdout, "1\ncaf\u{e9}");
    assert_eq!(error.partial_output.stderr, "e\u{fffd}");
    assert!(error.partial_output.stderr_truncated);

    let single = execute_with_options("wc -l a", &in_directory());
    let error = finished(single.command_finished(stopped())).expect_err("stopped command");
    let ExecuteError::MayHaveStarted(error) = error else {
        panic!("the command was started");
    };
    assert_eq!(error.partial_output.stdout, "caf\u{e9}");
}
