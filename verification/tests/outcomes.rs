//! Processes, failures and filtered runs.

use rtk::capture::{
    collect_output, CaptureEvent, CapturePhase, CaptureRun, CapturedStream, OutputBuffer,
    ReaderFailure, DRAIN_INTERVAL,
};
use rtk::failure::{
    append_chain_output, embedded_error, enrich_chain_error, interrupted_error, map_embedded_error,
    map_process_error, may_have_started, run_context, EmbeddedError,
};
use rtk::guard::{compose, emit_guarded, estimate_tokens, never_worse};
use rtk::process::{
    status_to_exit_code, CancellationToken, Interruption, IoFailure, ProcessControl, ProcessError,
    ProcessOutput, STATUS_POLL_INTERVAL,
};
use rtk::runner::{
    capture_filtered, command_label, print_captured, run, run_filtered_capture, stream_result,
    CapturedRun, OutputMode, RunMode, RunOptions, StdinMode, StreamResult, UsageRecord,
};
use rtk::text::{blank, first_char, last_char};
use rtk::{BeforeStartError, ExecuteError, MayHaveStartedKind, PartialOutput};

fn reported(message: &str) -> IoFailure {
    IoFailure::Reported { code: Some(5), message: message.to_string() }
}

fn stream(bytes: &[u8]) -> CapturedStream {
    CapturedStream { bytes: bytes.to_vec(), truncated: false }
}

fn started() -> CaptureRun {
    CaptureRun::new()
        .advance(CaptureEvent::Control(None))
        .advance(CaptureEvent::Spawned(Ok(())))
}

fn polling() -> CaptureRun {
    started().advance(CaptureEvent::Pipes { has_stdout: true, has_stderr: true })
}

fn outcome(run: CaptureRun) -> Result<ProcessOutput, ProcessError> {
    match run.phase {
        CapturePhase::Done(outcome) => outcome,
        _ => panic!("the capture is not finished"),
    }
}

#[test]
fn a_token_is_shared_with_its_clones() {
    let token = CancellationToken::new();
    let clone = token.clone();
    assert!(!token.is_cancelled());
    clone.cancel();
    assert!(token.is_cancelled());
    clone.cancel();
    assert!(clone.is_cancelled());
    assert!(!CancellationToken::default().is_cancelled());
}

#[test]
fn a_raised_signal_comes_before_the_deadline() {
    let control = ProcessControl::new(Some(100), Some(CancellationToken::new()), 7);
    assert_eq!(control.output_limit(), 7);
    assert_eq!(control.interruption_given(true, 200), Some(Interruption::Cancelled));
    assert_eq!(control.interruption_given(false, 100), Some(Interruption::TimedOut));
    assert_eq!(control.interruption_given(false, 99), None);
    let unbounded = ProcessControl::new(None, None, 0);
    assert_eq!(unbounded.interruption_given(true, u128::MAX), None);
    assert_eq!(unbounded.interruption(), None);
    let endless = ProcessControl::new(Some(u128::MAX), None, 0);
    assert_eq!(endless.interruption(), None);
    assert_eq!(endless.interruption_given(false, u128::MAX - 1), None);
    let over = ProcessControl::new(Some(0), None, 0);
    assert_eq!(over.clone().interruption(), Some(Interruption::TimedOut));
}

#[test]
fn pauses_end_by_the_deadline() {
    let control = ProcessControl::new(Some(25_000_000), None, 0);
    assert_eq!(STATUS_POLL_INTERVAL, 10_000_000);
    assert_eq!(control.sleep_duration_given(0), 10_000_000);
    assert_eq!(control.sleep_duration_given(16_000_000), 9_000_000);
    assert_eq!(control.sleep_duration_given(25_000_000), 0);
    assert_eq!(control.sleep_duration_given(30_000_000), 0);
    assert!(control.sleep_duration() <= STATUS_POLL_INTERVAL);
    assert_eq!(ProcessControl::new(None, None, 0).sleep_duration(), STATUS_POLL_INTERVAL);
}

#[test]
fn a_buffer_keeps_the_start_of_a_stream_however_it_comes() {
    let whole = b"0123456789";
    for limit in 0..12 {
        for size in 1..11 {
            let mut buffer = OutputBuffer::new(limit);
            for chunk in whole.chunks(size) {
                buffer.absorb(chunk);
            }
            let captured = buffer.finish();
            assert_eq!(captured.bytes, whole[..limit.min(10)].to_vec());
            assert_eq!(captured.truncated, limit < 10);
        }
    }
}

#[test]
fn readers_fail_stdout_first() {
    assert_eq!(
        collect_output(Ok(stream(b"o")), Ok(stream(b"e"))),
        Ok((stream(b"o"), stream(b"e")))
    );
    assert_eq!(
        collect_output(Err(ReaderFailure::Panicked), Err(ReaderFailure::Panicked)),
        Err(ProcessError::Read(IoFailure::Other("stdout reader thread panicked")))
    );
    assert_eq!(
        collect_output(Ok(stream(b"")), Err(ReaderFailure::Panicked)),
        Err(ProcessError::Read(IoFailure::Other("stderr reader thread panicked")))
    );
    assert_eq!(
        collect_output(Err(ReaderFailure::Io(reported("o"))), Ok(stream(b""))),
        Err(ProcessError::Read(reported("o")))
    );
    assert_eq!(
        collect_output(Ok(stream(b"")), Err(ReaderFailure::Io(reported("e")))),
        Err(ProcessError::Read(reported("e")))
    );
}

#[test]
fn every_failure_after_the_start_keeps_the_guard() {
    let failed = |run: CaptureRun| {
        assert!(run.spawned && run.guarded);
        outcome(run).expect_err("failed")
    };
    assert_eq!(
        failed(started().advance(CaptureEvent::Pipes { has_stdout: false, has_stderr: false })),
        ProcessError::Read(IoFailure::Other("missing child stdout pipe"))
    );
    assert_eq!(
        failed(started().advance(CaptureEvent::Pipes { has_stdout: true, has_stderr: false })),
        ProcessError::Read(IoFailure::Other("missing child stderr pipe"))
    );
    assert_eq!(
        failed(polling().advance(CaptureEvent::Status(Err(reported("w"))))),
        ProcessError::Wait(reported("w"))
    );
    let interrupted = || {
        polling()
            .advance(CaptureEvent::Status(Ok(None)))
            .advance(CaptureEvent::Control(Some(Interruption::Cancelled)))
    };
    assert_eq!(
        failed(interrupted().advance(CaptureEvent::Status(Err(reported("w"))))),
        ProcessError::Wait(reported("w"))
    );
    let killing = || interrupted().advance(CaptureEvent::Status(Ok(None)));
    assert_eq!(
        failed(killing().advance(CaptureEvent::Killed(Err(reported("k"))))),
        ProcessError::Terminate(reported("k"))
    );
    assert_eq!(
        failed(
            killing()
                .advance(CaptureEvent::Killed(Ok(())))
                .advance(CaptureEvent::Reaped(Err(reported("r"))))
        ),
        ProcessError::Wait(reported("r"))
    );
    assert_eq!(
        failed(polling().advance(CaptureEvent::Status(Ok(Some(0)))).advance(
            CaptureEvent::Collected {
                stdout: Err(ReaderFailure::Panicked),
                stderr: Ok(stream(b"")),
            }
        )),
        ProcessError::Read(IoFailure::Other("stdout reader thread panicked"))
    );
    let unstarted = CaptureRun::new()
        .advance(CaptureEvent::Control(None))
        .advance(CaptureEvent::Spawned(Err(reported("s"))));
    assert!(!unstarted.spawned && !unstarted.guarded);
    assert_eq!(outcome(unstarted), Err(ProcessError::Spawn(reported("s"))));
}

#[test]
fn an_exit_comes_before_an_interruption() {
    let run = polling()
        .advance(CaptureEvent::Status(Ok(None)))
        .advance(CaptureEvent::Control(Some(Interruption::TimedOut)))
        .advance(CaptureEvent::Status(Ok(Some(4))))
        .advance(CaptureEvent::Collected { stdout: Ok(stream(b"out")), stderr: Ok(stream(b"err")) });
    assert!(run.exited && !run.killed && !run.guarded);
    assert_eq!(
        outcome(run),
        Ok(ProcessOutput {
            stdout: b"out".to_vec(),
            stderr: b"err".to_vec(),
            status: 4,
            stdout_truncated: false,
            stderr_truncated: false,
        })
    );
}

#[test]
fn an_interruption_stops_what_an_ended_child_left_running() {
    let ended = || polling().advance(CaptureEvent::Status(Ok(Some(4))));
    let both = || CaptureEvent::Collected { stdout: Ok(stream(b"out")), stderr: Ok(stream(b"")) };
    let waiting = ended().advance(CaptureEvent::Control(None));
    assert_eq!(waiting.phase, CapturePhase::Linger(4));
    let waiting = waiting.advance(CaptureEvent::Slept);
    assert_eq!(waiting.phase, CapturePhase::CollectExited(4));
    let due = waiting.advance(CaptureEvent::Control(Some(Interruption::TimedOut)));
    assert_eq!(due.phase, CapturePhase::CollectAgain(4, Interruption::TimedOut));
    let run = due
        .advance(CaptureEvent::Pending)
        .advance(CaptureEvent::Killed(Ok(())))
        .advance(both());
    assert!(run.killed && run.exited && !run.guarded);
    assert_eq!(
        outcome(run),
        Err(ProcessError::Interrupted {
            reason: Interruption::TimedOut,
            started: true,
            stdout: b"out".to_vec(),
            stderr: Vec::new(),
            stdout_truncated: false,
            stderr_truncated: false,
        })
    );

    // Output that ends just then is that of a child that ended by itself.
    let run = ended()
        .advance(CaptureEvent::Control(Some(Interruption::Cancelled)))
        .advance(both());
    assert!(!run.killed);
    assert_eq!(outcome(run).expect("output").status, 4);

    // A group with no process left cannot be told to end, which changes nothing.
    let draining = ended()
        .advance(CaptureEvent::Control(Some(Interruption::Cancelled)))
        .advance(CaptureEvent::Pending)
        .advance(CaptureEvent::Killed(Err(reported("k"))));
    assert_eq!(draining.phase, CapturePhase::CollectInterrupted(Interruption::Cancelled));

    // A pipe that is held outside the group does not keep the capture waiting.
    let salvaging = draining.advance(CaptureEvent::Pending);
    assert_eq!(salvaging.phase, CapturePhase::Salvage(Interruption::Cancelled));
    let run = salvaging.advance(both());
    assert!(!run.guarded);
    match outcome(run) {
        Err(ProcessError::Interrupted { reason, started, stdout, .. }) => {
            assert_eq!(reason, Interruption::Cancelled);
            assert!(started);
            assert_eq!(stdout, b"out".to_vec());
        }
        other => panic!("{other:?}"),
    }
    assert_eq!(DRAIN_INTERVAL, 100_000_000);
}

#[test]
fn process_errors_say_what_failed() {
    let interrupted = |reason| ProcessError::Interrupted {
        reason,
        started: true,
        stdout: Vec::new(),
        stderr: Vec::new(),
        stdout_truncated: false,
        stderr_truncated: false,
    };
    assert_eq!(interrupted(Interruption::Cancelled).message(), "command was cancelled");
    assert_eq!(interrupted(Interruption::TimedOut).message(), "command timed out");
    assert!(interrupted(Interruption::TimedOut).source().is_none());
    let cases = [
        (ProcessError::Spawn(reported("x")), "failed to start command: x"),
        (ProcessError::Wait(reported("x")), "failed while waiting for command: x"),
        (ProcessError::Terminate(reported("x")), "failed to terminate command: x"),
        (ProcessError::Read(IoFailure::Other("x")), "failed to capture command output: x"),
    ];
    for (error, message) in cases {
        assert_eq!(error.message(), message);
        assert_eq!(error.source().expect("source").message(), "x");
    }
}

#[test]
fn process_errors_are_classified_by_their_effects() {
    let message = |error: ProcessError| map_process_error(error).message();
    assert_eq!(
        message(ProcessError::Spawn(reported("x"))),
        "command may have started: spawn failed: x"
    );
    assert_eq!(
        message(ProcessError::Wait(reported("x"))),
        "command may have started: wait failed: x"
    );
    assert_eq!(
        message(ProcessError::Terminate(reported("x"))),
        "command may have started: process-tree termination failed: x"
    );
    assert_eq!(
        message(ProcessError::Read(reported("x"))),
        "command may have started: capture failed: x"
    );
    let interrupted = |reason, started| ProcessError::Interrupted {
        reason,
        started,
        stdout: vec![b'o', 0xc3],
        stderr: b"e".to_vec(),
        stdout_truncated: true,
        stderr_truncated: false,
    };
    assert_eq!(
        message(interrupted(Interruption::Cancelled, true)),
        "command may have started: execution was cancelled"
    );
    assert_eq!(
        message(interrupted(Interruption::TimedOut, false)),
        "command did not start: execution timed out"
    );
    assert_eq!(
        map_process_error(interrupted(Interruption::Cancelled, false)),
        ExecuteError::BeforeStart(BeforeStartError::Cancelled)
    );
    match map_process_error(interrupted(Interruption::TimedOut, true)) {
        ExecuteError::MayHaveStarted(error) => {
            assert_eq!(error.kind, MayHaveStartedKind::TimedOut);
            assert_eq!(error.partial_output.stdout, "o\u{fffd}");
            assert_eq!(error.partial_output.stderr, "e");
            assert!(error.partial_output.stdout_truncated);
            assert!(!error.partial_output.stderr_truncated);
        }
        ExecuteError::BeforeStart(_) => panic!("the command was started"),
    }
    assert_eq!(
        interrupted_error(Interruption::Cancelled, false, PartialOutput::default()).message(),
        "command did not start: execution was cancelled"
    );
}

#[test]
fn filter_failures_carry_their_causes() {
    assert_eq!(run_context("git"), "Failed to run git");
    let failure = anyhow::Error::msg("no such file").context(run_context("wc"));
    let error = embedded_error(Err(failure));
    assert_eq!(error, EmbeddedError::Other("Failed to run wc: no such file".to_string()));
    assert_eq!(
        map_embedded_error(error).message(),
        "command may have started: filter failed: Failed to run wc: no such file"
    );
}

#[test]
fn a_process_error_stays_what_it_is() {
    let error = embedded_error(Ok(ProcessError::Spawn(reported("x"))));
    assert_eq!(
        map_embedded_error(error),
        map_process_error(ProcessError::Spawn(reported("x")))
    );
}

#[test]
fn chained_output_starts_on_lines_of_its_own() {
    let chained = |first: &str, next: &str| {
        let mut output = first.to_string();
        append_chain_output(&mut output, next);
        output
    };
    assert_eq!(chained("", "b"), "b");
    assert_eq!(chained("a", ""), "a");
    assert_eq!(chained("a", "b"), "a\nb");
    assert_eq!(chained("a\n", "b"), "a\nb");
    assert_eq!(chained("\u{e9}", "b\n"), "\u{e9}\nb\n");
}

#[test]
fn a_chain_error_is_enriched_once_a_command_has_run() {
    let error = || ExecuteError::BeforeStart(BeforeStartError::WorkingDirectory(reported("gone")));
    let untouched =
        enrich_chain_error(error(), false, "o".to_string(), "e".to_string(), true, true);
    assert_eq!(untouched, error());
    match enrich_chain_error(error(), true, "o".to_string(), "e".to_string(), true, false) {
        ExecuteError::MayHaveStarted(error) => {
            assert_eq!(error.kind, MayHaveStartedKind::Filter("gone".to_string()));
            assert_eq!(error.partial_output.stdout, "o");
            assert_eq!(error.partial_output.stderr, "e");
            assert!(error.partial_output.stdout_truncated);
            assert!(!error.partial_output.stderr_truncated);
        }
        ExecuteError::BeforeStart(_) => panic!("a command has run"),
    }
    let later = match may_have_started(MayHaveStartedKind::TimedOut) {
        ExecuteError::MayHaveStarted(mut error) => {
            error.partial_output.stdout = "later".to_string();
            error.partial_output.stderr_truncated = true;
            ExecuteError::MayHaveStarted(error)
        }
        other => other,
    };
    match enrich_chain_error(later, true, "o".to_string(), String::new(), false, false) {
        ExecuteError::MayHaveStarted(error) => {
            assert_eq!(error.kind, MayHaveStartedKind::TimedOut);
            assert_eq!(error.partial_output.stdout, "o\nlater");
            assert!(!error.partial_output.stdout_truncated);
            assert!(error.partial_output.stderr_truncated);
        }
        ExecuteError::BeforeStart(_) => panic!("a command has run"),
    }
}

#[test]
fn emitted_text_never_costs_more_than_the_raw_text() {
    assert_eq!(estimate_tokens(""), 0);
    assert_eq!(estimate_tokens("a"), 1);
    assert_eq!(estimate_tokens("abcd"), 1);
    assert_eq!(estimate_tokens("abcde"), 2);
    assert_eq!(estimate_tokens("\u{e9}\u{e9}\u{e9}"), 2);
    assert_eq!(never_worse("abcd", "wxyz"), "wxyz");
    assert_eq!(never_worse("abcd", "vwxyz"), "abcd");
    assert_eq!(compose("a", Some("b")), "a\nb");
    assert_eq!(compose("a", None), "a");
    assert_eq!(emit_guarded("short", Some("see log"), "a much longer raw text"), "short\nsee log");
    assert_eq!(emit_guarded("short", Some("see the log"), "tiny raw"), "tiny raw");
}

#[test]
fn run_options_are_built_step_by_step() {
    let options = RunOptions::with_tee("log");
    assert_eq!(options.tee_label, Some("log"));
    assert!(!options.filter_stdout_only && !options.skip_filter_on_failure);
    let options = RunOptions::stdout_only()
        .tee("other")
        .early_exit_on_failure()
        .no_trailing_newline()
        .inherit_stdin();
    assert_eq!(options.tee_label, Some("other"));
    assert!(options.filter_stdout_only);
    assert!(options.skip_filter_on_failure);
    assert!(options.no_trailing_newline);
    assert!(options.inherit_stdin);
    assert_eq!(options.tee_label_for(0), Some("other"));
    assert_eq!(options.tee_label_for(1), None);
    assert_eq!(RunOptions::default().tee_label_for(0), None);
}

type Mode = RunMode<fn(&str) -> String, fn(&str, i32) -> String, ()>;

#[test]
fn modes_choose_the_streams_of_a_child() {
    let plain = RunOptions::default();
    let inherited = RunOptions::default().inherit_stdin();
    let filtered: Mode = RunMode::Filtered(|text| text.to_string());
    assert_eq!(filtered.streams(&plain), (StdinMode::Null, OutputMode::CaptureOnly));
    assert_eq!(filtered.streams(&inherited), (StdinMode::Inherit, OutputMode::CaptureOnly));
    let streamed: Mode = RunMode::Streamed(());
    assert_eq!(streamed.streams(&inherited), (StdinMode::Null, OutputMode::Streaming));
    let passthrough: Mode = RunMode::Passthrough;
    assert_eq!(passthrough.streams(&plain), (StdinMode::Inherit, OutputMode::Passthrough));
    assert_eq!(plain.stdin_mode(), StdinMode::Null);
    assert_eq!(inherited.stdin_mode(), StdinMode::Inherit);
}

#[test]
fn modes_choose_the_label_of_the_raw_output() {
    let tee = RunOptions::with_tee("log").early_exit_on_failure();
    let filtered: Mode = RunMode::Filtered(|text| text.to_string());
    assert_eq!(filtered.tee_label(&tee, 0), Some("log"));
    assert_eq!(filtered.tee_label(&tee, 1), None);
    let streamed: Mode = RunMode::Streamed(());
    assert_eq!(streamed.tee_label(&tee, 1), Some("log"));
    let passthrough: Mode = RunMode::Passthrough;
    assert_eq!(passthrough.tee_label(&tee, 0), None);
}

#[test]
fn captured_bytes_become_text() {
    let output = ProcessOutput {
        stdout: vec![b'o', 0xff, b'\n'],
        stderr: "\u{e9}".as_bytes().to_vec(),
        status: 4,
        stdout_truncated: true,
        stderr_truncated: false,
    };
    let result = stream_result(&output, "shown".to_string());
    assert_eq!(result.raw_stdout, "o\u{fffd}\n");
    assert_eq!(result.raw_stderr, "\u{e9}");
    assert_eq!(result.raw, "o\u{fffd}\n\u{e9}");
    assert_eq!(result.filtered, "shown");
    assert_eq!(result.exit_code, 4);
    assert!(result.stdout_truncated && !result.stderr_truncated);
}

fn result(exit_code: i32) -> StreamResult {
    StreamResult {
        raw: "stdout text\nstderr text\n".to_string(),
        raw_stdout: "stdout text\n".to_string(),
        raw_stderr: "stderr text\n".to_string(),
        filtered: "streamed".to_string(),
        exit_code,
        stdout_truncated: true,
        stderr_truncated: false,
    }
}

#[test]
fn filters_see_the_text_and_the_exit_code() {
    let (captured, record) = capture_filtered(
        result(3),
        "tool x",
        |text: &str, code: i32| format!("{}:{code}", text.len()),
        &RunOptions::default(),
        true,
        Some("ignored hint"),
    );
    assert_eq!(captured.stdout, "24:3");
    assert_eq!(captured.stderr, "stderr text\n");
    assert_eq!(captured.exit_code, 3);
    assert!(captured.filtered && captured.stdout_truncated && !captured.stderr_truncated);
    assert_eq!(
        record,
        Some(UsageRecord::Filtered {
            command: "tool x".to_string(),
            rtk_command: "rtk tool x".to_string(),
            input: "stdout text\nstderr text\n".to_string(),
            output: "24:3".to_string(),
        })
    );
    let (captured, record) = run_filtered_capture(
        result(0),
        "tool",
        "x",
        |text: &str| text.len().to_string(),
        &RunOptions::stdout_only().tee("log"),
        false,
        Some("hint"),
    );
    assert_eq!(captured.stdout, "12\nhint");
    assert_eq!(record, None);
    let (captured, _) = run_filtered_capture(
        result(0),
        "tool",
        "x",
        |text: &str| text.repeat(2),
        &RunOptions::stdout_only(),
        false,
        None,
    );
    assert_eq!(captured.stdout, "stdout text\n");
}

#[test]
fn captured_runs_are_printed_by_their_kind() {
    let mut captured = CapturedRun {
        stdout: "out\n".to_string(),
        stderr: " \n".to_string(),
        exit_code: 1,
        filtered: false,
        stdout_truncated: false,
        stderr_truncated: false,
    };
    let plain = RunOptions::default();
    let printed = print_captured(&captured, &plain);
    assert_eq!(printed.stdout, "out\n");
    assert_eq!(printed.stderr, "");
    captured.filtered = true;
    captured.stderr = "err".to_string();
    assert_eq!(print_captured(&captured, &plain).stdout, "out\n\n");
    assert_eq!(print_captured(&captured, &plain).stderr, "");
    assert_eq!(print_captured(&captured, &plain.no_trailing_newline()).stdout, "out\n");
}

#[test]
fn runs_report_what_is_printed_and_recorded() {
    let label = command_label("tool", "-a b");
    assert_eq!(label, "tool -a b");
    let tee = RunOptions::with_tee("log").early_exit_on_failure();

    let filtered: Mode = RunMode::Filtered(|_| "F".to_string());
    let report = run("tool", "-a b", filtered, &tee, result(0), Some("hint"));
    assert_eq!(report.printed.stdout, "F\nhint\n");
    assert_eq!(report.exit_code, 0);

    let with_exit: Mode = RunMode::FilteredWithExit(|_, code| format!("F{code}"));
    let report = run("tool", "-a b", with_exit, &RunOptions::default(), result(2), None);
    assert_eq!(report.printed.stdout, "F2\n");
    assert_eq!(report.exit_code, 2);

    let left: Mode = RunMode::FilteredWithExit(|_, code| format!("F{code}"));
    let report = run("tool", "-a b", left, &tee, result(2), Some("hint"));
    assert_eq!(report.printed.stdout, "stdout text\n");
    assert_eq!(report.printed.stderr, "stderr text\n");
    assert_eq!(
        report.record,
        UsageRecord::Filtered {
            command: label.clone(),
            rtk_command: "rtk tool -a b".to_string(),
            input: "stdout text\nstderr text\n".to_string(),
            output: "stdout text\nstderr text\n".to_string(),
        }
    );

    let streamed: Mode = RunMode::Streamed(());
    let report = run("tool", "-a b", streamed, &tee, result(2), Some("hint"));
    assert_eq!(report.printed.stdout, "hint\n");
    assert_eq!(
        report.record,
        UsageRecord::Filtered {
            command: label.clone(),
            rtk_command: "rtk tool -a b".to_string(),
            input: "stdout text\nstderr text\n".to_string(),
            output: "streamed".to_string(),
        }
    );
    let streamed: Mode = RunMode::Streamed(());
    let report = run("tool", "-a b", streamed, &RunOptions::default(), result(0), Some("hint"));
    assert_eq!(report.printed.stdout, "");

    let passthrough: Mode = RunMode::Passthrough;
    let report = run("tool", "-a b", passthrough, &RunOptions::default(), result(5), None);
    assert_eq!(report.printed.stdout, "");
    assert_eq!(report.exit_code, 5);
    assert_eq!(
        report.record,
        UsageRecord::Passthrough {
            command: label,
            rtk_command: "rtk tool -a b (passthrough)".to_string(),
        }
    );
}

#[test]
fn exit_codes_tell_of_signals() {
    assert_eq!(status_to_exit_code(Some(7), None), 7);
    assert_eq!(status_to_exit_code(Some(-1), Some(9)), -1);
    assert_eq!(status_to_exit_code(None, Some(9)), 137);
    assert_eq!(status_to_exit_code(None, Some(i32::MAX)), 1);
    assert_eq!(status_to_exit_code(None, None), 1);
}

#[test]
fn text_helpers_look_at_both_ends() {
    assert_eq!(first_char("\u{e9}x"), Some('\u{e9}'));
    assert_eq!(last_char("x\u{e9}"), Some('\u{e9}'));
    assert_eq!(first_char(""), None);
    assert_eq!(last_char(""), None);
    assert!(blank(" \t\u{3000}"));
    assert!(blank(""));
    assert!(!blank(" a "));
}
