//! What becomes of a finished command: its filtered output, what is printed and what is recorded.

use crate::failure::{self, decode_process_output};
use crate::guard::{self, emit_guarded, never_worse};
use crate::process::ProcessOutput;
use crate::text::{self, blank};
use vstd::prelude::*;

verus! {

/// How the output of a command is treated.
#[derive(Debug, Clone, Copy)]
pub struct RunOptions<'a> {
    /// The label under which the raw output is kept for recovery.
    pub tee_label: Option<&'a str>,
    pub filter_stdout_only: bool,
    pub skip_filter_on_failure: bool,
    pub no_trailing_newline: bool,
    /// Hand this process's own stdin to the child. A command that reads from a pipe needs it:
    /// without it the child gets an empty stdin.
    pub inherit_stdin: bool,
}

impl<'a> Default for RunOptions<'a> {
    fn default() -> (options: Self)
        ensures
            options == (RunOptions {
                tee_label: None,
                filter_stdout_only: false,
                skip_filter_on_failure: false,
                no_trailing_newline: false,
                inherit_stdin: false,
            }),
    {
        RunOptions {
            tee_label: None,
            filter_stdout_only: false,
            skip_filter_on_failure: false,
            no_trailing_newline: false,
            inherit_stdin: false,
        }
    }
}

impl<'a> RunOptions<'a> {
    /// Only the raw output is kept, under `label`.
    pub fn with_tee(label: &'a str) -> (options: Self)
        ensures
            options == (RunOptions {
                tee_label: Some(label),
                filter_stdout_only: false,
                skip_filter_on_failure: false,
                no_trailing_newline: false,
                inherit_stdin: false,
            }),
    {
        RunOptions { tee_label: Some(label), ..RunOptions::default() }
    }

    /// Only stdout is filtered.
    pub fn stdout_only() -> (options: Self)
        ensures
            options == (RunOptions {
                tee_label: None,
                filter_stdout_only: true,
                skip_filter_on_failure: false,
                no_trailing_newline: false,
                inherit_stdin: false,
            }),
    {
        RunOptions { filter_stdout_only: true, ..RunOptions::default() }
    }

    /// Keeps the raw output under `label`.
    pub fn tee(self, label: &'a str) -> (options: Self)
        ensures
            options == (RunOptions { tee_label: Some(label), ..self }),
    {
        RunOptions { tee_label: Some(label), ..self }
    }

    /// Leaves the output of a failed command as it is.
    pub fn early_exit_on_failure(self) -> (options: Self)
        ensures
            options == (RunOptions { skip_filter_on_failure: true, ..self }),
    {
        RunOptions { skip_filter_on_failure: true, ..self }
    }

    /// Prints no newline behind the filtered output.
    pub fn no_trailing_newline(self) -> (options: Self)
        ensures
            options == (RunOptions { no_trailing_newline: true, ..self }),
    {
        RunOptions { no_trailing_newline: true, ..self }
    }

    /// Hands this process's own stdin to the child.
    pub fn inherit_stdin(self) -> (options: Self)
        ensures
            options == (RunOptions { inherit_stdin: true, ..self }),
    {
        RunOptions { inherit_stdin: true, ..self }
    }

    /// Where the child of a command that is filtered at its end reads its input from.
    pub open spec fn stdin(self) -> StdinMode {
        if self.inherit_stdin {
            StdinMode::Inherit
        } else {
            StdinMode::Null
        }
    }

    /// Where the child of a command that is filtered at its end reads its input from.
    pub fn stdin_mode(&self) -> (stdin: StdinMode)
        ensures
            stdin == self.stdin(),
    {
        if self.inherit_stdin {
            StdinMode::Inherit
        } else {
            StdinMode::Null
        }
    }

    /// Whether the output of a command that ended with `exit_code` is left as it is.
    pub open spec fn leaves_raw(self, exit_code: i32) -> bool {
        self.skip_filter_on_failure && exit_code != 0
    }

    /// The label under which the output of a command that ended with `exit_code` is kept: none
    /// where the output is left as it is.
    pub fn tee_label_for(&self, exit_code: i32) -> (label: Option<&'a str>)
        ensures
            label == (if self.leaves_raw(exit_code) {
                None
            } else {
                self.tee_label
            }),
    {
        if self.skip_filter_on_failure && exit_code != 0 {
            None
        } else {
            self.tee_label
        }
    }
}

/// Where a child reads its input from.
#[derive(Debug, Clone, Copy, PartialEq, Eq, Structural)]
pub enum StdinMode {
    Inherit,
    Null,
}

/// What happens to the output of a child while it runs.
#[derive(Debug, Clone, Copy, PartialEq, Eq, Structural)]
pub enum OutputMode {
    CaptureOnly,
    Streaming,
    Passthrough,
}

/// How a command's output is filtered: all of it at the end, by its text or by its text and exit
/// code, line by line while it runs, or not at all.
pub enum RunMode<F, G, S> {
    Filtered(F),
    FilteredWithExit(G),
    Streamed(S),
    Passthrough,
}

impl<F, G, S> RunMode<F, G, S> {
    /// Where the child of a command in this mode reads its input from, and what happens to its
    /// output.
    pub fn streams(&self, opts: &RunOptions<'_>) -> (streams: (StdinMode, OutputMode))
        ensures
            streams == match *self {
                RunMode::Streamed(_) => (StdinMode::Null, OutputMode::Streaming),
                RunMode::Passthrough => (StdinMode::Inherit, OutputMode::Passthrough),
                _ => (opts.stdin(), OutputMode::CaptureOnly),
            },
    {
        match self {
            RunMode::Streamed(_) => (StdinMode::Null, OutputMode::Streaming),
            RunMode::Passthrough => (StdinMode::Inherit, OutputMode::Passthrough),
            _ => (opts.stdin_mode(), OutputMode::CaptureOnly),
        }
    }

    /// The label under which the raw output of a command in this mode is kept, once it has ended
    /// with `exit_code`.
    pub fn tee_label<'a>(&self, opts: &RunOptions<'a>, exit_code: i32) -> (label: Option<&'a str>)
        ensures
            label == match *self {
                RunMode::Streamed(_) => opts.tee_label,
                RunMode::Passthrough => None,
                _ => if opts.leaves_raw(exit_code) {
                    None
                } else {
                    opts.tee_label
                },
            },
    {
        match self {
            RunMode::Streamed(_) => opts.tee_label,
            RunMode::Passthrough => None,
            _ => opts.tee_label_for(exit_code),
        }
    }
}

/// What a finished command wrote.
#[derive(Debug, Clone, PartialEq, Eq)]
pub struct StreamResult {
    /// Stdout and stderr together.
    pub raw: String,
    pub raw_stdout: String,
    pub raw_stderr: String,
    /// What was shown of it while it ran.
    pub filtered: String,
    pub exit_code: i32,
    pub stdout_truncated: bool,
    pub stderr_truncated: bool,
}

/// What a finished command wrote, with its output as text. `filtered` is what was shown of it
/// while it ran.
pub fn stream_result(output: &ProcessOutput, filtered: String) -> (result: StreamResult)
    ensures
        failure::reads_as(output.stdout@, result.raw_stdout@),
        failure::reads_as(output.stderr@, result.raw_stderr@),
        result.raw@ == result.raw_stdout@ + result.raw_stderr@,
        result.filtered == filtered,
        result.exit_code == output.status,
        result.stdout_truncated == output.stdout_truncated,
        result.stderr_truncated == output.stderr_truncated,
{
    let raw_stdout = decode_process_output(output.stdout.as_slice());
    let raw_stderr = decode_process_output(output.stderr.as_slice());
    let raw = raw_stdout.clone().concat(raw_stderr.as_str());
    StreamResult {
        raw,
        raw_stdout,
        raw_stderr,
        filtered,
        exit_code: output.status,
        stdout_truncated: output.stdout_truncated,
        stderr_truncated: output.stderr_truncated,
    }
}

/// The result of a command after filtering.
///
/// It is a value: nothing has been written to the stdout or stderr of this process.
#[derive(Debug, Clone, PartialEq, Eq)]
pub struct CapturedRun {
    pub stdout: String,
    pub stderr: String,
    pub exit_code: i32,
    pub filtered: bool,
    pub stdout_truncated: bool,
    pub stderr_truncated: bool,
}

/// The mathematical counterpart of [`CapturedRun`].
#[verifier::ext_equal]
pub struct CapturedView {
    pub stdout: Seq<char>,
    pub stderr: Seq<char>,
    pub exit_code: i32,
    pub filtered: bool,
    pub stdout_truncated: bool,
    pub stderr_truncated: bool,
}

impl View for CapturedRun {
    type V = CapturedView;

    open spec fn view(&self) -> CapturedView {
        CapturedView {
            stdout: self.stdout@,
            stderr: self.stderr@,
            exit_code: self.exit_code,
            filtered: self.filtered,
            stdout_truncated: self.stdout_truncated,
            stderr_truncated: self.stderr_truncated,
        }
    }
}

/// An entry of the usage history.
#[derive(Debug, Clone, PartialEq, Eq)]
pub enum UsageRecord {
    /// A command with its text before and after filtering.
    Filtered { command: String, rtk_command: String, input: String, output: String },
    /// A command whose output was not looked at.
    Passthrough { command: String, rtk_command: String },
}

/// The mathematical counterpart of [`UsageRecord`].
pub enum UsageView {
    Filtered { command: Seq<char>, rtk_command: Seq<char>, input: Seq<char>, output: Seq<char> },
    Passthrough { command: Seq<char>, rtk_command: Seq<char> },
}

impl View for UsageRecord {
    type V = UsageView;

    open spec fn view(&self) -> UsageView {
        match *self {
            UsageRecord::Filtered { command, rtk_command, input, output } => UsageView::Filtered {
                command: command@,
                rtk_command: rtk_command@,
                input: input@,
                output: output@,
            },
            UsageRecord::Passthrough { command, rtk_command } => UsageView::Passthrough {
                command: command@,
                rtk_command: rtk_command@,
            },
        }
    }
}

/// The entry for `label` whose text `input` became `output`.
pub open spec fn usage(label: Seq<char>, input: Seq<char>, output: Seq<char>) -> UsageView {
    UsageView::Filtered { command: label, rtk_command: "rtk "@ + label, input, output }
}

/// The entry for a command that was handed through.
pub open spec fn passthrough_usage(label: Seq<char>) -> UsageView {
    UsageView::Passthrough { command: label, rtk_command: "rtk "@ + label + " (passthrough)"@ }
}

/// Whether `record` is there exactly if it was asked for, and is `expected`.
pub open spec fn recorded(track: bool, record: Option<UsageRecord>, expected: UsageView) -> bool {
    match record {
        Some(record) => track && record@ == expected,
        None => !track,
    }
}

/// The text that is handed to the filter, and held against its result.
pub open spec fn filter_input(result: StreamResult, opts: RunOptions<'_>) -> Seq<char> {
    if opts.filter_stdout_only {
        result.raw_stdout@
    } else {
        result.raw@
    }
}

/// The run whose output is left as it is.
pub open spec fn raw_run(result: StreamResult) -> CapturedView {
    CapturedView {
        stdout: result.raw_stdout@,
        stderr: result.raw_stderr@,
        exit_code: result.exit_code,
        filtered: false,
        stdout_truncated: result.stdout_truncated,
        stderr_truncated: result.stderr_truncated,
    }
}

/// The run whose filter gave `filtered`. The hint counts only where the raw output is kept.
pub open spec fn filtered_run(
    result: StreamResult,
    filtered: Seq<char>,
    hint: Option<Seq<char>>,
    opts: RunOptions<'_>,
) -> CapturedView {
    let body = if opts.tee_label is Some {
        guard::with_hint(filtered, hint)
    } else {
        filtered
    };
    CapturedView {
        stdout: guard::guarded(filter_input(result, opts), body),
        stderr: result.raw_stderr@,
        exit_code: result.exit_code,
        filtered: true,
        stdout_truncated: result.stdout_truncated,
        stderr_truncated: result.stderr_truncated,
    }
}

/// The entry for a command whose text `input` became `output`.
fn usage_of(label: &str, input: &str, output: &str) -> (record: UsageRecord)
    ensures
        record@ == usage(label@, input@, output@),
{
    UsageRecord::Filtered {
        command: label.to_owned(),
        rtk_command: "rtk ".to_owned().concat(label),
        input: input.to_owned(),
        output: output.to_owned(),
    }
}

/// The entry for a command that was handed through.
pub fn passthrough_record(label: &str) -> (record: UsageRecord)
    ensures
        record@ == passthrough_usage(label@),
{
    UsageRecord::Passthrough {
        command: label.to_owned(),
        rtk_command: "rtk ".to_owned().concat(label).concat(" (passthrough)"),
    }
}

/// The run whose output is left as it is, and its entry if it is to be recorded.
fn leave_raw(result: StreamResult, cmd_label: &str, track: bool) -> (captured: (
    CapturedRun,
    Option<UsageRecord>,
))
    ensures
        captured.0@ == raw_run(result),
        recorded(track, captured.1, usage(cmd_label@, result.raw@, result.raw@)),
{
    let record = if track {
        Some(usage_of(cmd_label, result.raw.as_str(), result.raw.as_str()))
    } else {
        None
    };
    let run = CapturedRun {
        stdout: result.raw_stdout,
        stderr: result.raw_stderr,
        exit_code: result.exit_code,
        filtered: false,
        stdout_truncated: result.stdout_truncated,
        stderr_truncated: result.stderr_truncated,
    };
    (run, record)
}

/// The run whose filter gave `filtered`, and its entry if it is to be recorded.
pub fn finish_filtered(
    result: StreamResult,
    filtered: &str,
    hint: Option<&str>,
    cmd_label: &str,
    opts: &RunOptions<'_>,
    track: bool,
) -> (captured: (CapturedRun, Option<UsageRecord>))
    ensures
        captured.0@ == filtered_run(result, filtered@, guard::optional_text(hint), *opts),
        recorded(
            track,
            captured.1,
            usage(cmd_label@, filter_input(result, *opts), captured.0@.stdout),
        ),
{
    let input = if opts.filter_stdout_only {
        result.raw_stdout.as_str()
    } else {
        result.raw.as_str()
    };
    let shown = if opts.tee_label.is_some() {
        emit_guarded(filtered, hint, input)
    } else {
        never_worse(input, filtered).to_owned()
    };
    let record = if track {
        Some(usage_of(cmd_label, input, shown.as_str()))
    } else {
        None
    };
    let run = CapturedRun {
        stdout: shown,
        stderr: result.raw_stderr,
        exit_code: result.exit_code,
        filtered: true,
        stdout_truncated: result.stdout_truncated,
        stderr_truncated: result.stderr_truncated,
    };
    (run, record)
}

/// Filters what a finished command wrote.
///
/// `hint` is what came of keeping the raw output under the label that
/// [`RunOptions::tee_label_for`] gives.
pub fn capture_filtered<F: Fn(&str, i32) -> String>(
    result: StreamResult,
    cmd_label: &str,
    filter_fn: F,
    opts: &RunOptions<'_>,
    track: bool,
    hint: Option<&str>,
) -> (captured: (CapturedRun, Option<UsageRecord>))
    requires
        forall|text: &str, exit_code: i32| #[trigger] filter_fn.requires((text, exit_code)),
    ensures
        opts.leaves_raw(result.exit_code) ==> {
            &&& captured.0@ == raw_run(result)
            &&& recorded(track, captured.1, usage(cmd_label@, result.raw@, result.raw@))
        },
        !opts.leaves_raw(result.exit_code) ==> {
            &&& exists|text: &str, filtered: String|
                {
                    &&& text@ == filter_input(result, *opts)
                    &&& #[trigger] filter_fn.ensures((text, result.exit_code), filtered)
                    &&& captured.0@ == filtered_run(
                        result,
                        filtered@,
                        guard::optional_text(hint),
                        *opts,
                    )
                }
            &&& recorded(
                track,
                captured.1,
                usage(cmd_label@, filter_input(result, *opts), captured.0@.stdout),
            )
        },
{
    if opts.skip_filter_on_failure && result.exit_code != 0 {
        return leave_raw(result, cmd_label, track);
    }
    let exit_code: i32 = result.exit_code;
    let input = if opts.filter_stdout_only {
        result.raw_stdout.as_str()
    } else {
        result.raw.as_str()
    };
    let filtered = filter_fn(input, exit_code);
    finish_filtered(result, filtered.as_str(), hint, cmd_label, opts, track)
}

/// The command line that a run is recorded under.
pub open spec fn label_of(tool_name: Seq<char>, args_display: Seq<char>) -> Seq<char> {
    tool_name + seq![' '] + args_display
}

/// The command line that a run is recorded under.
pub fn command_label(tool_name: &str, args_display: &str) -> (label: String)
    ensures
        label@ == label_of(tool_name@, args_display@),
{
    let mut label = tool_name.to_owned();
    label.push(' ');
    label.append(args_display);
    assert(label@ == label_of(tool_name@, args_display@));
    label
}

/// Filters what a finished command wrote by its text alone, and records it under its command
/// line.
///
/// Recording is opt-in, so that embedding callers do not touch the user's history unasked.
pub fn run_filtered_capture<F: Fn(&str) -> String>(
    result: StreamResult,
    tool_name: &str,
    args_display: &str,
    filter_fn: F,
    opts: &RunOptions<'_>,
    track: bool,
    hint: Option<&str>,
) -> (captured: (CapturedRun, Option<UsageRecord>))
    requires
        forall|text: &str| #[trigger] filter_fn.requires((text,)),
    ensures
        opts.leaves_raw(result.exit_code) ==> {
            &&& captured.0@ == raw_run(result)
            &&& recorded(
                track,
                captured.1,
                usage(label_of(tool_name@, args_display@), result.raw@, result.raw@),
            )
        },
        !opts.leaves_raw(result.exit_code) ==> {
            &&& exists|text: &str, filtered: String|
                {
                    &&& text@ == filter_input(result, *opts)
                    &&& #[trigger] filter_fn.ensures((text,), filtered)
                    &&& captured.0@ == filtered_run(
                        result,
                        filtered@,
                        guard::optional_text(hint),
                        *opts,
                    )
                }
            &&& recorded(
                track,
                captured.1,
                usage(
                    label_of(tool_name@, args_display@),
                    filter_input(result, *opts),
                    captured.0@.stdout,
                ),
            )
        },
{
    let cmd_label = command_label(tool_name, args_display);
    if opts.skip_filter_on_failure && result.exit_code != 0 {
        return leave_raw(result, cmd_label.as_str(), track);
    }
    let input = if opts.filter_stdout_only {
        result.raw_stdout.as_str()
    } else {
        result.raw.as_str()
    };
    let filtered = filter_fn(input);
    finish_filtered(result, filtered.as_str(), hint, cmd_label.as_str(), opts, track)
}

/// What is to be written to this process's own output streams.
#[derive(Debug, Clone, PartialEq, Eq)]
pub struct Printed {
    pub stdout: String,
    pub stderr: String,
}

/// `text`, or nothing where it is blank.
pub open spec fn unless_blank(text: Seq<char>) -> Seq<char> {
    if text::is_blank(text) {
        Seq::empty()
    } else {
        text
    }
}

/// `text` with a newline at its end.
pub open spec fn line(text: Seq<char>) -> Seq<char> {
    text.push('\n')
}

/// What is printed to stdout of a captured run.
pub open spec fn printed_stdout(run: CapturedView, opts: RunOptions<'_>) -> Seq<char> {
    if !run.filtered {
        unless_blank(run.stdout)
    } else if opts.no_trailing_newline {
        run.stdout
    } else {
        line(run.stdout)
    }
}

/// What is printed to stderr of a captured run: only that of a run which was left as it is.
pub open spec fn printed_stderr(run: CapturedView) -> Seq<char> {
    if !run.filtered {
        unless_blank(run.stderr)
    } else {
        Seq::empty()
    }
}

/// A copy of `text`, or nothing where it is blank.
fn copy_unless_blank(text: &str) -> (copy: String)
    ensures
        copy@ == unless_blank(text@),
{
    if blank(text) {
        String::new()
    } else {
        text.to_owned()
    }
}

/// A copy of `text` with a newline at its end.
fn copy_line(text: &str) -> (copy: String)
    ensures
        copy@ == line(text@),
{
    let mut copy = text.to_owned();
    copy.push('\n');
    copy
}

/// What is to be printed of a captured run.
///
/// Raw streams hold their own line endings, and a blank one prints nothing.
pub fn print_captured(result: &CapturedRun, opts: &RunOptions<'_>) -> (printed: Printed)
    ensures
        printed.stdout@ == printed_stdout(result@, *opts),
        printed.stderr@ == printed_stderr(result@),
{
    if !result.filtered {
        return Printed {
            stdout: copy_unless_blank(result.stdout.as_str()),
            stderr: copy_unless_blank(result.stderr.as_str()),
        };
    }
    let stdout = if opts.no_trailing_newline {
        result.stdout.clone()
    } else {
        copy_line(result.stdout.as_str())
    };
    Printed { stdout, stderr: String::new() }
}

/// What becomes of a finished command.
#[derive(Debug, Clone, PartialEq, Eq)]
pub struct RunReport {
    pub printed: Printed,
    pub record: UsageRecord,
    pub exit_code: i32,
}

/// Whether `report` is that of the captured run `run`, whose text `input` it records.
pub open spec fn reports_capture(
    report: RunReport,
    run: CapturedView,
    label: Seq<char>,
    input: Seq<char>,
    output: Seq<char>,
    opts: RunOptions<'_>,
) -> bool {
    &&& report.printed.stdout@ == printed_stdout(run, opts)
    &&& report.printed.stderr@ == printed_stderr(run)
    &&& report.record@ == usage(label, input, output)
    &&& report.exit_code == run.exit_code
}

/// Whether `report` is that of a command whose output `filtered` was filtered at its end.
pub open spec fn reports_filtered(
    report: RunReport,
    result: StreamResult,
    filtered: Seq<char>,
    hint: Option<Seq<char>>,
    label: Seq<char>,
    opts: RunOptions<'_>,
) -> bool {
    let run = filtered_run(result, filtered, hint, opts);
    reports_capture(report, run, label, filter_input(result, opts), run.stdout, opts)
}

/// What is printed of a command that was filtered while it ran: the hint, if any.
pub open spec fn printed_hint(hint: Option<Seq<char>>) -> Seq<char> {
    match hint {
        Some(hint) => line(hint),
        None => Seq::empty(),
    }
}

/// The report of a captured run.
fn report_capture(
    captured: (CapturedRun, Option<UsageRecord>),
    opts: &RunOptions<'_>,
) -> (report: RunReport)
    requires
        captured.1 is Some,
    ensures
        report.printed.stdout@ == printed_stdout(captured.0@, *opts),
        report.printed.stderr@ == printed_stderr(captured.0@),
        Some(report.record) == captured.1,
        report.exit_code == captured.0.exit_code,
{
    let (run, record) = captured;
    RunReport {
        printed: print_captured(&run, opts),
        record: record.unwrap(),
        exit_code: run.exit_code,
    }
}

/// Decides what becomes of a command that finished with `result`: what is printed, what is
/// recorded, and the exit code.
///
/// `hint` is what came of keeping the raw output under the label that [`RunMode::tee_label`]
/// gives.
pub fn run<F: Fn(&str) -> String, G: Fn(&str, i32) -> String, S>(
    tool_name: &str,
    args_display: &str,
    mode: RunMode<F, G, S>,
    opts: &RunOptions<'_>,
    result: StreamResult,
    hint: Option<&str>,
) -> (report: RunReport)
    requires
        mode matches RunMode::Filtered(filter) ==> forall|text: &str| #[trigger]
            filter.requires((text,)),
        mode matches RunMode::FilteredWithExit(filter) ==> forall|text: &str, exit_code: i32|
            #[trigger] filter.requires((text, exit_code)),
    ensures
        report.exit_code == result.exit_code,
        ({
            let label = label_of(tool_name@, args_display@);
            let kept_hint = guard::optional_text(hint);
            match mode {
                RunMode::Filtered(filter) => if opts.leaves_raw(result.exit_code) {
                    reports_capture(
                        report,
                        raw_run(result),
                        label,
                        result.raw@,
                        result.raw@,
                        *opts,
                    )
                } else {
                    exists|text: &str, filtered: String|
                        {
                            &&& text@ == filter_input(result, *opts)
                            &&& #[trigger] filter.ensures((text,), filtered)
                            &&& reports_filtered(
                                report,
                                result,
                                filtered@,
                                kept_hint,
                                label,
                                *opts,
                            )
                        }
                },
                RunMode::FilteredWithExit(filter) => if opts.leaves_raw(result.exit_code) {
                    reports_capture(
                        report,
                        raw_run(result),
                        label,
                        result.raw@,
                        result.raw@,
                        *opts,
                    )
                } else {
                    exists|text: &str, filtered: String|
                        {
                            &&& text@ == filter_input(result, *opts)
                            &&& #[trigger] filter.ensures((text, result.exit_code), filtered)
                            &&& reports_filtered(
                                report,
                                result,
                                filtered@,
                                kept_hint,
                                label,
                                *opts,
                            )
                        }
                },
                RunMode::Streamed(_) => {
                    &&& report.printed.stdout@ == (if opts.tee_label is Some {
                        printed_hint(kept_hint)
                    } else {
                        Seq::empty()
                    })
                    &&& report.printed.stderr@ == Seq::<char>::empty()
                    &&& report.record@ == usage(label, result.raw@, result.filtered@)
                },
                RunMode::Passthrough => {
                    &&& report.printed.stdout@ == Seq::<char>::empty()
                    &&& report.printed.stderr@ == Seq::<char>::empty()
                    &&& report.record@ == passthrough_usage(label)
                },
            }
        }),
{
    let cmd_label = command_label(tool_name, args_display);
    match mode {
        RunMode::Filtered(filter) => report_capture(
            run_filtered_capture(result, tool_name, args_display, filter, opts, true, hint),
            opts,
        ),
        RunMode::FilteredWithExit(filter) => report_capture(
            capture_filtered(result, cmd_label.as_str(), filter, opts, true, hint),
            opts,
        ),
        RunMode::Streamed(_) => {
            let stdout = match hint {
                Some(hint) if opts.tee_label.is_some() => copy_line(hint),
                _ => String::new(),
            };
            RunReport {
                printed: Printed { stdout, stderr: String::new() },
                record: usage_of(
                    cmd_label.as_str(),
                    result.raw.as_str(),
                    result.filtered.as_str(),
                ),
                exit_code: result.exit_code,
            }
        },
        RunMode::Passthrough => RunReport {
            printed: Printed { stdout: String::new(), stderr: String::new() },
            record: passthrough_record(cmd_label.as_str()),
            exit_code: result.exit_code,
        },
    }
}

/// Filtered output never costs more tokens than the text that was filtered.
pub proof fn law_filtered_run_never_costs_more(
    result: StreamResult,
    filtered: Seq<char>,
    hint: Option<Seq<char>>,
    opts: RunOptions<'_>,
)
    ensures
        guard::token_estimate(filtered_run(result, filtered, hint, opts).stdout)
            <= guard::token_estimate(filter_input(result, opts)),
{
}

/// Whether filtered or not, a run keeps the command's exit code, its stderr and the record of
/// what was cut off.
pub proof fn law_filter_changes_only_stdout(
    result: StreamResult,
    filtered: Seq<char>,
    hint: Option<Seq<char>>,
    opts: RunOptions<'_>,
)
    ensures
        filtered_run(result, filtered, hint, opts) == (CapturedView {
            stdout: filtered_run(result, filtered, hint, opts).stdout,
            filtered: true,
            ..raw_run(result)
        }),
{
}

/// The stdout of a filtered run is the filter's text, with the hint behind it where the raw output
/// is kept, unless what was filtered costs strictly fewer tokens.
pub proof fn law_filtered_run_shows_the_filtered_text(
    result: StreamResult,
    filtered: Seq<char>,
    hint: Seq<char>,
    opts: RunOptions<'_>,
)
    ensures
        opts.filter_stdout_only ==> filter_input(result, opts) == result.raw_stdout@,
        !opts.filter_stdout_only ==> filter_input(result, opts) == result.raw@,
        guard::token_estimate(filtered) <= guard::token_estimate(filter_input(result, opts))
            && opts.tee_label is None ==> filtered_run(result, filtered, Some(hint), opts).stdout
            == filtered,
        guard::token_estimate(filtered) <= guard::token_estimate(filter_input(result, opts))
            ==> filtered_run(result, filtered, None, opts).stdout == filtered,
        guard::token_estimate(filtered + seq!['\n'] + hint) <= guard::token_estimate(
            filter_input(result, opts),
        ) && opts.tee_label is Some ==> filtered_run(result, filtered, Some(hint), opts).stdout
            == filtered + seq!['\n'] + hint,
        guard::token_estimate(filtered) > guard::token_estimate(filter_input(result, opts))
            ==> filtered_run(result, filtered, None, opts).stdout == filter_input(result, opts),
{
}

/// A run keeps the command's exit code, its stderr and the record of what was cut off, and one that
/// is left as it is also its stdout. It is left so exactly if that was asked for and it failed.
pub proof fn law_raw_run_keeps_everything(
    result: StreamResult,
    filtered: Seq<char>,
    hint: Option<Seq<char>>,
    opts: RunOptions<'_>,
)
    ensures
        raw_run(result).stdout == result.raw_stdout@,
        raw_run(result).stderr == result.raw_stderr@,
        raw_run(result).exit_code == result.exit_code,
        raw_run(result).stdout_truncated == result.stdout_truncated,
        raw_run(result).stderr_truncated == result.stderr_truncated,
        !raw_run(result).filtered,
        filtered_run(result, filtered, hint, opts).stderr == result.raw_stderr@,
        filtered_run(result, filtered, hint, opts).exit_code == result.exit_code,
        filtered_run(result, filtered, hint, opts).stdout_truncated == result.stdout_truncated,
        filtered_run(result, filtered, hint, opts).stderr_truncated == result.stderr_truncated,
        filtered_run(result, filtered, hint, opts).filtered,
        opts.leaves_raw(result.exit_code) <==> opts.skip_filter_on_failure && result.exit_code != 0,
{
}

/// What is printed of a run: a filtered one prints its stdout, with a newline behind it unless that
/// is switched off, and nothing to stderr; one that is left as it is prints each stream that holds
/// more than white space, unchanged.
pub proof fn law_printed_output_is_that_of_the_run(run: CapturedView, opts: RunOptions<'_>)
    ensures
        run.filtered && opts.no_trailing_newline ==> printed_stdout(run, opts) == run.stdout,
        run.filtered && !opts.no_trailing_newline ==> printed_stdout(run, opts) == run.stdout
            + seq!['\n'],
        run.filtered ==> printed_stderr(run).len() == 0,
        !run.filtered && !text::is_blank(run.stdout) ==> printed_stdout(run, opts) == run.stdout,
        !run.filtered && text::is_blank(run.stdout) ==> printed_stdout(run, opts).len() == 0,
        !run.filtered && !text::is_blank(run.stderr) ==> printed_stderr(run) == run.stderr,
        !run.filtered && text::is_blank(run.stderr) ==> printed_stderr(run).len() == 0,
{
    assert(run.stdout.push('\n') == run.stdout + seq!['\n']);
}

/// An entry tells the command line, the same behind `rtk `, and the text before and after; the
/// command line is the tool, a space and the arguments.
pub proof fn law_entry_tells_the_command(
    tool: Seq<char>,
    args: Seq<char>,
    input: Seq<char>,
    output: Seq<char>,
)
    ensures
        label_of(tool, args).take(tool.len() as int) == tool,
        label_of(tool, args)[tool.len() as int] == ' ',
        label_of(tool, args).skip(tool.len() as int + 1) == args,
        usage(label_of(tool, args), input, output) == (UsageView::Filtered {
            command: label_of(tool, args),
            rtk_command: "rtk "@ + label_of(tool, args),
            input,
            output,
        }),
        passthrough_usage(label_of(tool, args)) == (UsageView::Passthrough {
            command: label_of(tool, args),
            rtk_command: "rtk "@ + label_of(tool, args) + " (passthrough)"@,
        }),
{
    let label = label_of(tool, args);
    assert(label.take(tool.len() as int) == tool);
    assert(label.skip(tool.len() as int + 1) == args);
}

/// An entry is there exactly if it was asked for.
pub proof fn law_entry_is_there_if_asked_for(
    track: bool,
    record: Option<UsageRecord>,
    expected: UsageView,
)
    requires
        recorded(track, record, expected),
    ensures
        record is Some <==> track,
        track ==> record->0@ == expected,
{
}

/// A hint of a command that was filtered while it ran is printed on a line of its own.
pub proof fn law_hint_is_printed_as_a_line(hint: Seq<char>)
    ensures
        printed_hint(None).len() == 0,
        printed_hint(Some(hint)) == hint + seq!['\n'],
{
    assert(hint.push('\n') == hint + seq!['\n']);
}

} // verus!
