//! Failed executions, classified by whether retrying could repeat side effects.

use crate::capture::{CapturePhase, CaptureRun};
use crate::process::{Interruption, IoFailure, ProcessError};
use crate::text::last_char;
use vstd::prelude::*;

verus! {

/// Why an execution ended before anything was started.
#[derive(Debug, PartialEq, Eq)]
pub enum BeforeStartError {
    Cancelled,
    TimedOut,
    WorkingDirectory(IoFailure),
}

/// Why an execution ended after its command may have started.
#[derive(Debug, PartialEq, Eq)]
pub enum MayHaveStartedKind {
    Cancelled,
    TimedOut,
    Spawn(IoFailure),
    Wait(IoFailure),
    Terminate(IoFailure),
    Capture(IoFailure),
    Filter(String),
}

/// The mathematical counterpart of [`MayHaveStartedKind`].
pub enum KindView {
    Cancelled,
    TimedOut,
    Spawn(IoFailure),
    Wait(IoFailure),
    Terminate(IoFailure),
    Capture(IoFailure),
    Filter(Seq<char>),
}

impl View for MayHaveStartedKind {
    type V = KindView;

    open spec fn view(&self) -> KindView {
        match *self {
            MayHaveStartedKind::Cancelled => KindView::Cancelled,
            MayHaveStartedKind::TimedOut => KindView::TimedOut,
            MayHaveStartedKind::Spawn(error) => KindView::Spawn(error),
            MayHaveStartedKind::Wait(error) => KindView::Wait(error),
            MayHaveStartedKind::Terminate(error) => KindView::Terminate(error),
            MayHaveStartedKind::Capture(error) => KindView::Capture(error),
            MayHaveStartedKind::Filter(message) => KindView::Filter(message@),
        }
    }
}

/// What was captured before an execution failed.
#[derive(Debug, PartialEq, Eq)]
pub struct PartialOutput {
    pub stdout: String,
    pub stderr: String,
    pub stdout_truncated: bool,
    pub stderr_truncated: bool,
}

/// The mathematical counterpart of [`PartialOutput`].
#[verifier::ext_equal]
pub struct PartialView {
    pub stdout: Seq<char>,
    pub stderr: Seq<char>,
    pub stdout_truncated: bool,
    pub stderr_truncated: bool,
}

impl View for PartialOutput {
    type V = PartialView;

    open spec fn view(&self) -> PartialView {
        PartialView {
            stdout: self.stdout@,
            stderr: self.stderr@,
            stdout_truncated: self.stdout_truncated,
            stderr_truncated: self.stderr_truncated,
        }
    }
}

/// No output at all.
pub open spec fn no_output() -> PartialView {
    PartialView {
        stdout: Seq::empty(),
        stderr: Seq::empty(),
        stdout_truncated: false,
        stderr_truncated: false,
    }
}

impl Default for PartialOutput {
    fn default() -> (output: Self)
        ensures
            output@ == no_output(),
    {
        PartialOutput {
            stdout: String::new(),
            stderr: String::new(),
            stdout_truncated: false,
            stderr_truncated: false,
        }
    }
}

/// A failure after which the command may have had effects.
#[derive(Debug, PartialEq, Eq)]
pub struct MayHaveStartedError {
    pub kind: MayHaveStartedKind,
    pub partial_output: PartialOutput,
}

/// A failed execution.
#[derive(Debug, PartialEq, Eq)]
pub enum ExecuteError {
    /// Nothing was started: a retry repeats nothing.
    BeforeStart(BeforeStartError),
    /// A retry could repeat side effects.
    MayHaveStarted(MayHaveStartedError),
}

/// The mathematical counterpart of [`ExecuteError`].
pub enum ErrorView {
    BeforeStart(BeforeStartError),
    MayHaveStarted { kind: KindView, partial: PartialView },
}

impl View for ExecuteError {
    type V = ErrorView;

    open spec fn view(&self) -> ErrorView {
        match *self {
            ExecuteError::BeforeStart(error) => ErrorView::BeforeStart(error),
            ExecuteError::MayHaveStarted(error) => ErrorView::MayHaveStarted {
                kind: error.kind@,
                partial: error.partial_output@,
            },
        }
    }
}

impl BeforeStartError {
    /// What the error says.
    pub open spec fn text(self) -> Seq<char> {
        match self {
            BeforeStartError::Cancelled => "execution was cancelled"@,
            BeforeStartError::TimedOut => "execution timed out"@,
            BeforeStartError::WorkingDirectory(error) =>
                "failed to determine working directory: "@ + error.text(),
        }
    }

    /// What the error says.
    pub fn message(&self) -> (message: String)
        ensures
            message@ == self.text(),
    {
        match self {
            BeforeStartError::Cancelled => "execution was cancelled".to_owned(),
            BeforeStartError::TimedOut => "execution timed out".to_owned(),
            BeforeStartError::WorkingDirectory(error) => {
                "failed to determine working directory: ".to_owned().concat(
                    error.message().as_str(),
                )
            },
        }
    }
}

impl KindView {
    /// What the error says.
    pub open spec fn text(self) -> Seq<char> {
        match self {
            KindView::Cancelled => "execution was cancelled"@,
            KindView::TimedOut => "execution timed out"@,
            KindView::Spawn(error) => "spawn failed: "@ + error.text(),
            KindView::Wait(error) => "wait failed: "@ + error.text(),
            KindView::Terminate(error) => "process-tree termination failed: "@ + error.text(),
            KindView::Capture(error) => "capture failed: "@ + error.text(),
            KindView::Filter(message) => "filter failed: "@ + message,
        }
    }
}

impl MayHaveStartedError {
    /// What the error says.
    pub fn message(&self) -> (message: String)
        ensures
            message@ == self.kind@.text(),
    {
        match &self.kind {
            MayHaveStartedKind::Cancelled => "execution was cancelled".to_owned(),
            MayHaveStartedKind::TimedOut => "execution timed out".to_owned(),
            MayHaveStartedKind::Spawn(error) => {
                "spawn failed: ".to_owned().concat(error.message().as_str())
            },
            MayHaveStartedKind::Wait(error) => {
                "wait failed: ".to_owned().concat(error.message().as_str())
            },
            MayHaveStartedKind::Terminate(error) => {
                "process-tree termination failed: ".to_owned().concat(error.message().as_str())
            },
            MayHaveStartedKind::Capture(error) => {
                "capture failed: ".to_owned().concat(error.message().as_str())
            },
            MayHaveStartedKind::Filter(error) => {
                "filter failed: ".to_owned().concat(error.as_str())
            },
        }
    }
}

impl ErrorView {
    /// What the error says.
    pub open spec fn text(self) -> Seq<char> {
        match self {
            ErrorView::BeforeStart(error) => "command did not start: "@ + error.text(),
            ErrorView::MayHaveStarted { kind, .. } => "command may have started: "@ + kind.text(),
        }
    }
}

impl ExecuteError {
    /// Whether a retry could repeat side effects.
    pub fn may_have_started(&self) -> (started: bool)
        ensures
            started == (self@ is MayHaveStarted),
    {
        match self {
            ExecuteError::MayHaveStarted(_) => true,
            ExecuteError::BeforeStart(_) => false,
        }
    }

    /// What the error says.
    pub fn message(&self) -> (message: String)
        ensures
            message@ == self@.text(),
    {
        match self {
            ExecuteError::BeforeStart(error) => {
                "command did not start: ".to_owned().concat(error.message().as_str())
            },
            ExecuteError::MayHaveStarted(error) => {
                "command may have started: ".to_owned().concat(error.message().as_str())
            },
        }
    }
}

/// The text that a process's bytes stand for: a name for what `String::from_utf8_lossy` makes of
/// them.
pub uninterp spec fn lossy_text(bytes: Seq<u8>) -> Seq<char>;

/// `String::from_utf8_lossy`: the text that `bytes` encode, where valid UTF-8 is taken as it is
/// and the rest replaced. The result depends on the bytes alone; what replaces invalid bytes is
/// left to the name [`lossy_text`].
#[verifier::external_body]
pub(crate) fn decode_process_output(bytes: &[u8]) -> (decoded: String)
    ensures
        decoded@ == lossy_text(bytes@),
        vstd::utf8::valid_utf8(bytes@) ==> decoded@ == vstd::utf8::decode_utf8(bytes@),
{
    String::from_utf8_lossy(bytes).into_owned()
}

/// Whether `text` is what `bytes` read as: their lossy text, and, where they are valid UTF-8, the
/// text that they encode.
pub open spec fn reads_as(bytes: Seq<u8>, text: Seq<char>) -> bool {
    &&& text == lossy_text(bytes)
    &&& vstd::utf8::valid_utf8(bytes) ==> text == vstd::utf8::decode_utf8(bytes)
}

/// Whether the failed execution that `error` makes holds what the command had written before it
/// was stopped.
pub open spec fn keeps_output(error: ProcessError, mapped: ErrorView) -> bool {
    error matches ProcessError::Interrupted { started: true, stdout, stderr, .. } ==> {
        &&& mapped matches ErrorView::MayHaveStarted { partial, .. }
        &&& reads_as(stdout@, partial.stdout)
        &&& reads_as(stderr@, partial.stderr)
    }
}

/// The failure of a command of which nothing was captured.
pub fn may_have_started(kind: MayHaveStartedKind) -> (error: ExecuteError)
    ensures
        error@ == (ErrorView::MayHaveStarted { kind: kind@, partial: no_output() }),
{
    ExecuteError::MayHaveStarted(
        MayHaveStartedError { kind, partial_output: PartialOutput::default() },
    )
}

/// The failure of an interrupted command whose captured output reads `partial`.
pub open spec fn interrupted(
    reason: Interruption,
    started: bool,
    partial: PartialView,
) -> ErrorView {
    match reason {
        Interruption::Cancelled if started => ErrorView::MayHaveStarted {
            kind: KindView::Cancelled,
            partial,
        },
        Interruption::TimedOut if started => ErrorView::MayHaveStarted {
            kind: KindView::TimedOut,
            partial,
        },
        Interruption::Cancelled => ErrorView::BeforeStart(BeforeStartError::Cancelled),
        Interruption::TimedOut => ErrorView::BeforeStart(BeforeStartError::TimedOut),
    }
}

/// The failure of an interrupted command, with its output as text.
pub fn interrupted_error(
    reason: Interruption,
    started: bool,
    partial_output: PartialOutput,
) -> (error: ExecuteError)
    ensures
        error@ == interrupted(reason, started, partial_output@),
{
    if !started {
        return ExecuteError::BeforeStart(
            match reason {
                Interruption::Cancelled => BeforeStartError::Cancelled,
                Interruption::TimedOut => BeforeStartError::TimedOut,
            },
        );
    }
    let kind = match reason {
        Interruption::Cancelled => MayHaveStartedKind::Cancelled,
        Interruption::TimedOut => MayHaveStartedKind::TimedOut,
    };
    ExecuteError::MayHaveStarted(MayHaveStartedError { kind, partial_output })
}

/// The failed execution that a process error makes.
pub open spec fn process_failure(error: ProcessError) -> ErrorView {
    match error {
        ProcessError::Interrupted {
            reason,
            started,
            stdout,
            stderr,
            stdout_truncated,
            stderr_truncated,
        } => interrupted(
            reason,
            started,
            PartialView {
                stdout: lossy_text(stdout@),
                stderr: lossy_text(stderr@),
                stdout_truncated,
                stderr_truncated,
            },
        ),
        ProcessError::Spawn(error) => ErrorView::MayHaveStarted {
            kind: KindView::Spawn(error),
            partial: no_output(),
        },
        ProcessError::Wait(error) => ErrorView::MayHaveStarted {
            kind: KindView::Wait(error),
            partial: no_output(),
        },
        ProcessError::Terminate(error) => ErrorView::MayHaveStarted {
            kind: KindView::Terminate(error),
            partial: no_output(),
        },
        ProcessError::Read(error) => ErrorView::MayHaveStarted {
            kind: KindView::Capture(error),
            partial: no_output(),
        },
    }
}

/// The failed execution that a process error makes.
pub fn map_process_error(error: ProcessError) -> (mapped: ExecuteError)
    ensures
        mapped@ == process_failure(error),
        keeps_output(error, mapped@),
{
    match error {
        ProcessError::Interrupted {
            reason,
            started,
            stdout,
            stderr,
            stdout_truncated,
            stderr_truncated,
        } => interrupted_error(
            reason,
            started,
            PartialOutput {
                stdout: decode_process_output(stdout.as_slice()),
                stderr: decode_process_output(stderr.as_slice()),
                stdout_truncated,
                stderr_truncated,
            },
        ),
        ProcessError::Spawn(error) => may_have_started(MayHaveStartedKind::Spawn(error)),
        ProcessError::Wait(error) => may_have_started(MayHaveStartedKind::Wait(error)),
        ProcessError::Terminate(error) => may_have_started(MayHaveStartedKind::Terminate(error)),
        ProcessError::Read(error) => may_have_started(MayHaveStartedKind::Capture(error)),
    }
}

/// `anyhow::Error`: the failure of a filter, with its causes.
#[verifier::external_type_specification]
#[verifier::external_body]
pub struct ExAnyhowError(anyhow::Error);

/// `anyhow::Error`'s alternate `Display`: the error and its causes on one line. Nothing is
/// claimed of the text, since each cause words itself.
#[verifier::external_body]
fn error_text(error: &anyhow::Error) -> String {
    format!("{:#}", error)
}

/// Why a filtered command gave no result.
#[derive(Debug, PartialEq, Eq)]
pub enum EmbeddedError {
    /// The command itself failed.
    Process(ProcessError),
    /// Something around it failed: the failure and its causes, on one line.
    Other(String),
}

/// Whether `text` is what the one-line display of `error` told.
pub closed spec fn told_by(error: anyhow::Error, text: String) -> bool {
    call_ensures(error_text, (&error,), text)
}

/// Classifies the failure of a filtered command by what looking for a process error in it found.
pub fn embedded_error(found: Result<ProcessError, anyhow::Error>) -> (error: EmbeddedError)
    ensures
        match found {
            Ok(process) => error == EmbeddedError::Process(process),
            Err(other) => error matches EmbeddedError::Other(text) && told_by(other, text),
        },
{
    match found {
        Ok(process) => EmbeddedError::Process(process),
        Err(other) => EmbeddedError::Other(error_text(&other)),
    }
}

/// What is said first of a tool that could not be run.
pub fn run_context(tool_name: &str) -> (context: String)
    ensures
        context@ == "Failed to run "@ + tool_name@,
{
    "Failed to run ".to_owned().concat(tool_name)
}

/// The failed execution that the failure of a filtered command makes.
pub open spec fn embedded_failure(error: EmbeddedError) -> ErrorView {
    match error {
        EmbeddedError::Process(error) => process_failure(error),
        EmbeddedError::Other(text) => ErrorView::MayHaveStarted {
            kind: KindView::Filter(text@),
            partial: no_output(),
        },
    }
}

/// The failed execution that the failure of a filtered command makes.
pub fn map_embedded_error(error: EmbeddedError) -> (mapped: ExecuteError)
    ensures
        mapped@ == embedded_failure(error),
        error matches EmbeddedError::Process(process) ==> keeps_output(process, mapped@),
{
    match error {
        EmbeddedError::Process(error) => map_process_error(error),
        EmbeddedError::Other(text) => may_have_started(MayHaveStartedKind::Filter(text)),
    }
}

/// `output` followed by `next`, which starts on a line of its own.
pub open spec fn chained(output: Seq<char>, next: Seq<char>) -> Seq<char> {
    if next.len() == 0 {
        output
    } else if output.len() > 0 && output.last() != '\n' {
        output + seq!['\n'] + next
    } else {
        output + next
    }
}

/// Appends the output of the next command of a chain.
pub fn append_chain_output(output: &mut String, next: &str)
    ensures
        final(output)@ == chained(old(output)@, next@),
{
    if next.is_empty() {
        return;
    }
    let ghost before = output@;
    match last_char(output.as_str()) {
        Some(last) if last != '\n' => {
            output.push('\n');
        },
        _ => {},
    }
    output.append(next);
    assert(output@ == chained(before, next@));
}

/// The failure of a command behind others of its chain, whose output so far is `earlier`. Once
/// one of them has run, the execution may have had effects.
pub open spec fn enriched(error: ErrorView, executed_any: bool, earlier: PartialView) -> ErrorView {
    if !executed_any {
        error
    } else {
        let (kind, partial) = match error {
            ErrorView::BeforeStart(BeforeStartError::Cancelled) => (
                KindView::Cancelled,
                no_output(),
            ),
            ErrorView::BeforeStart(BeforeStartError::TimedOut) => (KindView::TimedOut, no_output()),
            ErrorView::BeforeStart(BeforeStartError::WorkingDirectory(error)) => (
                KindView::Filter(error.text()),
                no_output(),
            ),
            ErrorView::MayHaveStarted { kind, partial } => (kind, partial),
        };
        ErrorView::MayHaveStarted {
            kind,
            partial: PartialView {
                stdout: chained(earlier.stdout, partial.stdout),
                stderr: chained(earlier.stderr, partial.stderr),
                stdout_truncated: earlier.stdout_truncated || partial.stdout_truncated,
                stderr_truncated: earlier.stderr_truncated || partial.stderr_truncated,
            },
        }
    }
}

/// Adds to the failure of a command what the commands of its chain wrote before it.
pub fn enrich_chain_error(
    error: ExecuteError,
    executed_any: bool,
    stdout: String,
    stderr: String,
    stdout_truncated: bool,
    stderr_truncated: bool,
) -> (enriched_error: ExecuteError)
    ensures
        enriched_error@ == enriched(
            error@,
            executed_any,
            PartialView { stdout: stdout@, stderr: stderr@, stdout_truncated, stderr_truncated },
        ),
{
    if !executed_any {
        return error;
    }
    let error = match error {
        ExecuteError::BeforeStart(error) => MayHaveStartedError {
            kind: match error {
                BeforeStartError::Cancelled => MayHaveStartedKind::Cancelled,
                BeforeStartError::TimedOut => MayHaveStartedKind::TimedOut,
                BeforeStartError::WorkingDirectory(error) => MayHaveStartedKind::Filter(
                    error.message(),
                ),
            },
            partial_output: PartialOutput::default(),
        },
        ExecuteError::MayHaveStarted(error) => error,
    };
    let mut combined_stdout = stdout;
    let mut combined_stderr = stderr;
    append_chain_output(&mut combined_stdout, error.partial_output.stdout.as_str());
    append_chain_output(&mut combined_stderr, error.partial_output.stderr.as_str());
    let partial_output = PartialOutput {
        stdout: combined_stdout,
        stderr: combined_stderr,
        stdout_truncated: stdout_truncated || error.partial_output.stdout_truncated,
        stderr_truncated: stderr_truncated || error.partial_output.stderr_truncated,
    };
    ExecuteError::MayHaveStarted(MayHaveStartedError { kind: error.kind, partial_output })
}

/// A captured command whose failure counts as one before the start was never started, so that a
/// retry repeats nothing.
pub proof fn law_failure_before_start_started_nothing(run: CaptureRun, error: ProcessError)
    requires
        run.well_formed(),
        run.phase == CapturePhase::Done(Err(error)),
        process_failure(error) is BeforeStart,
    ensures
        !run.spawned,
{
}

/// A captured command that was started and then stopped counts as one that may have started, for
/// the reason it was stopped, with the output it had written.
pub proof fn law_stopped_command_keeps_its_output(run: CaptureRun, error: ProcessError)
    requires
        run.well_formed(),
        run.spawned,
        run.phase == CapturePhase::Done(Err(error)),
        error is Interrupted,
    ensures
        error matches ProcessError::Interrupted {
            reason,
            stdout,
            stderr,
            stdout_truncated,
            stderr_truncated,
            ..
        } ==> process_failure(error) == (ErrorView::MayHaveStarted {
            kind: match reason {
                Interruption::Cancelled => KindView::Cancelled,
                Interruption::TimedOut => KindView::TimedOut,
            },
            partial: PartialView {
                stdout: lossy_text(stdout@),
                stderr: lossy_text(stderr@),
                stdout_truncated,
                stderr_truncated,
            },
        }),
{
}

/// Only a failure before the start, with nothing run before it, lets a chain count as not
/// started.
pub proof fn law_chain_failure_before_start_ran_nothing(
    error: ErrorView,
    executed_any: bool,
    earlier: PartialView,
)
    requires
        enriched(error, executed_any, earlier) is BeforeStart,
    ensures
        !executed_any,
        error is BeforeStart,
        enriched(error, executed_any, earlier) == error,
{
}

/// Whether `partial` holds nothing.
pub open spec fn holds_nothing(partial: PartialView) -> bool {
    &&& partial.stdout.len() == 0
    &&& partial.stderr.len() == 0
    &&& !partial.stdout_truncated
    &&& !partial.stderr_truncated
}

/// An interruption keeps its reason and counts as one before the start exactly if the command had
/// not started. What it had written is kept as text, with the record of what was cut off.
pub proof fn law_interruption_keeps_its_reason(error: ProcessError)
    requires
        error is Interrupted,
    ensures
        error matches ProcessError::Interrupted {
            reason,
            started,
            stdout,
            stderr,
            stdout_truncated,
            stderr_truncated,
        } ==> {
            let mapped = process_failure(error);
            &&& mapped is MayHaveStarted <==> started
            &&& !started && reason == Interruption::Cancelled ==> mapped == ErrorView::BeforeStart(
                BeforeStartError::Cancelled,
            )
            &&& !started && reason == Interruption::TimedOut ==> mapped == ErrorView::BeforeStart(
                BeforeStartError::TimedOut,
            )
            &&& mapped matches ErrorView::MayHaveStarted { kind, partial } ==> {
                &&& reason == Interruption::Cancelled ==> kind is Cancelled
                &&& reason == Interruption::TimedOut ==> kind is TimedOut
                &&& partial.stdout == lossy_text(stdout@)
                &&& partial.stderr == lossy_text(stderr@)
                &&& partial.stdout_truncated == stdout_truncated
                &&& partial.stderr_truncated == stderr_truncated
            }
        },
{
}

/// Any other failure counts as one of a command that may have started, with its cause and without
/// output.
pub proof fn law_failure_keeps_its_cause(cause: IoFailure, text: String)
    ensures
        process_failure(ProcessError::Spawn(cause)) matches ErrorView::MayHaveStarted {
            kind,
            partial,
        } && kind == KindView::Spawn(cause) && holds_nothing(partial),
        process_failure(ProcessError::Wait(cause)) matches ErrorView::MayHaveStarted {
            kind,
            partial,
        } && kind == KindView::Wait(cause) && holds_nothing(partial),
        process_failure(ProcessError::Terminate(cause)) matches ErrorView::MayHaveStarted {
            kind,
            partial,
        } && kind == KindView::Terminate(cause) && holds_nothing(partial),
        process_failure(ProcessError::Read(cause)) matches ErrorView::MayHaveStarted {
            kind,
            partial,
        } && kind == KindView::Capture(cause) && holds_nothing(partial),
        embedded_failure(EmbeddedError::Other(text)) matches ErrorView::MayHaveStarted {
            kind,
            partial,
        } && kind == KindView::Filter(text@) && holds_nothing(partial),
{
}

/// The failure of a filtered command that is one of its process is classified as that.
pub proof fn law_process_failure_is_seen_through_a_filter(error: ProcessError)
    ensures
        embedded_failure(EmbeddedError::Process(error)) == process_failure(error),
{
}

/// Once a command of a chain has run, a later failure keeps its kind, counts as one that may have
/// started, and holds the earlier output before its own.
pub proof fn law_chain_failure_keeps_its_kind(error: ErrorView, earlier: PartialView)
    ensures
        enriched(error, false, earlier) == error,
        enriched(error, true, earlier) matches ErrorView::MayHaveStarted { kind, partial } && {
            &&& error == ErrorView::BeforeStart(BeforeStartError::Cancelled) ==> kind is Cancelled
            &&& error == ErrorView::BeforeStart(BeforeStartError::TimedOut) ==> kind is TimedOut
            &&& error matches ErrorView::BeforeStart(BeforeStartError::WorkingDirectory(cause))
                ==> kind == KindView::Filter(cause.text())
            &&& error is BeforeStart ==> {
                &&& partial.stdout == earlier.stdout
                &&& partial.stderr == earlier.stderr
                &&& partial.stdout_truncated == earlier.stdout_truncated
                &&& partial.stderr_truncated == earlier.stderr_truncated
            }
            &&& error matches ErrorView::MayHaveStarted { kind: own_kind, partial: own } ==> {
                &&& kind == own_kind
                &&& earlier.stdout.is_prefix_of(partial.stdout)
                &&& own.stdout.is_suffix_of(partial.stdout)
                &&& earlier.stderr.is_prefix_of(partial.stderr)
                &&& own.stderr.is_suffix_of(partial.stderr)
                &&& partial.stdout.len() <= earlier.stdout.len() + 1 + own.stdout.len()
                &&& partial.stderr.len() <= earlier.stderr.len() + 1 + own.stderr.len()
                &&& partial.stdout_truncated == (earlier.stdout_truncated || own.stdout_truncated)
                &&& partial.stderr_truncated == (earlier.stderr_truncated || own.stderr_truncated)
            }
        },
{
    if let ErrorView::MayHaveStarted { kind, partial: own } = error {
        let stdout = chained(earlier.stdout, own.stdout);
        let stderr = chained(earlier.stderr, own.stderr);
        assert(stdout.skip(stdout.len() - own.stdout.len()) == own.stdout);
        assert(stderr.skip(stderr.len() - own.stderr.len()) == own.stderr);
    }
}

/// Whether `text` is `lead` and then `cause`.
pub open spec fn tells(text: Seq<char>, lead: Seq<char>, cause: Seq<char>) -> bool {
    &&& text.len() == lead.len() + cause.len()
    &&& text.take(lead.len() as int) == lead
    &&& text.skip(lead.len() as int) == cause
}

/// The message of a failed execution says first whether the command may have started, then what
/// failed, and last what its cause says.
pub proof fn law_execution_failure_tells_its_cause(
    cause: IoFailure,
    message: Seq<char>,
    before: BeforeStartError,
    kind: KindView,
    partial: PartialView,
)
    ensures
        tells(
            ErrorView::BeforeStart(before).text(),
            "command did not start: "@,
            before.text(),
        ),
        tells(
            (ErrorView::MayHaveStarted { kind, partial }).text(),
            "command may have started: "@,
            kind.text(),
        ),
        BeforeStartError::Cancelled.text() == "execution was cancelled"@,
        BeforeStartError::TimedOut.text() == "execution timed out"@,
        tells(
            BeforeStartError::WorkingDirectory(cause).text(),
            "failed to determine working directory: "@,
            cause.text(),
        ),
        KindView::Cancelled.text() == "execution was cancelled"@,
        KindView::TimedOut.text() == "execution timed out"@,
        tells(KindView::Spawn(cause).text(), "spawn failed: "@, cause.text()),
        tells(KindView::Wait(cause).text(), "wait failed: "@, cause.text()),
        tells(
            KindView::Terminate(cause).text(),
            "process-tree termination failed: "@,
            cause.text(),
        ),
        tells(KindView::Capture(cause).text(), "capture failed: "@, cause.text()),
        tells(KindView::Filter(message).text(), "filter failed: "@, message),
{
    lemma_tells("command did not start: "@, before.text());
    lemma_tells("command may have started: "@, kind.text());
    lemma_tells("failed to determine working directory: "@, cause.text());
    lemma_tells("spawn failed: "@, cause.text());
    lemma_tells("wait failed: "@, cause.text());
    lemma_tells("process-tree termination failed: "@, cause.text());
    lemma_tells("capture failed: "@, cause.text());
    lemma_tells("filter failed: "@, message);
}

/// What is put together is told.
proof fn lemma_tells(lead: Seq<char>, cause: Seq<char>)
    ensures
        tells(lead + cause, lead, cause),
{
    assert((lead + cause).take(lead.len() as int) == lead);
    assert((lead + cause).skip(lead.len() as int) == cause);
}

} // verus!
