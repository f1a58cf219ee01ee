//! Control of child processes, and what comes out of them.

use std::sync::atomic::{AtomicBool, Ordering};
use std::sync::Arc;
use std::time::Instant;
use vstd::prelude::*;

verus! {

/// The longest pause between two looks at a running child, in nanoseconds.
pub const STATUS_POLL_INTERVAL: u128 = 10_000_000;

/// `std::time::Instant`: a reading of the monotonic clock, carried from the start of an execution
/// to each later look at the clock.
#[verifier::external_type_specification]
#[verifier::external_body]
pub struct ExInstant(std::time::Instant);

/// `Instant::now`: the current reading of the monotonic clock. Nothing is claimed of it.
#[verifier::external_body]
fn clock_now() -> Instant {
    Instant::now()
}

/// `Instant::elapsed`: the nanoseconds since `started`. Nothing is claimed of them.
#[verifier::external_body]
fn nanos_since(started: &Instant) -> u128 {
    started.elapsed().as_nanos()
}

/// A runtime-neutral cancellation signal for an embedded command execution.
///
/// The signal is shared: a clone is the same signal, and any holder can raise it from any thread.
/// What a look finds depends on those threads, so contracts say what the flag told at that look.
#[derive(Debug)]
pub struct CancellationToken {
    cancelled: Arc<AtomicBool>,
}

impl Clone for CancellationToken {
    /// Another handle of the same signal.
    fn clone(&self) -> (same: Self)
        ensures
            same == *self,
    {
        CancellationToken { cancelled: self.cancelled.clone() }
    }
}

impl Default for CancellationToken {
    fn default() -> (token: Self)
        ensures
            token.starts_lowered(),
    {
        CancellationToken::new()
    }
}

impl CancellationToken {
    /// The flag behind the signal was made lowered.
    pub closed spec fn starts_lowered(self) -> bool {
        call_ensures(AtomicBool::new, (false,), *self.cancelled)
    }

    /// The flag behind the signal has been set, for all that look at it later.
    pub closed spec fn was_raised(self) -> bool {
        call_ensures(AtomicBool::store, (&*self.cancelled, true, Ordering::Release), ())
    }

    /// A look at the flag behind the signal told `raised`.
    pub closed spec fn told(self, raised: bool) -> bool {
        call_ensures(AtomicBool::load, (&*self.cancelled, Ordering::Acquire), raised)
    }

    /// A signal that has not been raised.
    pub fn new() -> (token: Self)
        ensures
            token.starts_lowered(),
    {
        CancellationToken { cancelled: Arc::new(AtomicBool::new(false)) }
    }

    /// Raises the signal. It stays raised.
    pub fn cancel(&self)
        ensures
            self.was_raised(),
    {
        self.cancelled.store(true, Ordering::Release);
    }

    /// Whether the signal has been raised.
    pub fn is_cancelled(&self) -> (raised: bool)
        ensures
            self.told(raised),
    {
        self.cancelled.load(Ordering::Acquire)
    }
}

/// Why an execution is stopped from outside.
#[derive(Debug, Clone, Copy, PartialEq, Eq, Structural)]
pub enum Interruption {
    Cancelled,
    TimedOut,
}

/// What bounds an execution: its time, its cancellation signal and the output that is kept.
#[derive(Debug)]
pub struct ProcessControl {
    started: Instant,
    timeout: Option<u128>,
    cancellation: Option<CancellationToken>,
    output_limit: usize,
}

impl Clone for ProcessControl {
    /// The same control: the time is counted from the same start.
    fn clone(&self) -> (same: Self)
        ensures
            same == *self,
    {
        let cancellation = match &self.cancellation {
            Some(token) => Some(token.clone()),
            None => None,
        };
        ProcessControl {
            started: self.started,
            timeout: self.timeout,
            cancellation,
            output_limit: self.output_limit,
        }
    }
}

impl ProcessControl {
    /// The nanoseconds after which the execution is stopped.
    pub closed spec fn timeout(self) -> Option<u128> {
        self.timeout
    }

    /// The signal that stops the execution.
    pub closed spec fn cancellation(self) -> Option<CancellationToken> {
        self.cancellation
    }

    /// The bytes that are kept of each output stream.
    pub closed spec fn limit(self) -> usize {
        self.output_limit
    }

    /// The start is what the clock read when the control was made.
    pub closed spec fn counts_from_a_reading(self) -> bool {
        call_ensures(clock_now, (), self.started)
    }

    /// A look at the clock told that `elapsed` nanoseconds have gone by since the start.
    pub closed spec fn clock_told(self, elapsed: u128) -> bool {
        call_ensures(nanos_since, (&self.started,), elapsed)
    }

    /// A look at the signal told `cancelled`. Without a signal nothing is ever cancelled.
    pub open spec fn signal_told(self, cancelled: bool) -> bool {
        match self.cancellation() {
            Some(token) => token.told(cancelled),
            None => !cancelled,
        }
    }

    /// Whether `due` is the interruption that is due by one look at the signal and one look at
    /// the clock.
    pub open spec fn reports(self, due: Option<Interruption>) -> bool {
        exists|cancelled: bool, elapsed: u128|
            {
                &&& self.signal_told(cancelled)
                &&& self.clock_told(elapsed)
                &&& due == #[trigger] self.interruption_at(cancelled, elapsed)
            }
    }

    /// Whether `pause` is the pause that is due by one look at the clock.
    pub open spec fn pauses(self, pause: u128) -> bool {
        exists|elapsed: u128|
            self.clock_told(elapsed) && pause == #[trigger] self.pause_at(elapsed)
    }

    /// The interruption that is due `elapsed` nanoseconds after the start. A raised signal comes
    /// before the deadline.
    pub open spec fn interruption_at(self, cancelled: bool, elapsed: u128) -> Option<Interruption> {
        if self.cancellation() is Some && cancelled {
            Some(Interruption::Cancelled)
        } else if self.timeout() is Some && elapsed >= self.timeout()->0 {
            Some(Interruption::TimedOut)
        } else {
            None
        }
    }

    /// The pause that is due `elapsed` nanoseconds after the start: the poll interval, or what is
    /// left until the deadline where that is less.
    pub open spec fn pause_at(self, elapsed: u128) -> int {
        match self.timeout() {
            Some(timeout) if timeout <= elapsed => 0,
            Some(timeout) if timeout - elapsed < STATUS_POLL_INTERVAL => timeout - elapsed,
            _ => STATUS_POLL_INTERVAL as int,
        }
    }

    /// A control that counts `timeout`, in nanoseconds, from now on.
    pub fn new(
        timeout: Option<u128>,
        cancellation: Option<CancellationToken>,
        output_limit: usize,
    ) -> (control: Self)
        ensures
            control.timeout() == timeout,
            control.cancellation() == cancellation,
            control.limit() == output_limit,
            control.counts_from_a_reading(),
    {
        ProcessControl { started: clock_now(), timeout, cancellation, output_limit }
    }

    /// The bytes that are kept of each output stream.
    pub fn output_limit(&self) -> (limit: usize)
        ensures
            limit == self.limit(),
    {
        self.output_limit
    }

    /// The interruption that is due `elapsed` nanoseconds after the start, where `cancelled` is
    /// what a look at the signal found.
    pub fn interruption_given(&self, cancelled: bool, elapsed: u128) -> (due: Option<Interruption>)
        ensures
            due == self.interruption_at(cancelled, elapsed),
    {
        if self.cancellation.is_some() && cancelled {
            return Some(Interruption::Cancelled);
        }
        match self.timeout {
            Some(timeout) if elapsed >= timeout => Some(Interruption::TimedOut),
            _ => None,
        }
    }

    /// The interruption that is due now.
    pub fn interruption(&self) -> (due: Option<Interruption>)
        ensures
            exists|cancelled: bool, elapsed: u128| due == #[trigger] self.interruption_at(
                cancelled,
                elapsed,
            ),
            self.reports(due),
    {
        let cancelled = match &self.cancellation {
            Some(token) => token.is_cancelled(),
            None => false,
        };
        let elapsed: u128 = nanos_since(&self.started);
        self.interruption_given(cancelled, elapsed)
    }

    /// The pause, in nanoseconds, that is due `elapsed` nanoseconds after the start.
    pub fn sleep_duration_given(&self, elapsed: u128) -> (pause: u128)
        ensures
            pause == self.pause_at(elapsed),
    {
        match self.timeout {
            Some(timeout) => {
                let left: u128 = if timeout <= elapsed {
                    0
                } else {
                    timeout - elapsed
                };
                if left < STATUS_POLL_INTERVAL {
                    left
                } else {
                    STATUS_POLL_INTERVAL
                }
            },
            None => STATUS_POLL_INTERVAL,
        }
    }

    /// The pause, in nanoseconds, before the next look at a running child.
    pub fn sleep_duration(&self) -> (pause: u128)
        ensures
            exists|elapsed: u128| pause == #[trigger] self.pause_at(elapsed),
            self.pauses(pause),
    {
        let elapsed: u128 = nanos_since(&self.started);
        self.sleep_duration_given(elapsed)
    }
}

/// An input or output operation that failed.
#[derive(Debug, PartialEq, Eq)]
pub enum IoFailure {
    /// The operating system or a library reported it: its error code, if any, and its text.
    Reported { code: Option<i32>, message: String },
    /// It was found here.
    Other(&'static str),
}

impl IoFailure {
    /// What the failure says.
    pub open spec fn text(self) -> Seq<char> {
        match self {
            IoFailure::Reported { code, message } => message@,
            IoFailure::Other(message) => message@,
        }
    }

    /// What the failure says.
    pub fn message(&self) -> (message: String)
        ensures
            message@ == self.text(),
    {
        match self {
            IoFailure::Reported { message, .. } => message.clone(),
            IoFailure::Other(message) => (*message).to_owned(),
        }
    }
}

/// What a command that ran to its end left behind.
#[derive(Debug, PartialEq, Eq)]
pub struct ProcessOutput {
    pub stdout: Vec<u8>,
    pub stderr: Vec<u8>,
    /// The exit code.
    pub status: i32,
    pub stdout_truncated: bool,
    pub stderr_truncated: bool,
}

/// The exit code of a child: its own, or 128 and the number of the signal that ended it.
pub fn status_to_exit_code(code: Option<i32>, signal: Option<i32>) -> (exit_code: i32)
    ensures
        code matches Some(own) ==> exit_code == own,
        code is None && signal is Some && signal->0 <= 0x7fff_ff7f ==> exit_code - 128 == signal->0,
        code is None && signal is None ==> exit_code == 1,
        exit_code == 0 ==> code == Some(0i32) || code is None && signal == Some(-128i32),
        exit_code == (match (code, signal) {
            (Some(code), _) => code as int,
            (None, Some(signal)) if signal + 128 <= i32::MAX => signal + 128,
            _ => 1,
        }),
{
    match (code, signal) {
        (Some(code), _) => code,
        (None, Some(signal)) if signal <= i32::MAX - 128 => signal + 128,
        _ => 1,
    }
}

/// Why a command gave no [`ProcessOutput`].
#[derive(Debug, PartialEq, Eq)]
pub enum ProcessError {
    /// It was stopped, before its start or with the output that it had written so far.
    Interrupted {
        reason: Interruption,
        started: bool,
        stdout: Vec<u8>,
        stderr: Vec<u8>,
        stdout_truncated: bool,
        stderr_truncated: bool,
    },
    Spawn(IoFailure),
    Wait(IoFailure),
    Terminate(IoFailure),
    Read(IoFailure),
}

impl ProcessError {
    /// What the error says.
    pub open spec fn text(self) -> Seq<char> {
        match self {
            ProcessError::Interrupted { reason: Interruption::Cancelled, .. } =>
                "command was cancelled"@,
            ProcessError::Interrupted { reason: Interruption::TimedOut, .. } =>
                "command timed out"@,
            ProcessError::Spawn(error) => "failed to start command: "@ + error.text(),
            ProcessError::Wait(error) => "failed while waiting for command: "@ + error.text(),
            ProcessError::Terminate(error) => "failed to terminate command: "@ + error.text(),
            ProcessError::Read(error) => "failed to capture command output: "@ + error.text(),
        }
    }

    /// What the error says.
    pub fn message(&self) -> (message: String)
        ensures
            message@ == self.text(),
    {
        match self {
            ProcessError::Interrupted { reason: Interruption::Cancelled, .. } =>
                "command was cancelled".to_owned(),
            ProcessError::Interrupted { reason: Interruption::TimedOut, .. } =>
                "command timed out".to_owned(),
            ProcessError::Spawn(error) => {
                "failed to start command: ".to_owned().concat(error.message().as_str())
            },
            ProcessError::Wait(error) => {
                "failed while waiting for command: ".to_owned().concat(error.message().as_str())
            },
            ProcessError::Terminate(error) => {
                "failed to terminate command: ".to_owned().concat(error.message().as_str())
            },
            ProcessError::Read(error) => {
                "failed to capture command output: ".to_owned().concat(error.message().as_str())
            },
        }
    }

    /// The failure behind the error: there is one unless the command was interrupted.
    pub fn source(&self) -> (source: Option<&IoFailure>)
        ensures
            match *self {
                ProcessError::Interrupted { .. } => source is None,
                ProcessError::Spawn(error) => source == Some(&error),
                ProcessError::Wait(error) => source == Some(&error),
                ProcessError::Terminate(error) => source == Some(&error),
                ProcessError::Read(error) => source == Some(&error),
            },
    {
        match self {
            ProcessError::Interrupted { .. } => None,
            ProcessError::Spawn(error) => Some(error),
            ProcessError::Wait(error) => Some(error),
            ProcessError::Terminate(error) => Some(error),
            ProcessError::Read(error) => Some(error),
        }
    }
}

/// A look reports what its own readings of the signal and the clock say: a raised signal is
/// reported as a cancellation, a deadline that has been reached as an interruption, and a control
/// whose signal is lowered and whose deadline is still to come reports nothing.
pub proof fn law_look_reports_what_it_read(control: ProcessControl, due: Option<Interruption>)
    requires
        control.reports(due),
    ensures
        ({
            ||| due == Some(Interruption::Cancelled) && control.cancellation() is Some
                && control.signal_told(true)
            ||| due == Some(Interruption::TimedOut) && control.signal_told(false) && exists|
                elapsed: u128,
            |
                #[trigger] control.clock_told(elapsed) && control.timeout() is Some
                    && control.timeout()->0 <= elapsed
            ||| due is None && control.signal_told(false) && exists|elapsed: u128| #[trigger]
                control.clock_told(elapsed) && (control.timeout() is Some ==> elapsed
                    < control.timeout()->0)
        }),
        control.timeout() is Some && (forall|elapsed: u128| #[trigger]
            control.clock_told(elapsed) ==> control.timeout()->0 <= elapsed) ==> due is Some,
        control.cancellation() is Some && !control.signal_told(false) ==> due == Some(
            Interruption::Cancelled,
        ),
        control.timeout() is None && control.cancellation() is None ==> due is None,
{
    let (cancelled, elapsed) = choose|cancelled: bool, elapsed: u128|
        {
            &&& control.signal_told(cancelled)
            &&& control.clock_told(elapsed)
            &&& due == #[trigger] control.interruption_at(cancelled, elapsed)
        };
    assert(cancelled ==> control.cancellation() is Some);
}

/// What is due follows from the two readings alone, for every pair of them: a raised signal comes
/// first, then the deadline.
pub proof fn law_signal_comes_before_the_deadline(
    control: ProcessControl,
    cancelled: bool,
    elapsed: u128,
)
    ensures
        control.interruption_at(cancelled, elapsed) == Some(Interruption::Cancelled) <==> cancelled
            && control.cancellation() is Some,
        control.interruption_at(cancelled, elapsed) == Some(Interruption::TimedOut) <==> !(cancelled
            && control.cancellation() is Some) && control.timeout() is Some
            && control.timeout()->0 <= elapsed,
{
}

/// Every pause is the poll interval of ten milliseconds, or ends exactly at the deadline, or there
/// is none since the deadline has been reached.
pub proof fn law_pause_is_the_interval_or_what_is_left(control: ProcessControl, elapsed: u128)
    ensures
        control.timeout() is None ==> control.pause_at(elapsed) == 10_000_000,
        control.timeout() is Some && control.timeout()->0 <= elapsed ==> control.pause_at(elapsed)
            == 0,
        control.timeout() is Some && elapsed < control.timeout()->0 <= elapsed + 10_000_000
            ==> elapsed + control.pause_at(elapsed) == control.timeout()->0,
        control.timeout() is Some && elapsed + 10_000_000 <= control.timeout()->0
            ==> control.pause_at(elapsed) == 10_000_000,
{
}

/// The message of a process error ends with what its cause says, and one of an interruption has
/// nothing else to say.
pub proof fn law_message_tells_the_cause(cause: IoFailure, error: ProcessError)
    ensures
        cause matches IoFailure::Reported { message, .. } ==> cause.text() == message@,
        cause matches IoFailure::Other(message) ==> cause.text() == message@,
        (error == ProcessError::Spawn(cause) || error == ProcessError::Wait(cause) || error
            == ProcessError::Terminate(cause) || error == ProcessError::Read(cause)) ==> {
            &&& error.text().skip(error.text().len() - cause.text().len()) == cause.text()
            &&& error.text().take(error.text().len() - cause.text().len()) == (match error {
                ProcessError::Spawn(_) => "failed to start command: "@,
                ProcessError::Wait(_) => "failed while waiting for command: "@,
                ProcessError::Terminate(_) => "failed to terminate command: "@,
                _ => "failed to capture command output: "@,
            })
        },
        error matches ProcessError::Interrupted { reason: Interruption::Cancelled, .. }
            ==> error.text() == "command was cancelled"@,
        error matches ProcessError::Interrupted { reason: Interruption::TimedOut, .. }
            ==> error.text() == "command timed out"@,
{
    let lead = match error {
        ProcessError::Spawn(_) => "failed to start command: "@,
        ProcessError::Wait(_) => "failed while waiting for command: "@,
        ProcessError::Terminate(_) => "failed to terminate command: "@,
        _ => "failed to capture command output: "@,
    };
    let whole = lead + cause.text();
    assert(whole.skip(lead.len() as int) == cause.text());
    assert(whole.take(lead.len() as int) == lead);
}

/// Once an interruption is due it stays due: time only goes on, and a raised signal stays raised.
pub proof fn law_interruption_stays_due(
    control: ProcessControl,
    cancelled: bool,
    elapsed: u128,
    later_cancelled: bool,
    later_elapsed: u128,
)
    requires
        elapsed <= later_elapsed,
        cancelled ==> later_cancelled,
        control.interruption_at(cancelled, elapsed) is Some,
    ensures
        control.interruption_at(later_cancelled, later_elapsed) is Some,
{
}

/// A control without a timeout and without a signal never interrupts.
pub proof fn law_unbounded_execution_is_not_interrupted(
    control: ProcessControl,
    cancelled: bool,
    elapsed: u128,
)
    requires
        control.timeout() is None,
        control.cancellation() is None,
    ensures
        control.interruption_at(cancelled, elapsed) is None,
{
}

/// Without a raised signal the timeout is due exactly from the deadline on, so that an empty one is
/// due at once.
pub proof fn law_timeout_is_due_from_the_deadline_on(control: ProcessControl, elapsed: u128)
    ensures
        control.interruption_at(false, elapsed) == (match control.timeout() {
            Some(timeout) if timeout <= elapsed => Some(Interruption::TimedOut),
            _ => None,
        }),
        control.timeout() == Some(0u128) ==> control.interruption_at(false, elapsed) == Some(
            Interruption::TimedOut,
        ),
{
}

/// A deadline beyond the clock's range is never due, where `range` is the longest time from the
/// start that the clock can tell.
pub proof fn law_deadline_beyond_the_clock_is_never_due(
    control: ProcessControl,
    range: u128,
    cancelled: bool,
    elapsed: u128,
)
    requires
        elapsed <= range,
        control.timeout() matches Some(timeout) ==> timeout > range,
    ensures
        control.interruption_at(cancelled, elapsed) != Some(Interruption::TimedOut),
{
}

/// A pause is never longer than the poll interval and never goes past the deadline, and while no
/// timeout is due it is not empty.
pub proof fn law_pause_ends_by_the_deadline(control: ProcessControl, elapsed: u128)
    ensures
        0 <= control.pause_at(elapsed) <= STATUS_POLL_INTERVAL,
        control.timeout() matches Some(timeout) ==> elapsed < timeout ==> elapsed
            + control.pause_at(elapsed) <= timeout,
        control.interruption_at(false, elapsed) is None ==> control.pause_at(elapsed) > 0,
{
}

} // verus!
