//! Captured commands: bounded output buffers, and the order in which a command is started,
//! watched, stopped and collected.

use crate::process::{Interruption, IoFailure, ProcessError, ProcessOutput};
use vstd::prelude::*;
use vstd::slice::slice_subrange;

verus! {

/// The longest wait for the output of a process group that was told to end, in nanoseconds.
pub const DRAIN_INTERVAL: u128 = 100_000_000;

/// The bytes of `stream` that a limit lets through.
pub open spec fn kept(limit: usize, stream: Seq<u8>) -> Seq<u8> {
    if stream.len() <= limit {
        stream
    } else {
        stream.take(limit as int)
    }
}

/// The start of an output stream, up to a limit. What goes beyond it is dropped, so that a child
/// never blocks on a full pipe.
#[derive(Debug, PartialEq, Eq)]
pub struct OutputBuffer {
    pub limit: usize,
    pub bytes: Vec<u8>,
    pub truncated: bool,
}

/// What is known of an output stream at its end.
#[derive(Debug, PartialEq, Eq)]
pub struct CapturedStream {
    pub bytes: Vec<u8>,
    pub truncated: bool,
}

impl OutputBuffer {
    /// No more bytes than the limit, and all that the limit allows where some were dropped.
    pub open spec fn well_formed(self) -> bool {
        &&& self.bytes@.len() <= self.limit
        &&& self.truncated ==> self.bytes@.len() == self.limit
    }

    /// Whether the buffer is what is kept of `stream`.
    pub open spec fn holds(self, stream: Seq<u8>) -> bool {
        &&& self.bytes@ == kept(self.limit, stream)
        &&& self.truncated == (stream.len() > self.limit)
    }

    /// An empty buffer.
    pub fn new(limit: usize) -> (buffer: Self)
        ensures
            buffer.limit == limit,
            buffer.well_formed(),
            buffer.holds(Seq::empty()),
    {
        OutputBuffer { limit, bytes: Vec::new(), truncated: false }
    }

    /// Takes the next bytes of the stream.
    pub fn absorb(&mut self, chunk: &[u8])
        requires
            old(self).well_formed(),
        ensures
            final(self).well_formed(),
            final(self).limit == old(self).limit,
            final(self).bytes@ == kept(old(self).limit, old(self).bytes@ + chunk@),
            final(self).truncated == (old(self).truncated || old(self).bytes@.len() + chunk@.len()
                > old(self).limit),
            forall|stream: Seq<u8>| #[trigger]
                old(self).holds(stream) ==> final(self).holds(stream + chunk@),
    {
        let ghost before = *self;
        let room: usize = self.limit - self.bytes.len();
        if chunk.len() <= room {
            self.bytes.extend_from_slice(chunk);
            assert(self.bytes@ == before.bytes@ + chunk@);
        } else {
            self.bytes.extend_from_slice(slice_subrange(chunk, 0, room));
            self.truncated = true;
            assert(self.bytes@ == (before.bytes@ + chunk@).take(before.limit as int));
        }
        assert forall|stream: Seq<u8>| #[trigger] before.holds(stream) implies self.holds(
            stream + chunk@,
        ) by {
            law_kept_of_parts(before.limit, stream, chunk@);
        }
    }

    /// What was kept of the stream.
    pub fn finish(self) -> (captured: CapturedStream)
        ensures
            captured.bytes == self.bytes,
            captured.truncated == self.truncated,
    {
        CapturedStream { bytes: self.bytes, truncated: self.truncated }
    }
}

/// What is kept of a stream does not depend on how it comes in parts.
pub proof fn law_kept_of_parts(limit: usize, first: Seq<u8>, second: Seq<u8>)
    ensures
        kept(limit, kept(limit, first) + second) == kept(limit, first + second),
        kept(limit, first + second).len() <= limit,
        kept(limit, first + second).is_prefix_of(first + second),
{
    assert(kept(limit, kept(limit, first) + second) == kept(limit, first + second));
}

/// Why an output stream could not be read to its end.
#[derive(Debug, PartialEq, Eq)]
pub enum ReaderFailure {
    /// The thread that read it panicked.
    Panicked,
    Io(IoFailure),
}

/// What came of both readers: the two streams, or the first failure, stdout's before stderr's.
pub open spec fn collected(
    stdout: Result<CapturedStream, ReaderFailure>,
    stderr: Result<CapturedStream, ReaderFailure>,
) -> Result<(CapturedStream, CapturedStream), IoFailure> {
    match stdout {
        Err(ReaderFailure::Panicked) => Err(IoFailure::Other("stdout reader thread panicked")),
        Err(ReaderFailure::Io(error)) => Err(error),
        Ok(stdout) => match stderr {
            Err(ReaderFailure::Panicked) => Err(IoFailure::Other("stderr reader thread panicked")),
            Err(ReaderFailure::Io(error)) => Err(error),
            Ok(stderr) => Ok((stdout, stderr)),
        },
    }
}

/// Puts the results of both readers together.
pub fn collect_output(
    stdout: Result<CapturedStream, ReaderFailure>,
    stderr: Result<CapturedStream, ReaderFailure>,
) -> (output: Result<(CapturedStream, CapturedStream), ProcessError>)
    ensures
        output == match collected(stdout, stderr) {
            Ok(streams) => Ok::<(CapturedStream, CapturedStream), ProcessError>(streams),
            Err(error) => Err(ProcessError::Read(error)),
        },
{
    let stdout = match stdout {
        Ok(stream) => stream,
        Err(ReaderFailure::Panicked) => {
            return Err(ProcessError::Read(IoFailure::Other("stdout reader thread panicked")));
        },
        Err(ReaderFailure::Io(error)) => {
            return Err(ProcessError::Read(error));
        },
    };
    let stderr = match stderr {
        Ok(stream) => stream,
        Err(ReaderFailure::Panicked) => {
            return Err(ProcessError::Read(IoFailure::Other("stderr reader thread panicked")));
        },
        Err(ReaderFailure::Io(error)) => {
            return Err(ProcessError::Read(error));
        },
    };
    Ok((stdout, stderr))
}

/// What a capture waits for.
#[derive(Debug, PartialEq, Eq)]
pub enum CapturePhase {
    /// A look at the control, before anything is started.
    CheckBeforeStart,
    /// The start of the command, in a process group of its own.
    Spawn,
    /// The output pipes of the child.
    TakePipes,
    /// A look at the child's status.
    Poll,
    /// A look at the control while the child runs.
    CheckControl,
    /// A second look at the status, since the child may have ended before the interruption.
    PollAgain(Interruption),
    /// The end of the complete process group.
    Kill(Interruption),
    /// The status of the killed child.
    Reap(Interruption),
    /// The output of a child that ended by itself, or a look at the control while something that
    /// the child left running still holds a pipe.
    CollectExited(i32),
    /// A pause before the next look at that output.
    Linger(i32),
    /// That output after one more pause, since it may have ended before the interruption.
    CollectAgain(i32, Interruption),
    /// The output of a child that was stopped, for as long as [`DRAIN_INTERVAL`].
    CollectInterrupted(Interruption),
    /// What was read of that output so far, since something outside the process group still holds
    /// a pipe.
    Salvage(Interruption),
    /// A pause before the next look.
    Sleep,
    /// Nothing.
    Done(Result<ProcessOutput, ProcessError>),
}

/// What happened while a capture waited.
#[derive(Debug, PartialEq, Eq)]
pub enum CaptureEvent {
    Control(Option<Interruption>),
    Spawned(Result<(), IoFailure>),
    /// Which of the two pipes the child has.
    Pipes { has_stdout: bool, has_stderr: bool },
    /// The exit code, once the child has ended.
    Status(Result<Option<i32>, IoFailure>),
    Killed(Result<(), IoFailure>),
    Reaped(Result<(), IoFailure>),
    Collected {
        stdout: Result<CapturedStream, ReaderFailure>,
        stderr: Result<CapturedStream, ReaderFailure>,
    },
    /// An output stream has not come to its end.
    Pending,
    Slept,
}

/// A command that is being captured.
#[derive(Debug, PartialEq, Eq)]
pub struct CaptureRun {
    pub phase: CapturePhase,
    /// A child was started.
    pub spawned: bool,
    /// The process group is killed and waited for when the capture is dropped.
    pub guarded: bool,
    /// The group was told to end. If its child had already ended, it may have had no process left.
    pub killed: bool,
    /// The end of the child was seen.
    pub exited: bool,
}

/// Whether `event` is what a capture in `phase` waits for.
pub open spec fn awaits(phase: CapturePhase, event: CaptureEvent) -> bool {
    match phase {
        CapturePhase::CheckBeforeStart => event is Control,
        CapturePhase::Spawn => event is Spawned,
        CapturePhase::TakePipes => event is Pipes,
        CapturePhase::Poll => event is Status,
        CapturePhase::CheckControl => event is Control,
        CapturePhase::PollAgain(_) => event is Status,
        CapturePhase::Kill(_) => event is Killed,
        CapturePhase::Reap(_) => event is Reaped,
        CapturePhase::CollectExited(_) => event is Collected || event is Control,
        CapturePhase::Linger(_) => event is Slept,
        CapturePhase::CollectAgain(..) => event is Collected || event is Pending,
        CapturePhase::CollectInterrupted(_) => event is Collected || event is Pending,
        CapturePhase::Salvage(_) => event is Collected,
        CapturePhase::Sleep => event is Slept,
        CapturePhase::Done(_) => false,
    }
}

/// The capture that failed with `error`, with its guard as it was.
pub open spec fn failed(before: CaptureRun, error: ProcessError) -> CaptureRun {
    CaptureRun { phase: CapturePhase::Done(Err(error)), ..before }
}

/// The capture whose child ended by itself with `code`, once its output is collected.
pub open spec fn ended(
    before: CaptureRun,
    code: i32,
    stdout: Result<CapturedStream, ReaderFailure>,
    stderr: Result<CapturedStream, ReaderFailure>,
) -> CaptureRun {
    match collected(stdout, stderr) {
        Ok((out, err)) => CaptureRun {
            phase: CapturePhase::Done(
                Ok(
                    ProcessOutput {
                        stdout: out.bytes,
                        stderr: err.bytes,
                        status: code,
                        stdout_truncated: out.truncated,
                        stderr_truncated: err.truncated,
                    },
                ),
            ),
            guarded: false,
            ..before
        },
        Err(error) => failed(before, ProcessError::Read(error)),
    }
}

/// The capture whose command was stopped for `reason`, once its output is collected.
pub open spec fn stopped(
    before: CaptureRun,
    reason: Interruption,
    stdout: Result<CapturedStream, ReaderFailure>,
    stderr: Result<CapturedStream, ReaderFailure>,
) -> CaptureRun {
    match collected(stdout, stderr) {
        Ok((out, err)) => CaptureRun {
            phase: CapturePhase::Done(
                Err(
                    ProcessError::Interrupted {
                        reason,
                        started: true,
                        stdout: out.bytes,
                        stderr: err.bytes,
                        stdout_truncated: out.truncated,
                        stderr_truncated: err.truncated,
                    },
                ),
            ),
            guarded: false,
            ..before
        },
        Err(error) => failed(before, ProcessError::Read(error)),
    }
}

/// Whether `run` ended before the start of its command, for `reason`, with no output.
pub open spec fn not_started(run: CaptureRun, reason: Interruption) -> bool {
    match run.phase {
        CapturePhase::Done(Err(ProcessError::Interrupted {
            reason: why,
            started,
            stdout,
            stderr,
            stdout_truncated,
            stderr_truncated,
        })) => {
            &&& why == reason
            &&& !started
            &&& stdout@.len() == 0
            &&& stderr@.len() == 0
            &&& !stdout_truncated
            &&& !stderr_truncated
        },
        _ => false,
    }
}

/// Whether `after` is what becomes of `before` when `event` happens.
pub open spec fn capture_step(before: CaptureRun, event: CaptureEvent, after: CaptureRun) -> bool {
    match (before.phase, event) {
        (CapturePhase::CheckBeforeStart, CaptureEvent::Control(None)) => after == (CaptureRun {
            phase: CapturePhase::Spawn,
            ..before
        }),
        (CapturePhase::CheckBeforeStart, CaptureEvent::Control(Some(reason))) => {
            &&& not_started(after, reason)
            &&& after == (CaptureRun { phase: after.phase, ..before })
        },
        (CapturePhase::Spawn, CaptureEvent::Spawned(Ok(_))) => after == (CaptureRun {
            phase: CapturePhase::TakePipes,
            spawned: true,
            guarded: true,
            ..before
        }),
        (CapturePhase::Spawn, CaptureEvent::Spawned(Err(error))) => after == failed(
            before,
            ProcessError::Spawn(error),
        ),
        (CapturePhase::TakePipes, CaptureEvent::Pipes { has_stdout, has_stderr }) => if !has_stdout {
            after == failed(before, ProcessError::Read(IoFailure::Other("missing child stdout pipe")))
        } else if !has_stderr {
            after == failed(before, ProcessError::Read(IoFailure::Other("missing child stderr pipe")))
        } else {
            after == (CaptureRun { phase: CapturePhase::Poll, ..before })
        },
        (CapturePhase::Poll, CaptureEvent::Status(Ok(None))) => after == (CaptureRun {
            phase: CapturePhase::CheckControl,
            ..before
        }),
        (CapturePhase::CheckControl, CaptureEvent::Control(None)) => after == (CaptureRun {
            phase: CapturePhase::Sleep,
            ..before
        }),
        (CapturePhase::CheckControl, CaptureEvent::Control(Some(reason))) => after == (CaptureRun {
            phase: CapturePhase::PollAgain(reason),
            ..before
        }),
        (CapturePhase::Sleep, CaptureEvent::Slept) => after == (CaptureRun {
            phase: CapturePhase::Poll,
            ..before
        }),
        (CapturePhase::PollAgain(reason), CaptureEvent::Status(Ok(None))) => after == (CaptureRun {
            phase: CapturePhase::Kill(reason),
            ..before
        }),
        (CapturePhase::Poll, CaptureEvent::Status(Ok(Some(code)))) => after == (CaptureRun {
            phase: CapturePhase::CollectExited(code),
            exited: true,
            ..before
        }),
        (CapturePhase::PollAgain(_), CaptureEvent::Status(Ok(Some(code)))) => after == (CaptureRun {
            phase: CapturePhase::CollectExited(code),
            exited: true,
            ..before
        }),
        (CapturePhase::Poll, CaptureEvent::Status(Err(error))) => after == failed(
            before,
            ProcessError::Wait(error),
        ),
        (CapturePhase::PollAgain(_), CaptureEvent::Status(Err(error))) => after == failed(
            before,
            ProcessError::Wait(error),
        ),
        (CapturePhase::Kill(reason), CaptureEvent::Killed(Ok(_))) => after == (CaptureRun {
            phase: if before.exited {
                CapturePhase::CollectInterrupted(reason)
            } else {
                CapturePhase::Reap(reason)
            },
            killed: true,
            ..before
        }),
        (CapturePhase::Kill(reason), CaptureEvent::Killed(Err(error))) => if before.exited {
            after == (CaptureRun {
                phase: CapturePhase::CollectInterrupted(reason),
                killed: true,
                ..before
            })
        } else {
            after == failed(before, ProcessError::Terminate(error))
        },
        (CapturePhase::Reap(reason), CaptureEvent::Reaped(Ok(_))) => after == (CaptureRun {
            phase: CapturePhase::CollectInterrupted(reason),
            exited: true,
            ..before
        }),
        (CapturePhase::Reap(_), CaptureEvent::Reaped(Err(error))) => after == failed(
            before,
            ProcessError::Wait(error),
        ),
        (CapturePhase::CollectExited(code), CaptureEvent::Control(None)) => after == (CaptureRun {
            phase: CapturePhase::Linger(code),
            ..before
        }),
        (CapturePhase::CollectExited(code), CaptureEvent::Control(Some(reason))) => after == (
        CaptureRun { phase: CapturePhase::CollectAgain(code, reason), ..before }),
        (CapturePhase::Linger(code), CaptureEvent::Slept) => after == (CaptureRun {
            phase: CapturePhase::CollectExited(code),
            ..before
        }),
        (CapturePhase::CollectAgain(_, reason), CaptureEvent::Pending) => after == (CaptureRun {
            phase: CapturePhase::Kill(reason),
            ..before
        }),
        (
            CapturePhase::CollectExited(code),
            CaptureEvent::Collected { stdout, stderr },
        ) => after == ended(before, code, stdout, stderr),
        (
            CapturePhase::CollectAgain(code, _),
            CaptureEvent::Collected { stdout, stderr },
        ) => after == ended(before, code, stdout, stderr),
        (CapturePhase::CollectInterrupted(reason), CaptureEvent::Pending) => after == (CaptureRun {
            phase: CapturePhase::Salvage(reason),
            ..before
        }),
        (
            CapturePhase::CollectInterrupted(reason),
            CaptureEvent::Collected { stdout, stderr },
        ) => after == stopped(before, reason, stdout, stderr),
        (
            CapturePhase::Salvage(reason),
            CaptureEvent::Collected { stdout, stderr },
        ) => after == stopped(before, reason, stdout, stderr),
        _ => false,
    }
}

impl CaptureRun {
    /// A capture of which nothing has been done.
    pub fn new() -> (run: Self)
        ensures
            run == (CaptureRun {
                phase: CapturePhase::CheckBeforeStart,
                spawned: false,
                guarded: false,
                killed: false,
                exited: false,
            }),
            run.well_formed(),
    {
        CaptureRun {
            phase: CapturePhase::CheckBeforeStart,
            spawned: false,
            guarded: false,
            killed: false,
            exited: false,
        }
    }

    /// Goes on in `phase`.
    fn entering(self, phase: CapturePhase) -> (run: Self)
        ensures
            run == (CaptureRun { phase, ..self }),
    {
        CaptureRun { phase, ..self }
    }

    /// Ends with `error`. A guard that is there stays, and ends the process group.
    fn failing(self, error: ProcessError) -> (run: Self)
        ensures
            run == failed(self, error),
    {
        CaptureRun { phase: CapturePhase::Done(Err(error)), ..self }
    }

    /// Goes on to the output of a child that ended by itself.
    fn exiting(self, code: i32) -> (run: Self)
        ensures
            run == (CaptureRun { phase: CapturePhase::CollectExited(code), exited: true, ..self }),
    {
        CaptureRun { phase: CapturePhase::CollectExited(code), exited: true, ..self }
    }

    /// Ends with the output of a child that ended by itself.
    fn ending(
        self,
        code: i32,
        stdout: Result<CapturedStream, ReaderFailure>,
        stderr: Result<CapturedStream, ReaderFailure>,
    ) -> (run: Self)
        ensures
            run == ended(self, code, stdout, stderr),
    {
        match collect_output(stdout, stderr) {
            Ok((out, err)) => {
                let output = ProcessOutput {
                    stdout: out.bytes,
                    stderr: err.bytes,
                    status: code,
                    stdout_truncated: out.truncated,
                    stderr_truncated: err.truncated,
                };
                CaptureRun { phase: CapturePhase::Done(Ok(output)), guarded: false, ..self }
            },
            Err(error) => self.failing(error),
        }
    }

    /// Ends with the output of a command that was stopped.
    fn stopping(
        self,
        reason: Interruption,
        stdout: Result<CapturedStream, ReaderFailure>,
        stderr: Result<CapturedStream, ReaderFailure>,
    ) -> (run: Self)
        ensures
            run == stopped(self, reason, stdout, stderr),
    {
        match collect_output(stdout, stderr) {
            Ok((out, err)) => {
                let error = ProcessError::Interrupted {
                    reason,
                    started: true,
                    stdout: out.bytes,
                    stderr: err.bytes,
                    stdout_truncated: out.truncated,
                    stderr_truncated: err.truncated,
                };
                CaptureRun { phase: CapturePhase::Done(Err(error)), guarded: false, ..self }
            },
            Err(error) => self.failing(error),
        }
    }

    /// Takes what a look at the control found.
    fn after_control(self, due: Option<Interruption>) -> (next: Self)
        requires
            awaits(self.phase, CaptureEvent::Control(due)),
        ensures
            capture_step(self, CaptureEvent::Control(due), next),
    {
        match (&self.phase, due) {
            (CapturePhase::CheckBeforeStart, None) => self.entering(CapturePhase::Spawn),
            (CapturePhase::CheckBeforeStart, Some(reason)) => self.failing(
                ProcessError::Interrupted {
                    reason,
                    started: false,
                    stdout: Vec::new(),
                    stderr: Vec::new(),
                    stdout_truncated: false,
                    stderr_truncated: false,
                },
            ),
            (CapturePhase::CollectExited(code), None) => {
                let code: i32 = *code;
                self.entering(CapturePhase::Linger(code))
            },
            (CapturePhase::CollectExited(code), Some(reason)) => {
                let code: i32 = *code;
                self.entering(CapturePhase::CollectAgain(code, reason))
            },
            (_, None) => self.entering(CapturePhase::Sleep),
            (_, Some(reason)) => self.entering(CapturePhase::PollAgain(reason)),
        }
    }

    /// Takes what a look at the child's status found.
    fn after_status(self, status: Result<Option<i32>, IoFailure>) -> (next: Self)
        requires
            awaits(self.phase, CaptureEvent::Status(status)),
        ensures
            capture_step(self, CaptureEvent::Status(status), next),
    {
        match (&self.phase, status) {
            (_, Ok(Some(code))) => self.exiting(code),
            (CapturePhase::PollAgain(reason), Ok(None)) => {
                let reason = *reason;
                self.entering(CapturePhase::Kill(reason))
            },
            (_, Ok(None)) => self.entering(CapturePhase::CheckControl),
            (_, Err(error)) => self.failing(ProcessError::Wait(error)),
        }
    }

    /// Takes what came of telling the process group to end. Once its child has ended, the group
    /// may have no process left, and then cannot be told.
    fn after_kill(self, killed: Result<(), IoFailure>) -> (next: Self)
        requires
            awaits(self.phase, CaptureEvent::Killed(killed)),
        ensures
            capture_step(self, CaptureEvent::Killed(killed), next),
    {
        let reason = match &self.phase {
            CapturePhase::Kill(reason) => *reason,
            _ => {
                return self;
            },
        };
        if self.exited {
            let phase = CapturePhase::CollectInterrupted(reason);
            return CaptureRun { phase, killed: true, ..self };
        }
        match killed {
            Ok(_) => CaptureRun { phase: CapturePhase::Reap(reason), killed: true, ..self },
            Err(error) => self.failing(ProcessError::Terminate(error)),
        }
    }

    /// Takes the status of the killed child.
    fn after_reap(self, reaped: Result<(), IoFailure>) -> (next: Self)
        requires
            awaits(self.phase, CaptureEvent::Reaped(reaped)),
        ensures
            capture_step(self, CaptureEvent::Reaped(reaped), next),
    {
        match (&self.phase, reaped) {
            (CapturePhase::Reap(reason), Ok(_)) => {
                let phase = CapturePhase::CollectInterrupted(*reason);
                CaptureRun { phase, exited: true, ..self }
            },
            (_, Ok(_)) => self,
            (_, Err(error)) => self.failing(ProcessError::Wait(error)),
        }
    }

    /// Takes the collected output.
    fn after_collection(
        self,
        stdout: Result<CapturedStream, ReaderFailure>,
        stderr: Result<CapturedStream, ReaderFailure>,
    ) -> (next: Self)
        requires
            awaits(self.phase, (CaptureEvent::Collected { stdout, stderr })),
        ensures
            capture_step(self, (CaptureEvent::Collected { stdout, stderr }), next),
    {
        match &self.phase {
            CapturePhase::CollectExited(code) | CapturePhase::CollectAgain(code, _) => {
                let code: i32 = *code;
                self.ending(code, stdout, stderr)
            },
            CapturePhase::CollectInterrupted(reason) | CapturePhase::Salvage(reason) => {
                let reason = *reason;
                self.stopping(reason, stdout, stderr)
            },
            _ => self,
        }
    }

    /// Goes on without output that has not come to its end.
    fn after_pending(self) -> (next: Self)
        requires
            awaits(self.phase, CaptureEvent::Pending),
        ensures
            capture_step(self, CaptureEvent::Pending, next),
    {
        match &self.phase {
            CapturePhase::CollectAgain(_, reason) => {
                let reason = *reason;
                self.entering(CapturePhase::Kill(reason))
            },
            CapturePhase::CollectInterrupted(reason) => {
                let reason = *reason;
                self.entering(CapturePhase::Salvage(reason))
            },
            _ => self,
        }
    }

    /// Takes what happened and decides what comes next.
    pub fn advance(self, event: CaptureEvent) -> (next: Self)
        requires
            awaits(self.phase, event),
        ensures
            capture_step(self, event, next),
    {
        match event {
            CaptureEvent::Control(due) => self.after_control(due),
            CaptureEvent::Spawned(Ok(_)) => CaptureRun {
                phase: CapturePhase::TakePipes,
                spawned: true,
                guarded: true,
                ..self
            },
            CaptureEvent::Spawned(Err(error)) => self.failing(ProcessError::Spawn(error)),
            CaptureEvent::Pipes { has_stdout, has_stderr } => if !has_stdout {
                self.failing(ProcessError::Read(IoFailure::Other("missing child stdout pipe")))
            } else if !has_stderr {
                self.failing(ProcessError::Read(IoFailure::Other("missing child stderr pipe")))
            } else {
                self.entering(CapturePhase::Poll)
            },
            CaptureEvent::Status(status) => self.after_status(status),
            CaptureEvent::Killed(killed) => self.after_kill(killed),
            CaptureEvent::Reaped(reaped) => self.after_reap(reaped),
            CaptureEvent::Collected { stdout, stderr } => self.after_collection(stdout, stderr),
            CaptureEvent::Pending => self.after_pending(),
            CaptureEvent::Slept => match &self.phase {
                CapturePhase::Linger(code) => {
                    let code: i32 = *code;
                    self.entering(CapturePhase::CollectExited(code))
                },
                _ => self.entering(CapturePhase::Poll),
            },
        }
    }
}

impl CaptureRun {
    /// What every capture keeps to, from its start to its end.
    pub open spec fn well_formed(self) -> bool {
        &&& self.guarded ==> self.spawned
        &&& self.killed ==> self.spawned
        &&& self.exited ==> self.spawned
        &&& match self.phase {
            CapturePhase::CheckBeforeStart => !self.spawned,
            CapturePhase::Spawn => !self.spawned,
            CapturePhase::Reap(_) => self.guarded && self.killed && !self.exited,
            CapturePhase::Kill(_) => self.guarded && !self.killed,
            CapturePhase::CollectExited(_) => self.guarded && !self.killed && self.exited,
            CapturePhase::Linger(_) => self.guarded && !self.killed && self.exited,
            CapturePhase::CollectAgain(..) => self.guarded && !self.killed && self.exited,
            CapturePhase::CollectInterrupted(_) => self.guarded && self.killed && self.exited,
            CapturePhase::Salvage(_) => self.guarded && self.killed && self.exited,
            CapturePhase::Done(Ok(_)) => self.exited && !self.killed && !self.guarded,
            CapturePhase::Done(Err(ProcessError::Interrupted { started, .. })) => if started {
                self.killed && self.exited && !self.guarded
            } else {
                !self.spawned
            },
            CapturePhase::Done(Err(ProcessError::Spawn(_))) => !self.spawned,
            CapturePhase::Done(Err(_)) => self.guarded,
            _ => self.guarded && !self.killed && !self.exited,
        }
    }
}

/// Every capture is well formed at its start and stays so, whatever happens.
pub proof fn law_capture_stays_well_formed(
    before: CaptureRun,
    event: CaptureEvent,
    after: CaptureRun,
)
    requires
        before.well_formed(),
        capture_step(before, event, after),
    ensures
        after.well_formed(),
{
}

/// A capture that is at its end leaves no child behind: either none was started, or its end was
/// seen, or the guard that ends the process group is still there.
pub proof fn law_capture_leaves_no_child(run: CaptureRun)
    requires
        run.well_formed(),
        run.phase is Done,
    ensures
        !run.spawned || run.exited || run.guarded,
{
}

/// A command that is interrupted before its start was never started, and an interrupted command
/// that was started had its process group told to end and its end seen.
pub proof fn law_interruption_is_classified(run: CaptureRun)
    requires
        run.well_formed(),
        run.phase matches CapturePhase::Done(Err(ProcessError::Interrupted { .. })),
    ensures
        run.phase matches CapturePhase::Done(Err(ProcessError::Interrupted { started, .. })) ==> {
            &&& started == run.spawned
            &&& started ==> run.killed && run.exited
        },
{
}

/// A child that ended before an interruption could stop it counts as ended, with its own exit
/// code and all its output.
pub proof fn law_exit_comes_before_interruption(
    seen: CaptureRun,
    code: i32,
    stdout: CapturedStream,
    stderr: CapturedStream,
    collecting: CaptureRun,
    after: CaptureRun,
)
    requires
        seen.phase is PollAgain,
        capture_step(seen, CaptureEvent::Status(Ok(Some(code))), collecting),
        capture_step(
            collecting,
            CaptureEvent::Collected { stdout: Ok(stdout), stderr: Ok(stderr) },
            after,
        ),
    ensures
        after.phase == CapturePhase::Done(
            Ok(
                ProcessOutput {
                    stdout: stdout.bytes,
                    stderr: stderr.bytes,
                    status: code,
                    stdout_truncated: stdout.truncated,
                    stderr_truncated: stderr.truncated,
                },
            ),
        ),
{
}

/// A command is started at most once: once there was a child, the start is never awaited again.
pub proof fn law_command_starts_at_most_once(
    before: CaptureRun,
    event: CaptureEvent,
    after: CaptureRun,
)
    requires
        before.well_formed(),
        before.spawned,
        capture_step(before, event, after),
    ensures
        after.spawned,
        !(after.phase is Spawn),
{
}

/// How many events a capture in `phase` can still take before its end, if every look at its
/// control finds an interruption.
pub open spec fn events_left(phase: CapturePhase) -> nat {
    match phase {
        CapturePhase::CheckBeforeStart => 12,
        CapturePhase::Spawn => 11,
        CapturePhase::TakePipes => 10,
        CapturePhase::Sleep => 10,
        CapturePhase::Poll => 9,
        CapturePhase::CheckControl => 8,
        CapturePhase::PollAgain(_) => 7,
        CapturePhase::Linger(_) => 7,
        CapturePhase::CollectExited(_) => 6,
        CapturePhase::CollectAgain(..) => 5,
        CapturePhase::Kill(_) => 4,
        CapturePhase::Reap(_) => 3,
        CapturePhase::CollectInterrupted(_) => 2,
        CapturePhase::Salvage(_) => 1,
        CapturePhase::Done(_) => 0,
    }
}

/// An interruption bounds the complete capture, the output of what the child left running
/// included: unless a look at the control finds nothing due, every event brings the capture
/// nearer to its end.
pub proof fn law_due_interruption_ends_the_capture(
    before: CaptureRun,
    event: CaptureEvent,
    after: CaptureRun,
)
    requires
        capture_step(before, event, after),
        event != CaptureEvent::Control(None),
    ensures
        events_left(after.phase) < events_left(before.phase),
{
}

/// A capture pauses only where a look at its control has just found nothing due.
pub proof fn law_pause_follows_a_look_at_the_control(
    before: CaptureRun,
    event: CaptureEvent,
    after: CaptureRun,
)
    requires
        capture_step(before, event, after),
        after.phase is Sleep || after.phase is Linger,
    ensures
        event == CaptureEvent::Control(None),
{
}

/// Once the child has ended by itself, an interruption that finds its output still open ends the
/// capture as that of an interrupted command, with the output read so far, whatever comes of
/// telling the process group to end.
pub proof fn law_interruption_stops_what_the_child_left_running(
    waiting: CaptureRun,
    reason: Interruption,
    killed: Result<(), IoFailure>,
    stdout: CapturedStream,
    stderr: CapturedStream,
    noticed: CaptureRun,
    stopping: CaptureRun,
    draining: CaptureRun,
    drained: CaptureRun,
    salvaging: CaptureRun,
    salvaged: CaptureRun,
)
    requires
        waiting.well_formed(),
        waiting.phase is CollectExited,
        capture_step(waiting, CaptureEvent::Control(Some(reason)), noticed),
        capture_step(noticed, CaptureEvent::Pending, stopping),
        capture_step(stopping, CaptureEvent::Killed(killed), draining),
        capture_step(
            draining,
            CaptureEvent::Collected { stdout: Ok(stdout), stderr: Ok(stderr) },
            drained,
        ),
        capture_step(draining, CaptureEvent::Pending, salvaging),
        capture_step(
            salvaging,
            CaptureEvent::Collected { stdout: Ok(stdout), stderr: Ok(stderr) },
            salvaged,
        ),
    ensures
        drained == salvaged,
        drained.killed,
        drained.phase == CapturePhase::Done(
            Err(
                ProcessError::Interrupted {
                    reason,
                    started: true,
                    stdout: stdout.bytes,
                    stderr: stderr.bytes,
                    stdout_truncated: stdout.truncated,
                    stderr_truncated: stderr.truncated,
                },
            ),
        ),
{
}

/// Whether `runs` are the states of a capture from its start on, and `events` what happened
/// between them.
pub open spec fn is_capture(runs: Seq<CaptureRun>, events: Seq<CaptureEvent>) -> bool {
    &&& runs.len() == events.len() + 1
    &&& runs[0] == (CaptureRun {
        phase: CapturePhase::CheckBeforeStart,
        spawned: false,
        guarded: false,
        killed: false,
        exited: false,
    })
    &&& forall|i: int|
        0 <= i < events.len() ==> capture_step(runs[i], #[trigger] events[i], runs[i + 1])
}

/// Whether the child was seen to end with `code`.
pub open spec fn reported_exit(events: Seq<CaptureEvent>, code: i32) -> bool {
    exists|i: int|
        0 <= i < events.len() && #[trigger] events[i] == CaptureEvent::Status(Ok(Some(code)))
}

/// Whether the control was seen to interrupt for `reason`.
pub open spec fn reported_interruption(
    events: Seq<CaptureEvent>,
    reason: Interruption,
) -> bool {
    exists|i: int|
        0 <= i < events.len() && #[trigger] events[i] == CaptureEvent::Control(Some(reason))
}

/// Whether what `phase` says of exit codes and interruptions was reported.
pub open spec fn was_reported(events: Seq<CaptureEvent>, phase: CapturePhase) -> bool {
    match phase {
        CapturePhase::PollAgain(reason) => reported_interruption(events, reason),
        CapturePhase::Kill(reason) => reported_interruption(events, reason),
        CapturePhase::Reap(reason) => reported_interruption(events, reason),
        CapturePhase::CollectInterrupted(reason) => reported_interruption(events, reason),
        CapturePhase::Salvage(reason) => reported_interruption(events, reason),
        CapturePhase::CollectExited(code) => reported_exit(events, code),
        CapturePhase::Linger(code) => reported_exit(events, code),
        CapturePhase::CollectAgain(code, reason) => reported_exit(events, code)
            && reported_interruption(events, reason),
        CapturePhase::Done(Ok(output)) => reported_exit(events, output.status),
        CapturePhase::Done(Err(ProcessError::Interrupted { reason, .. })) => reported_interruption(
            events,
            reason,
        ),
        _ => true,
    }
}

/// Every state of every capture is well formed, and a capture ends with an exit code that its
/// child reported or an interruption that its control reported, and no other.
pub proof fn law_capture_reports_what_happened(
    runs: Seq<CaptureRun>,
    events: Seq<CaptureEvent>,
)
    requires
        is_capture(runs, events),
    ensures
        runs.last().well_formed(),
        was_reported(events, runs.last().phase),
    decreases events.len(),
{
    if events.len() > 0 {
        let last = events.len() - 1;
        let earlier = events.drop_last();
        let before = runs[last];
        let after = runs[last + 1];
        assert forall|i: int| 0 <= i < earlier.len() implies capture_step(
            runs.drop_last()[i],
            #[trigger] earlier[i],
            runs.drop_last()[i + 1],
        ) by {
            assert(earlier[i] == events[i]);
        }
        law_capture_reports_what_happened(runs.drop_last(), earlier);
        assert(runs.drop_last().last() == before);
        assert(capture_step(before, events[last], after));
        law_capture_stays_well_formed(before, events[last], after);
        assert forall|code: i32| reported_exit(earlier, code) implies reported_exit(
            events,
            code,
        ) by {
            let i = choose|i: int|
                0 <= i < earlier.len() && #[trigger] earlier[i] == CaptureEvent::Status(
                    Ok(Some(code)),
                );
            assert(events[i] == earlier[i]);
        }
        assert forall|reason: Interruption| reported_interruption(
            earlier,
            reason,
        ) implies reported_interruption(events, reason) by {
            let i = choose|i: int|
                0 <= i < earlier.len() && #[trigger] earlier[i] == CaptureEvent::Control(
                    Some(reason),
                );
            assert(events[i] == earlier[i]);
        }
    }
}

/// A limit keeps the start of a stream: all of it where it fits, and otherwise exactly as many bytes
/// as the limit allows. A buffer says that something is missing exactly if something is.
pub proof fn law_limit_keeps_the_start(buffer: OutputBuffer, stream: Seq<u8>)
    ensures
        kept(buffer.limit, stream).is_prefix_of(stream),
        stream.len() <= buffer.limit ==> kept(buffer.limit, stream) == stream,
        stream.len() > buffer.limit ==> kept(buffer.limit, stream).len() == buffer.limit,
        buffer.holds(stream) ==> {
            &&& buffer.bytes@.is_prefix_of(stream)
            &&& buffer.truncated <==> buffer.bytes@.len() < stream.len()
            &&& buffer.truncated ==> buffer.bytes@.len() == buffer.limit
            &&& !buffer.truncated ==> buffer.bytes@ == stream
        },
{
}

/// Both streams are collected as they were read, and the first failure is reported, stdout's before
/// stderr's.
pub proof fn law_collection_is_what_was_read(
    out: CapturedStream,
    err: CapturedStream,
    failure: ReaderFailure,
    other: Result<CapturedStream, ReaderFailure>,
)
    ensures
        collected(Ok(out), Ok(err)) == Ok::<(CapturedStream, CapturedStream), IoFailure>((out, err)),
        collected(Err(failure), other) is Err,
        collected(Ok(out), Err(failure)) is Err,
        failure matches ReaderFailure::Io(cause) ==> {
            &&& collected(Err(failure), other) == Err::<
                (CapturedStream, CapturedStream),
                IoFailure,
            >(cause)
            &&& collected(Ok(out), Err(failure)) == Err::<
                (CapturedStream, CapturedStream),
                IoFailure,
            >(cause)
        },
        failure is Panicked ==> {
            &&& collected(Err(failure), other) == Err::<
                (CapturedStream, CapturedStream),
                IoFailure,
            >(IoFailure::Other("stdout reader thread panicked"))
            &&& collected(Ok(out), Err(failure)) == Err::<
                (CapturedStream, CapturedStream),
                IoFailure,
            >(IoFailure::Other("stderr reader thread panicked"))
        },
{
}

/// Whether the bytes and flags are those of the two streams.
pub open spec fn is_output_of(
    out: CapturedStream,
    err: CapturedStream,
    stdout: Vec<u8>,
    stderr: Vec<u8>,
    stdout_truncated: bool,
    stderr_truncated: bool,
) -> bool {
    &&& stdout == out.bytes
    &&& stderr == err.bytes
    &&& stdout_truncated == out.truncated
    &&& stderr_truncated == err.truncated
}

/// A capture comes to an end in two ways with output, and both hand out exactly the streams that
/// were collected: with the exit code of a child that ended by itself, or with the reason for which
/// a started command was stopped.
pub proof fn law_outcome_is_what_was_collected(
    before: CaptureRun,
    event: CaptureEvent,
    after: CaptureRun,
)
    requires
        before.well_formed(),
        capture_step(before, event, after),
    ensures
        after.phase matches CapturePhase::Done(Ok(output)) ==> {
            &&& event matches CaptureEvent::Collected { stdout: Ok(out), stderr: Ok(err) }
            &&& is_output_of(
                out,
                err,
                output.stdout,
                output.stderr,
                output.stdout_truncated,
                output.stderr_truncated,
            )
            &&& before.phase == CapturePhase::CollectExited(output.status) || (
            before.phase matches CapturePhase::CollectAgain(code, _) && code == output.status)
        },
        after.phase matches CapturePhase::Done(
            Err(
                ProcessError::Interrupted {
                    reason,
                    started,
                    stdout,
                    stderr,
                    stdout_truncated,
                    stderr_truncated,
                },
            ),
        ) ==> {
            &&& started == before.spawned
            &&& started ==> (event matches CaptureEvent::Collected {
                stdout: Ok(out),
                stderr: Ok(err),
            } && is_output_of(out, err, stdout, stderr, stdout_truncated, stderr_truncated)) && (
            before.phase == CapturePhase::CollectInterrupted(reason) || before.phase
                == CapturePhase::Salvage(reason))
            &&& !started ==> {
                &&& event == CaptureEvent::Control(Some(reason))
                &&& stdout@.len() == 0
                &&& stderr@.len() == 0
                &&& !stdout_truncated
                &&& !stderr_truncated
            }
        },
{
}

/// A capture fails only with what failed: the start, a look at the child or the wait for it, the end
/// of the process group, or the reading of its output.
pub proof fn law_failure_is_what_failed(
    before: CaptureRun,
    event: CaptureEvent,
    after: CaptureRun,
)
    requires
        before.well_formed(),
        capture_step(before, event, after),
    ensures
        event matches CaptureEvent::Spawned(Err(cause)) ==> after.phase == CapturePhase::Done(
            Err(ProcessError::Spawn(cause)),
        ),
        event matches CaptureEvent::Status(Err(cause)) ==> after.phase == CapturePhase::Done(
            Err(ProcessError::Wait(cause)),
        ),
        event matches CaptureEvent::Reaped(Err(cause)) ==> after.phase == CapturePhase::Done(
            Err(ProcessError::Wait(cause)),
        ),
        event matches CaptureEvent::Killed(Err(cause)) ==> !before.exited ==> after.phase
            == CapturePhase::Done(Err(ProcessError::Terminate(cause))),
        event matches CaptureEvent::Collected { stdout: Err(ReaderFailure::Io(cause)), .. }
            ==> after.phase == CapturePhase::Done(Err(ProcessError::Read(cause))),
        event matches CaptureEvent::Pipes { has_stdout, has_stderr } ==> {
            &&& has_stdout && has_stderr ==> after.phase is Poll
            &&& !has_stdout ==> after.phase == CapturePhase::Done(
                Err(ProcessError::Read(IoFailure::Other("missing child stdout pipe"))),
            )
            &&& has_stdout && !has_stderr ==> after.phase == CapturePhase::Done(
                Err(ProcessError::Read(IoFailure::Other("missing child stderr pipe"))),
            )
        },
        after.phase matches CapturePhase::Done(Err(error)) ==> {
            &&& error is Spawn ==> event is Spawned
            &&& error is Wait ==> event is Status || event is Reaped
            &&& error is Terminate ==> event is Killed
            &&& error is Read ==> event is Collected || event is Pipes
        },
{
}

/// A command is started exactly after a look at the control that found nothing due, and an
/// interruption that comes first ends the capture with nothing started.
pub proof fn law_start_follows_a_free_look(
    before: CaptureRun,
    due: Option<Interruption>,
    after: CaptureRun,
)
    requires
        before.phase is CheckBeforeStart,
        before.well_formed(),
        capture_step(before, CaptureEvent::Control(due), after),
    ensures
        !after.spawned,
        due is None <==> after.phase is Spawn,
        due matches Some(reason) ==> not_started(after, reason),
{
}

/// While the child runs, an interruption that is due leads to the end of the complete process group,
/// to the wait for the child, and to an outcome with that reason and what the child had written.
pub proof fn law_interruption_stops_a_running_command(
    looking: CaptureRun,
    reason: Interruption,
    stdout: CapturedStream,
    stderr: CapturedStream,
    again: CaptureRun,
    killing: CaptureRun,
    reaping: CaptureRun,
    collecting: CaptureRun,
    after: CaptureRun,
)
    requires
        looking.well_formed(),
        looking.phase is CheckControl,
        capture_step(looking, CaptureEvent::Control(Some(reason)), again),
        capture_step(again, CaptureEvent::Status(Ok(None)), killing),
        capture_step(killing, CaptureEvent::Killed(Ok(())), reaping),
        capture_step(reaping, CaptureEvent::Reaped(Ok(())), collecting),
        capture_step(
            collecting,
            CaptureEvent::Collected { stdout: Ok(stdout), stderr: Ok(stderr) },
            after,
        ),
    ensures
        killing.phase is Kill,
        reaping.phase is Reap,
        reaping.killed,
        collecting.exited,
        after.phase matches CapturePhase::Done(
            Err(
                ProcessError::Interrupted {
                    reason: why,
                    started,
                    stdout: out,
                    stderr: err,
                    stdout_truncated,
                    stderr_truncated,
                },
            ),
        ) && {
            &&& why == reason
            &&& started
            &&& is_output_of(stdout, stderr, out, err, stdout_truncated, stderr_truncated)
        },
{
}

/// Without an interruption nothing is killed: a child that is still running is looked at again after
/// a pause, and one that has ended is collected.
pub proof fn law_only_an_interruption_kills(
    before: CaptureRun,
    event: CaptureEvent,
    after: CaptureRun,
)
    requires
        before.well_formed(),
        capture_step(before, event, after),
    ensures
        after.phase matches CapturePhase::Kill(reason) ==> before.phase == CapturePhase::PollAgain(
            reason,
        ) || (before.phase matches CapturePhase::CollectAgain(_, why) && why == reason),
        after.phase matches CapturePhase::PollAgain(reason) ==> event == CaptureEvent::Control(
            Some(reason),
        ),
        after.phase matches CapturePhase::CollectAgain(_, reason) ==> event
            == CaptureEvent::Control(Some(reason)),
        event == CaptureEvent::Control(None) && before.phase is CheckControl ==> after.phase
            is Sleep,
        event is Slept ==> after.phase is Poll || after.phase is CollectExited,
        event matches CaptureEvent::Status(Ok(Some(code))) ==> after.phase
            == CapturePhase::CollectExited(code),
        event matches CaptureEvent::Status(Ok(None)) ==> before.phase is Poll ==> after.phase
            is CheckControl,
        event matches CaptureEvent::Spawned(Ok(_)) ==> after.phase is TakePipes && after.guarded
            && after.spawned,
{
}

} // verus!
