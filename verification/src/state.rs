//! Tracee lifecycle states and the wait-status outcomes they are read from.

use vstd::prelude::*;

verus! {

/// What one wait on the tracee reported, with process ids dropped and
/// signals as their raw numbers.
#[derive(Clone, Copy, Debug, PartialEq, Eq, Structural)]
pub enum WaitOutcome {
    /// Normal exit with the given code.
    Exited(i32),
    /// Killed by the given signal; the flag says whether a core was dumped.
    Signaled(i32, bool),
    /// Paused by the given signal.
    Stopped(i32),
    /// A ptrace event stop: the signal and the event value.
    PtraceEvent(i32, i32),
    /// A ptrace syscall stop.
    PtraceSyscall,
    /// Resumed by a continue signal.
    Continued,
    /// Nothing to report.
    StillAlive,
}

/// The tracee's lifecycle state as the controller tracks it.
#[derive(Clone, Copy, Debug, PartialEq, Eq, Structural)]
pub enum ProcessState {
    /// Paused by the kernel; the pausing signal's number where one is known.
    Stopped { signal: Option<i32> },
    /// Resumed and running.
    Running,
    /// Exited normally with the given code.
    Exited { exit_code: i32 },
    /// Killed by the given signal.
    Terminated { signal: i32 },
    /// A wait status outside the cases above.
    Unknown { status: WaitOutcome },
}

/// How a wait outcome translates into a lifecycle state.
pub open spec fn state_of_wait(w: WaitOutcome) -> ProcessState {
    match w {
        WaitOutcome::Exited(code) => ProcessState::Exited { exit_code: code },
        WaitOutcome::Signaled(sig, _) => ProcessState::Terminated { signal: sig },
        WaitOutcome::Stopped(sig) => ProcessState::Stopped { signal: Some(sig) },
        _ => ProcessState::Unknown { status: w },
    }
}

impl ProcessState {
    /// Translate a wait outcome into the state it denotes.
    pub fn from_wait(w: WaitOutcome) -> (r: Self)
        ensures
            r == state_of_wait(w),
    {
        match w {
            WaitOutcome::Exited(code) => ProcessState::Exited { exit_code: code },
            WaitOutcome::Signaled(sig, _) => ProcessState::Terminated { signal: sig },
            WaitOutcome::Stopped(sig) => ProcessState::Stopped { signal: Some(sig) },
            _ => ProcessState::Unknown { status: w },
        }
    }

    /// Whether the tracee exited normally.
    pub fn is_exited(&self) -> (r: bool)
        ensures
            r == (self is Exited),
    {
        matches!(self, ProcessState::Exited { .. })
    }

    /// Whether the tracee is running.
    pub fn is_running(&self) -> (r: bool)
        ensures
            r == (self is Running),
    {
        matches!(self, ProcessState::Running)
    }

    /// Whether the tracee is paused.
    pub fn is_stopped(&self) -> (r: bool)
        ensures
            r == (self is Stopped),
    {
        matches!(self, ProcessState::Stopped { .. })
    }

    /// Whether the tracee was killed by a signal.
    pub fn is_terminated(&self) -> (r: bool)
        ensures
            r == (self is Terminated),
    {
        matches!(self, ProcessState::Terminated { .. })
    }
}

/// The signals the controller sends when shutting a tracee down.
#[derive(Clone, Copy, Debug)]
pub enum SignalKind {
    Stop,
    Cont,
    Kill,
}

} // verus!
