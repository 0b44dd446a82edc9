//! Classification of raw wait-for-process-change reports into the small
//! closed set of events the two tracing state machines consume.
//!
//! The underlying wait primitive can report process forms this design does
//! not target (ordinary exit, termination by signal, continuation, a
//! non-ptrace "still alive" report, or an unrecognized lifecycle code).
//! Those are classified but unsupported: encountering one is fatal, because
//! correctness depends on operating only within the narrow, controlled
//! lifecycle of the watched processes under exclusive supervision.

use vstd::prelude::*;

verus! {

/// Lifecycle code reported with a fork or clone stop.
pub const EVENT_CODE_FORK: i32 = 1;

/// Lifecycle code reported with a vfork stop.
pub const EVENT_CODE_VFORK: i32 = 2;

/// Lifecycle code reported with a clone stop.
pub const EVENT_CODE_CLONE: i32 = 3;

/// Lifecycle code reported with an exec stop.
pub const EVENT_CODE_EXEC: i32 = 4;

/// Lifecycle code reported when a vfork parent resumes.
pub const EVENT_CODE_VFORK_DONE: i32 = 5;

/// Lifecycle code reported before a traced process exits.
pub const EVENT_CODE_EXIT: i32 = 6;

/// Lifecycle code reported on a seccomp-rule stop.
pub const EVENT_CODE_SECCOMP: i32 = 7;

/// Lifecycle code reported on a group stop or interrupt stop.
pub const EVENT_CODE_STOP: i32 = 128;

/// The kind of a lifecycle event a traced process reported.
#[derive(Clone, Copy, PartialEq, Eq, Structural, Debug)]
pub enum LifecycleKind {
    Fork,
    Clone,
    Vfork,
    VforkDone,
    Exec,
    Exit,
    Seccomp,
    Stop,
}

/// One classified change of traced state, consumed by exactly one state
/// machine per pid at a time.
#[derive(Clone, Copy, PartialEq, Eq, Structural, Debug)]
pub enum TracerEvent {
    /// A lifecycle stop (fork, exec, ...), with the signal that accompanied
    /// the stop and the decoded kind.
    Lifecycle { pid: u64, signal: i32, kind: LifecycleKind },
    /// A syscall-entry or syscall-exit stop, tagged distinctly from a signal
    /// stop by the kernel.
    SyscallStop { pid: u64 },
    /// A signal-delivery stop; the signal must be forwarded on resume.
    SignalStop { pid: u64, signal: i32 },
}

/// A raw report from the wait-for-process-change primitive, as plain values.
#[derive(Clone, Copy, PartialEq, Eq, Structural, Debug)]
pub enum WaitReport {
    /// The process exited normally with a status code.
    Exited { pid: u64, status: i32 },
    /// The process was terminated asynchronously by a signal.
    Signaled { pid: u64, signal: i32, core_dumped: bool },
    /// The process stopped on signal delivery.
    Stopped { pid: u64, signal: i32 },
    /// The process stopped at a traced lifecycle event with a raw code.
    TraceEvent { pid: u64, signal: i32, code: i32 },
    /// The process stopped at a syscall boundary (distinctly tagged).
    TraceSyscall { pid: u64 },
    /// The process was resumed by an outside continuation.
    Continued { pid: u64 },
    /// Nothing changed state.
    StillAlive,
}

/// Why a raw report cannot be handled: the narrow assumed process lifecycle
/// was violated.
#[derive(Clone, Copy, PartialEq, Eq, Structural, Debug)]
pub enum UnsupportedShape {
    OrdinaryExit,
    SignalTermination,
    Continuation,
    StillAlive,
    UnknownLifecycleCode,
}

/// The outcome of classifying one raw report: either an event the state
/// machines consume, or a fatal unsupported shape.
#[derive(Clone, Copy, PartialEq, Eq, Structural, Debug)]
pub enum Classified {
    Event(TracerEvent),
    Unsupported(UnsupportedShape),
}

/// Decoding of a raw lifecycle code into a kind; codes outside the known set
/// decode to nothing.
pub open spec fn spec_decode_lifecycle(code: i32) -> Option<LifecycleKind> {
    if code == EVENT_CODE_FORK {
        Some(LifecycleKind::Fork)
    } else if code == EVENT_CODE_VFORK {
        Some(LifecycleKind::Vfork)
    } else if code == EVENT_CODE_CLONE {
        Some(LifecycleKind::Clone)
    } else if code == EVENT_CODE_EXEC {
        Some(LifecycleKind::Exec)
    } else if code == EVENT_CODE_VFORK_DONE {
        Some(LifecycleKind::VforkDone)
    } else if code == EVENT_CODE_EXIT {
        Some(LifecycleKind::Exit)
    } else if code == EVENT_CODE_SECCOMP {
        Some(LifecycleKind::Seccomp)
    } else if code == EVENT_CODE_STOP {
        Some(LifecycleKind::Stop)
    } else {
        None
    }
}

/// Maps a known lifecycle code to its kind; an unrecognized code is refused
/// rather than reinterpreted.
pub fn decode_lifecycle(code: i32) -> (r: Option<LifecycleKind>)
    ensures
        r == spec_decode_lifecycle(code),
{
    if code == EVENT_CODE_FORK {
        Some(LifecycleKind::Fork)
    } else if code == EVENT_CODE_VFORK {
        Some(LifecycleKind::Vfork)
    } else if code == EVENT_CODE_CLONE {
        Some(LifecycleKind::Clone)
    } else if code == EVENT_CODE_EXEC {
        Some(LifecycleKind::Exec)
    } else if code == EVENT_CODE_VFORK_DONE {
        Some(LifecycleKind::VforkDone)
    } else if code == EVENT_CODE_EXIT {
        Some(LifecycleKind::Exit)
    } else if code == EVENT_CODE_SECCOMP {
        Some(LifecycleKind::Seccomp)
    } else if code == EVENT_CODE_STOP {
        Some(LifecycleKind::Stop)
    } else {
        None
    }
}

/// Classification of one raw wait report. Signal stops, distinctly tagged
/// syscall stops and known lifecycle stops become events; every other shape
/// is unsupported and fatal.
pub open spec fn spec_classify(w: WaitReport) -> Classified {
    match w {
        WaitReport::Exited { .. } => Classified::Unsupported(UnsupportedShape::OrdinaryExit),
        WaitReport::Signaled { .. } => Classified::Unsupported(
            UnsupportedShape::SignalTermination,
        ),
        WaitReport::Stopped { pid, signal } => Classified::Event(
            TracerEvent::SignalStop { pid, signal },
        ),
        WaitReport::TraceEvent { pid, signal, code } => match spec_decode_lifecycle(code) {
            Some(kind) => Classified::Event(TracerEvent::Lifecycle { pid, signal, kind }),
            None => Classified::Unsupported(UnsupportedShape::UnknownLifecycleCode),
        },
        WaitReport::TraceSyscall { pid } => Classified::Event(TracerEvent::SyscallStop { pid }),
        WaitReport::Continued { .. } => Classified::Unsupported(UnsupportedShape::Continuation),
        WaitReport::StillAlive => Classified::Unsupported(UnsupportedShape::StillAlive),
    }
}

/// Normalizes one raw wait report into a classified event, or reports the
/// unsupported shape that makes further supervision unsound.
pub fn classify_wait(w: &WaitReport) -> (r: Classified)
    ensures
        r == spec_classify(*w),
{
    match *w {
        WaitReport::Exited { .. } => Classified::Unsupported(UnsupportedShape::OrdinaryExit),
        WaitReport::Signaled { .. } => Classified::Unsupported(
            UnsupportedShape::SignalTermination,
        ),
        WaitReport::Stopped { pid, signal } => Classified::Event(
            TracerEvent::SignalStop { pid, signal },
        ),
        WaitReport::TraceEvent { pid, signal, code } => match decode_lifecycle(code) {
            Some(kind) => Classified::Event(TracerEvent::Lifecycle { pid, signal, kind }),
            None => Classified::Unsupported(UnsupportedShape::UnknownLifecycleCode),
        },
        WaitReport::TraceSyscall { pid } => Classified::Event(TracerEvent::SyscallStop { pid }),
        WaitReport::Continued { .. } => Classified::Unsupported(UnsupportedShape::Continuation),
        WaitReport::StillAlive => Classified::Unsupported(UnsupportedShape::StillAlive),
    }
}

} // verus!
