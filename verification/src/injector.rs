//! The target-side syscall-faking state machine.
//!
//! It seizes the already-parked target, resumes it, scans its syscalls at
//! syscall granularity, and on the first blocking wait syscall fakes that
//! call's outcome: the syscall number is rewritten to an invalid value so the
//! kernel fails the call immediately, and after the resulting post-syscall
//! stop the return value is rewritten to the interrupted-by-signal code. The
//! target's own retry-on-interruption logic then re-issues the identical
//! call, making the interception invisible to it. Exactly one injection
//! occurs per run: after the first qualifying match the machine never
//! re-enters scanning.
//!
//! The surrounding binary performs the raw process control and feeds every
//! outcome back through the methods below.

use vstd::prelude::*;

use crate::registers::{RegisterSnapshot, INTERRUPTED_RETURN, INVALID_SYSCALL};
use crate::syscalls::spec_injectable;
use crate::syscalls::is_injectable_syscall;

verus! {

/// Where the injector stands in its run.
#[derive(Clone, Copy, PartialEq, Eq, Structural, Debug)]
pub enum InjectorPhase {
    /// The target has not been seized yet.
    Seizing,
    /// The target is seized but still parked; it must be resumed.
    Resuming,
    /// Each syscall stop is inspected for a qualifying blocking wait call.
    Scanning,
    /// A qualifying call's number was rewritten; awaiting the post-syscall
    /// stop to fake the return value.
    Injecting,
    /// The injection is complete; no further scanning occurs.
    Done,
}

/// What the surrounding binary must do next with the target.
#[derive(Clone, Copy, PartialEq, Eq, Structural, Debug)]
pub enum InjectorAction {
    /// Write the snapshot back and resume at syscall granularity: the
    /// qualifying call now carries an invalid number the kernel will refuse.
    RewriteAndAwaitReturn { pid: u64, regs: RegisterSnapshot },
    /// Write the snapshot back: the failed call now reports the
    /// interrupted-by-signal code and the target is parked inside it.
    CompleteInjection { pid: u64, regs: RegisterSnapshot },
    /// Resume at syscall granularity, forwarding the signal if one
    /// accompanied the stop, and keep scanning.
    ResumeScan { pid: u64, signal: Option<i32> },
    /// Nothing further: the injection already completed.
    Idle,
}

/// Rank of a phase along the injector's one-way progression.
pub open spec fn phase_rank(p: InjectorPhase) -> int {
    match p {
        InjectorPhase::Seizing => 0,
        InjectorPhase::Resuming => 1,
        InjectorPhase::Scanning => 2,
        InjectorPhase::Injecting => 3,
        InjectorPhase::Done => 4,
    }
}

/// The injector's state: one target pid and the current phase.
pub struct SyscallInjector {
    /// The one process this run operates on.
    pub target: u64,
    /// Where the run stands.
    pub phase: InjectorPhase,
}

/// The syscall-stop transition: a completed run asks for nothing; while
/// scanning, the first injectable number begins the injection and any other
/// number keeps scanning.
pub open spec fn spec_syscall_step(s: SyscallInjector, regs: RegisterSnapshot) -> (
    SyscallInjector,
    InjectorAction,
) {
    if s.phase == InjectorPhase::Done {
        (s, InjectorAction::Idle)
    } else if spec_injectable(regs.syscall_number) {
        (
            SyscallInjector { phase: InjectorPhase::Injecting, ..s },
            InjectorAction::RewriteAndAwaitReturn {
                pid: s.target,
                regs: RegisterSnapshot {
                    syscall_number: INVALID_SYSCALL,
                    return_value: regs.return_value,
                },
            },
        )
    } else {
        (s, InjectorAction::ResumeScan { pid: s.target, signal: None })
    }
}

/// Exactly one injection occurs per run: once the machine is done, no
/// syscall stop makes it scan, rewrite or resume again — the phase stays
/// final and the step asks for nothing. Together with the phase each handler
/// demands, this rules out re-entering scanning after the first qualifying
/// match.
pub proof fn lemma_injection_is_one_shot(s: SyscallInjector, regs: RegisterSnapshot)
    requires
        s.phase == InjectorPhase::Done,
    ensures
        spec_syscall_step(s, regs).0 == s,
        spec_syscall_step(s, regs).1 == InjectorAction::Idle,
{
}

/// The injector only moves forward: a syscall stop never takes the phase
/// back toward scanning or seizing.
pub proof fn lemma_phase_monotone(s: SyscallInjector, regs: RegisterSnapshot)
    ensures
        phase_rank(spec_syscall_step(s, regs).0.phase) >= phase_rank(s.phase),
{
}

impl SyscallInjector {
    /// A fresh run for one target, which must first be seized.
    pub fn new(target: u64) -> (s: Self)
        ensures
            s.target == target,
            s.phase == InjectorPhase::Seizing,
    {
        SyscallInjector { target, phase: InjectorPhase::Seizing }
    }

    /// The seize of the target succeeded and its initial stop was observed;
    /// the target must now be resumed out of its parked stop.
    pub fn on_seized(&mut self)
        requires
            old(self).phase == InjectorPhase::Seizing,
        ensures
            final(self).phase == InjectorPhase::Resuming,
            final(self).target == old(self).target,
    {
        self.phase = InjectorPhase::Resuming;
    }

    /// The target was resumed at syscall granularity; scanning begins.
    pub fn on_resumed(&mut self)
        requires
            old(self).phase == InjectorPhase::Resuming,
        ensures
            final(self).phase == InjectorPhase::Scanning,
            final(self).target == old(self).target,
    {
        self.phase = InjectorPhase::Scanning;
    }

    /// Handles one syscall stop while scanning (or after completion, where
    /// it asks for nothing). On the first stop whose syscall number lies in
    /// the injectable set, the returned snapshot carries an invalid syscall
    /// number and the machine moves to the injection phase; any other number
    /// is resumed past and scanning continues.
    pub fn on_syscall_stop(&mut self, regs: &RegisterSnapshot) -> (a: InjectorAction)
        requires
            old(self).phase == InjectorPhase::Scanning || old(self).phase == InjectorPhase::Done,
        ensures
            (*final(self), a) == spec_syscall_step(*old(self), *regs),
    {
        if matches!(self.phase, InjectorPhase::Done) {
            InjectorAction::Idle
        } else if is_injectable_syscall(regs.syscall_number) {
            self.phase = InjectorPhase::Injecting;
            let mut faked = *regs;
            faked.invalidate_syscall();
            InjectorAction::RewriteAndAwaitReturn { pid: self.target, regs: faked }
        } else {
            InjectorAction::ResumeScan { pid: self.target, signal: None }
        }
    }

    /// Handles the post-syscall stop of the faked call: the returned
    /// snapshot carries the interrupted-by-signal return code, and the run
    /// is complete.
    pub fn on_injection_return(&mut self, regs: &RegisterSnapshot) -> (a: InjectorAction)
        requires
            old(self).phase == InjectorPhase::Injecting,
        ensures
            final(self).target == old(self).target,
            final(self).phase == InjectorPhase::Done,
            a == (InjectorAction::CompleteInjection {
                pid: old(self).target,
                regs: RegisterSnapshot {
                    syscall_number: regs.syscall_number,
                    return_value: INTERRUPTED_RETURN,
                },
            }),
    {
        self.phase = InjectorPhase::Done;
        let mut faked = *regs;
        faked.fake_interrupted_return();
        InjectorAction::CompleteInjection { pid: self.target, regs: faked }
    }

    /// Handles a lifecycle stop seen while scanning: it is not the injection
    /// point, so the target is resumed at syscall granularity.
    pub fn on_lifecycle_stop(&mut self, pid: u64) -> (a: InjectorAction)
        requires
            old(self).phase == InjectorPhase::Scanning || old(self).phase == InjectorPhase::Done,
        ensures
            *final(self) == *old(self),
            old(self).phase == InjectorPhase::Done ==> a == InjectorAction::Idle,
            old(self).phase == InjectorPhase::Scanning ==> a == (InjectorAction::ResumeScan {
                pid,
                signal: None::<i32>,
            }),
    {
        if matches!(self.phase, InjectorPhase::Done) {
            InjectorAction::Idle
        } else {
            InjectorAction::ResumeScan { pid, signal: None }
        }
    }

    /// Handles a signal stop seen while scanning: the signal is forwarded on
    /// resume so delivery is not disturbed.
    pub fn on_signal_stop(&mut self, pid: u64, signal: i32) -> (a: InjectorAction)
        requires
            old(self).phase == InjectorPhase::Scanning || old(self).phase == InjectorPhase::Done,
        ensures
            *final(self) == *old(self),
            old(self).phase == InjectorPhase::Done ==> a == InjectorAction::Idle,
            old(self).phase == InjectorPhase::Scanning ==> a == (InjectorAction::ResumeScan {
                pid,
                signal: Some(signal),
            }),
    {
        if matches!(self.phase, InjectorPhase::Done) {
            InjectorAction::Idle
        } else {
            InjectorAction::ResumeScan { pid, signal: Some(signal) }
        }
    }
}

} // verus!
