//! The register snapshot of a traced process at a stop point.
//!
//! This is the sole channel for reading a syscall number and rewriting a
//! syscall number or return value. The layout assumes the one supported
//! 64-bit architecture, where the syscall number and the return value occupy
//! distinguishable fields of one snapshot readable and writable as a unit.
//! A snapshot is captured, mutated and written back within a single
//! event-handling step; it is never persisted.

use vstd::prelude::*;

verus! {

/// A syscall number no kernel accepts: rewriting the number register to this
/// value makes the kernel fail the call immediately instead of performing it.
pub const INVALID_SYSCALL: u64 = 0xffff_ffff_ffff_ffff;

/// The interrupted-by-signal error code (negated EINTR) as it appears in the
/// return-value register: the traced program's standard retry-on-interruption
/// logic re-issues the identical syscall when it reads this value.
pub const INTERRUPTED_RETURN: u64 = 0xffff_ffff_ffff_fffc;

/// A fixed-layout copy of the fields of a traced process's general-purpose
/// register file that the injection logic reads or rewrites: the syscall
/// number register and the return-value register.
#[derive(Clone, Copy, PartialEq, Eq, Structural, Debug)]
pub struct RegisterSnapshot {
    /// The number of the syscall the process is entering or leaving.
    pub syscall_number: u64,
    /// The value the call returns to the process.
    pub return_value: u64,
}

impl RegisterSnapshot {
    /// Rewrites the syscall-number register to an invalid value, leaving the
    /// return-value register untouched.
    pub fn invalidate_syscall(&mut self)
        ensures
            final(self).syscall_number == INVALID_SYSCALL,
            final(self).return_value == old(self).return_value,
    {
        self.syscall_number = INVALID_SYSCALL;
    }

    /// Rewrites the return-value register to the interrupted-by-signal error
    /// code, leaving the syscall-number register untouched.
    pub fn fake_interrupted_return(&mut self)
        ensures
            final(self).return_value == INTERRUPTED_RETURN,
            final(self).syscall_number == old(self).syscall_number,
    {
        self.return_value = INTERRUPTED_RETURN;
    }
}

} // verus!
