//! Classification of syscall numbers for the injection point.
//!
//! The zygote's main loop blocks in one of the wait-for-event syscalls;
//! those are the only points where its execution can be redirected without
//! corrupting application state. The numbers are those of the one supported
//! 64-bit architecture (x86-64).

use vstd::prelude::*;

verus! {

/// x86-64 syscall number of `poll`.
pub const SYS_POLL: u64 = 7;

/// x86-64 syscall number of `select`.
pub const SYS_SELECT: u64 = 23;

/// x86-64 syscall number of `epoll_wait_old`.
pub const SYS_EPOLL_WAIT_OLD: u64 = 215;

/// x86-64 syscall number of `epoll_wait`.
pub const SYS_EPOLL_WAIT: u64 = 232;

/// x86-64 syscall number of `pselect6`.
pub const SYS_PSELECT6: u64 = 270;

/// x86-64 syscall number of `ppoll`.
pub const SYS_PPOLL: u64 = 271;

/// x86-64 syscall number of `epoll_pwait`.
pub const SYS_EPOLL_PWAIT: u64 = 281;

/// The injectable set: exactly the seven blocking wait-for-event syscalls.
pub open spec fn spec_injectable(n: u64) -> bool {
    n == SYS_SELECT || n == SYS_PSELECT6 || n == SYS_POLL || n == SYS_PPOLL
        || n == SYS_EPOLL_WAIT || n == SYS_EPOLL_WAIT_OLD || n == SYS_EPOLL_PWAIT
}

/// Returns true for exactly the seven blocking wait syscalls and false for
/// every other syscall number.
pub fn is_injectable_syscall(n: u64) -> (r: bool)
    ensures
        r == spec_injectable(n),
{
    n == SYS_SELECT || n == SYS_PSELECT6 || n == SYS_POLL || n == SYS_PPOLL
        || n == SYS_EPOLL_WAIT || n == SYS_EPOLL_WAIT_OLD || n == SYS_EPOLL_PWAIT
}

} // verus!
