//! Process-tracing state machines for hijacking an Android boot sequence:
//! an init-side descendant tracker that recognizes the zygote being started,
//! and a target-side syscall injector that parks the zygote at a safe
//! reentry point for an external instrumentation engine.
//!
//! All decision logic lives here, verified, over plain values. The raw
//! platform operations (ptrace, waitpid, fork, filesystem) are performed by
//! the surrounding binaries, which feed their outcomes back as events.

pub mod childgate;
pub mod events;
pub mod handoff;
pub mod identity;
pub mod injector;
pub mod logger;
pub mod registers;
pub mod syscalls;
pub mod tracker;
