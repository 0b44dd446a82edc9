//! The init-side descendant tracker.
//!
//! One watched root process (already seized) and a dynamically growing set
//! of its first-generation descendants. The tracker consumes classified
//! events for the watched tree, probes for the process-information mount,
//! detects the zygote's program start among the descendants' exec events,
//! and triggers the handoff. Tracked depth is bounded to exactly one
//! generation below the root: a process forked by a descendant is detached
//! on first sight, and a detach the OS rejects (the process was not in a
//! stoppable state) is retried lazily on that pid's next event through the
//! pending-detach set.
//!
//! The surrounding binary performs the raw process control and feeds every
//! outcome back through the methods below.

use vstd::prelude::*;

use crate::events::{LifecycleKind, TracerEvent};
use crate::identity::spec_is_zygote;
use crate::identity::is_zygote_exec;

verus! {

/// How a stopped process is resumed: stop again at the very next syscall
/// boundary, or run freely until the next lifecycle event.
#[derive(Clone, Copy, PartialEq, Eq, Structural, Debug)]
pub enum ResumeMode {
    Syscall,
    Free,
}

/// Where the tracker stands.
#[derive(Clone, Copy, PartialEq, Eq, Structural, Debug)]
pub enum TrackerPhase {
    /// The process-information filesystem is not known to be populated yet;
    /// everything runs at syscall granularity so the probe fires often.
    AwaitingProcMount,
    /// The mount was found; descendants run freely and exec events are
    /// inspected.
    TrackingDescendants,
    /// The zygote was found and handed off; the remaining tree is still
    /// tracked with no change in behavior.
    ZygoteFound,
}

/// What the surrounding binary must do next.
#[derive(PartialEq, Eq, Debug)]
pub enum TrackerAction {
    /// Attempt the detach that was rejected earlier, forwarding the signal
    /// if the event was a signal stop; report the outcome through
    /// [`InitTracker::on_pending_detach`]. Nothing else is dispatched for
    /// this event.
    TryDetachPending { pid: u64, signal: Option<i32> },
    /// Read the new child's pid from the fork or clone event's payload and
    /// report it through [`InitTracker::on_fork_child`].
    ReadForkChild { pid: u64 },
    /// Probe whether the process-information filesystem is populated (a
    /// non-empty directory listing at its mount point) and report the
    /// outcome through [`InitTracker::on_proc_probe`].
    ProbeProcMount { pid: u64 },
    /// Resolve the process's executable path and argument list and report
    /// them through [`InitTracker::on_exec_identity`].
    InspectExec { pid: u64 },
    /// Try to detach the freshly forked grandchild and report the outcome
    /// through [`InitTracker::on_child_detach`].
    TryDetachChild { pid: u64, child: u64 },
    /// Change the working directory into the process-information mount, so
    /// it stays reachable across the upcoming root switch, then resume the
    /// reporting process free-running.
    EnterProcMount { pid: u64 },
    /// The zygote: let it run to its next syscall stop, detach it with a
    /// stop signal so it is left parked under no tracer, and fork; the
    /// forked child proceeds to the handoff while the parent keeps tracking.
    CaptureZygote { pid: u64 },
    /// The exec was not the zygote: detach unconditionally, the process is
    /// no longer interesting. Failure here is fatal.
    Detach { pid: u64 },
    /// Resume the reporting process, forwarding the signal if the event was
    /// a signal stop.
    Resume { pid: u64, mode: ResumeMode, signal: Option<i32> },
    /// An unsupported lifecycle shape: the narrow assumed process lifecycle
    /// was violated and supervision cannot continue.
    Fatal { kind: LifecycleKind },
}

/// No pid listed twice.
pub open spec fn distinct_pids(s: Seq<u64>) -> bool {
    forall|i: int, j: int| 0 <= i < j < s.len() ==> s[i] != s[j]
}

/// The pid an event reports for.
pub open spec fn event_pid(e: TracerEvent) -> u64 {
    match e {
        TracerEvent::Lifecycle { pid, .. } => pid,
        TracerEvent::SyscallStop { pid } => pid,
        TracerEvent::SignalStop { pid, .. } => pid,
    }
}

/// The signal to forward when resuming or detaching on this event: only a
/// signal stop carries one.
pub open spec fn event_signal(e: TracerEvent) -> Option<i32> {
    match e {
        TracerEvent::SignalStop { signal, .. } => Some(signal),
        _ => None,
    }
}

/// The init-side tracker's state.
pub struct InitTracker {
    /// The watched root process.
    pub root: u64,
    /// Where the tracker stands.
    pub phase: TrackerPhase,
    /// Pids whose detach was rejected and is retried on their next event.
    pub pending_detach: Vec<u64>,
    /// The currently tracked first-generation descendants of the root.
    pub descendants: Vec<u64>,
}

impl InitTracker {
    /// Internal sets hold each pid once.
    pub open spec fn wf(&self) -> bool {
        distinct_pids(self.pending_detach@) && distinct_pids(self.descendants@)
    }

    /// Whether a detach attempt for this pid was rejected and has not
    /// succeeded since.
    pub open spec fn pending_contains(&self, p: u64) -> bool {
        self.pending_detach@.contains(p)
    }

    /// The pending-detach set.
    pub open spec fn pending_set(&self) -> Set<u64> {
        Set::new(|p: u64| self.pending_contains(p))
    }

    /// Whether this pid is a tracked first-generation descendant.
    pub open spec fn is_descendant(&self, p: u64) -> bool {
        self.descendants@.contains(p)
    }

    /// Whether the process-information mount was found; this switches the
    /// default resume mode from syscall granularity to free-running.
    pub open spec fn found_proc(&self) -> bool {
        self.phase != TrackerPhase::AwaitingProcMount
    }

    /// The default resume mode: syscall granularity only while the mount
    /// probe still needs syscall-level resolution.
    pub open spec fn current_mode(&self) -> ResumeMode {
        if self.found_proc() {
            ResumeMode::Free
        } else {
            ResumeMode::Syscall
        }
    }

    /// The default dispatch for an event nothing else claims: resume the
    /// reporting process in the phase's mode, forwarding its signal.
    pub open spec fn spec_default_resume(&self, e: TracerEvent) -> TrackerAction {
        TrackerAction::Resume {
            pid: event_pid(e),
            mode: self.current_mode(),
            signal: event_signal(e),
        }
    }

    /// The dispatch decision, in order: a pid with a rejected detach gets
    /// only the retry; a fork or clone has its child read; a syscall stop
    /// before the mount is found triggers the probe; a descendant's exec
    /// after the mount is found is inspected; vfork, vfork-done and seccomp
    /// shapes are fatal; everything else is resumed.
    pub open spec fn spec_dispatch(&self, e: TracerEvent) -> TrackerAction {
        if self.pending_contains(event_pid(e)) {
            TrackerAction::TryDetachPending { pid: event_pid(e), signal: event_signal(e) }
        } else {
            match e {
                TracerEvent::Lifecycle { pid, kind, .. } => match kind {
                    LifecycleKind::Fork | LifecycleKind::Clone => TrackerAction::ReadForkChild {
                        pid,
                    },
                    LifecycleKind::Exec => if self.found_proc() && pid != self.root {
                        TrackerAction::InspectExec { pid }
                    } else {
                        self.spec_default_resume(e)
                    },
                    LifecycleKind::Vfork | LifecycleKind::VforkDone | LifecycleKind::Seccomp => {
                        TrackerAction::Fatal { kind }
                    },
                    LifecycleKind::Exit | LifecycleKind::Stop => self.spec_default_resume(e),
                },
                TracerEvent::SyscallStop { pid } => if !self.found_proc() {
                    TrackerAction::ProbeProcMount { pid }
                } else {
                    self.spec_default_resume(e)
                },
                TracerEvent::SignalStop { .. } => self.spec_default_resume(e),
            }
        }
    }

    /// A tracker for a freshly seized root, before the mount is found, with
    /// nothing pending and no descendants.
    pub fn new(root: u64) -> (t: Self)
        ensures
            t.wf(),
            t.root == root,
            t.phase == TrackerPhase::AwaitingProcMount,
            forall|p: u64| !t.pending_contains(p),
            forall|p: u64| !t.is_descendant(p),
    {
        InitTracker {
            root,
            phase: TrackerPhase::AwaitingProcMount,
            pending_detach: Vec::new(),
            descendants: Vec::new(),
        }
    }

    /// Decides what to do with one classified event. The decision changes no
    /// state; state changes happen when the outcome of the chosen action is
    /// reported back.
    pub fn dispatch(&self, e: &TracerEvent) -> (a: TrackerAction)
        ensures
            a == self.spec_dispatch(*e),
    {
        let (pid, signal) = match *e {
            TracerEvent::Lifecycle { pid, .. } => (pid, None),
            TracerEvent::SyscallStop { pid } => (pid, None),
            TracerEvent::SignalStop { pid, signal } => (pid, Some(signal)),
        };
        if contains_pid(&self.pending_detach, pid) {
            return TrackerAction::TryDetachPending { pid, signal };
        }
        match *e {
            TracerEvent::Lifecycle { pid, kind, .. } => match kind {
                LifecycleKind::Fork | LifecycleKind::Clone => TrackerAction::ReadForkChild {
                    pid,
                },
                LifecycleKind::Exec => {
                    if matches!(self.phase, TrackerPhase::AwaitingProcMount) || pid == self.root {
                        TrackerAction::Resume { pid, mode: self.resume_mode(), signal: None }
                    } else {
                        TrackerAction::InspectExec { pid }
                    }
                },
                LifecycleKind::Vfork | LifecycleKind::VforkDone | LifecycleKind::Seccomp => {
                    TrackerAction::Fatal { kind }
                },
                LifecycleKind::Exit | LifecycleKind::Stop => TrackerAction::Resume {
                    pid,
                    mode: self.resume_mode(),
                    signal: None,
                },
            },
            TracerEvent::SyscallStop { pid } => {
                if matches!(self.phase, TrackerPhase::AwaitingProcMount) {
                    TrackerAction::ProbeProcMount { pid }
                } else {
                    TrackerAction::Resume { pid, mode: self.resume_mode(), signal: None }
                }
            },
            TracerEvent::SignalStop { pid, signal } => TrackerAction::Resume {
                pid,
                mode: self.resume_mode(),
                signal: Some(signal),
            },
        }
    }

    /// The phase's default resume mode.
    pub fn resume_mode(&self) -> (m: ResumeMode)
        ensures
            m == self.current_mode(),
    {
        if matches!(self.phase, TrackerPhase::AwaitingProcMount) {
            ResumeMode::Syscall
        } else {
            ResumeMode::Free
        }
    }

    /// Reports the outcome of a retried detach: on success the pid leaves
    /// the pending-detach set, on failure it stays for the next event.
    /// Nothing else changes, and nothing else is dispatched for the event.
    pub fn on_pending_detach(&mut self, pid: u64, detached: bool)
        requires
            old(self).wf(),
            old(self).pending_contains(pid),
        ensures
            final(self).wf(),
            final(self).root == old(self).root,
            final(self).phase == old(self).phase,
            forall|q: u64| final(self).is_descendant(q) == old(self).is_descendant(q),
            final(self).pending_contains(pid) == !detached,
            forall|q: u64| q != pid ==> final(self).pending_contains(q) == old(
                self,
            ).pending_contains(q),
            final(self).pending_set() == apply_detach_attempt(old(self).pending_set(), pid, detached),
    {
        if detached {
            remove_pid(&mut self.pending_detach, pid);
        }
        proof {
            assert(final(self).pending_set() =~= apply_detach_attempt(
                old(self).pending_set(),
                pid,
                detached,
            ));
        }
    }

    /// Reports the child pid read from a fork or clone event's payload. A
    /// child of the root becomes a tracked first-generation descendant and
    /// is left running (it inherits tracing); a child of a descendant would
    /// exceed the one-generation depth bound, so it must be detached on
    /// first sight and is never placed under syscall-granularity tracing.
    pub fn on_fork_child(&mut self, pid: u64, child: u64) -> (a: TrackerAction)
        requires
            old(self).wf(),
        ensures
            final(self).wf(),
            final(self).root == old(self).root,
            final(self).phase == old(self).phase,
            forall|q: u64| final(self).pending_contains(q) == old(self).pending_contains(q),
            pid == old(self).root ==> final(self).is_descendant(child),
            pid != old(self).root ==> *final(self) == *old(self),
            forall|q: u64| q != child ==> final(self).is_descendant(q) == old(
                self,
            ).is_descendant(q),
            a == if pid == old(self).root {
                TrackerAction::Resume {
                    pid,
                    mode: old(self).current_mode(),
                    signal: None::<i32>,
                }
            } else {
                TrackerAction::TryDetachChild { pid, child }
            },
    {
        if pid == self.root {
            if !contains_pid(&self.descendants, child) {
                push_fresh_pid(&mut self.descendants, child);
            }
            TrackerAction::Resume { pid, mode: self.resume_mode(), signal: None }
        } else {
            TrackerAction::TryDetachChild { pid, child }
        }
    }

    /// Reports the outcome of detaching a freshly forked grandchild: on
    /// failure (the OS rejected the detach because the process was not in a
    /// stoppable state) the child joins the pending-detach set for a lazy
    /// retry on its next event; there is no proactive retry. The reporting
    /// process is resumed either way.
    pub fn on_child_detach(&mut self, pid: u64, child: u64, detached: bool) -> (a: TrackerAction)
        requires
            old(self).wf(),
            !old(self).pending_contains(child),
        ensures
            final(self).wf(),
            final(self).root == old(self).root,
            final(self).phase == old(self).phase,
            forall|q: u64| final(self).is_descendant(q) == old(self).is_descendant(q),
            final(self).pending_contains(child) == !detached,
            forall|q: u64| q != child ==> final(self).pending_contains(q) == old(
                self,
            ).pending_contains(q),
            final(self).pending_set() == apply_detach_attempt(
                old(self).pending_set(),
                child,
                detached,
            ),
            a == (TrackerAction::Resume {
                pid,
                mode: old(self).current_mode(),
                signal: None::<i32>,
            }),
    {
        if !detached {
            push_fresh_pid(&mut self.pending_detach, child);
        }
        proof {
            assert(final(self).pending_set() =~= apply_detach_attempt(
                old(self).pending_set(),
                child,
                detached,
            ));
        }
        TrackerAction::Resume { pid, mode: self.resume_mode(), signal: None }
    }

    /// Reports whether the process-information filesystem is populated. On
    /// success the tracker moves into the mount, the flag flips, and every
    /// future default resume is free-running; otherwise the probe repeats on
    /// the next syscall stop.
    pub fn on_proc_probe(&mut self, pid: u64, populated: bool) -> (a: TrackerAction)
        requires
            old(self).wf(),
            old(self).phase == TrackerPhase::AwaitingProcMount,
        ensures
            final(self).wf(),
            final(self).root == old(self).root,
            forall|q: u64| final(self).pending_contains(q) == old(self).pending_contains(q),
            forall|q: u64| final(self).is_descendant(q) == old(self).is_descendant(q),
            populated ==> final(self).phase == TrackerPhase::TrackingDescendants && a
                == (TrackerAction::EnterProcMount { pid }),
            !populated ==> *final(self) == *old(self) && a == (TrackerAction::Resume {
                pid,
                mode: ResumeMode::Syscall,
                signal: None::<i32>,
            }),
    {
        if populated {
            self.phase = TrackerPhase::TrackingDescendants;
            TrackerAction::EnterProcMount { pid }
        } else {
            TrackerAction::Resume { pid, mode: ResumeMode::Syscall, signal: None }
        }
    }

    /// Reports a descendant's identity at its exec stop. The known zygote
    /// path with the known launch flag as first argument is the target: it
    /// is captured and handed off, and the tracker notes the find. Any other
    /// identity is detached unconditionally; either way the process is no
    /// longer a tracked descendant.
    pub fn on_exec_identity(&mut self, pid: u64, exe: &String, args: &Vec<String>) -> (a:
        TrackerAction)
        requires
            old(self).wf(),
            old(self).found_proc(),
            pid != old(self).root,
        ensures
            final(self).wf(),
            final(self).root == old(self).root,
            forall|q: u64| final(self).pending_contains(q) == old(self).pending_contains(q),
            !final(self).is_descendant(pid),
            forall|q: u64| q != pid ==> final(self).is_descendant(q) == old(
                self,
            ).is_descendant(q),
            spec_is_zygote(exe@, args@.map_values(|s: String| s@)) ==> final(self).phase
                == TrackerPhase::ZygoteFound && a == (TrackerAction::CaptureZygote { pid }),
            !spec_is_zygote(exe@, args@.map_values(|s: String| s@)) ==> final(self).phase == old(
                self,
            ).phase && a == (TrackerAction::Detach { pid }),
    {
        if contains_pid(&self.descendants, pid) {
            remove_pid(&mut self.descendants, pid);
        }
        if is_zygote_exec(exe, args) {
            self.phase = TrackerPhase::ZygoteFound;
            TrackerAction::CaptureZygote { pid }
        } else {
            TrackerAction::Detach { pid }
        }
    }
}

/// Whether the list holds the pid.
fn contains_pid(v: &Vec<u64>, x: u64) -> (r: bool)
    ensures
        r == v@.contains(x),
{
    let mut i: usize = 0;
    while i < v.len()
        invariant
            i <= v@.len(),
            forall|k: int| 0 <= k < i ==> v@[k] != x,
        decreases v@.len() - i,
    {
        if v[i] == x {
            return true;
        }
        i += 1;
    }
    false
}

/// Adds a pid not yet listed.
fn push_fresh_pid(v: &mut Vec<u64>, x: u64)
    requires
        distinct_pids(old(v)@),
        !old(v)@.contains(x),
    ensures
        distinct_pids(final(v)@),
        final(v)@.contains(x),
        forall|q: u64| q != x ==> final(v)@.contains(q) == old(v)@.contains(q),
{
    let ghost s0 = v@;
    v.push(x);
    proof {
        assert(v@[s0.len() as int] == x);
        assert forall|q: u64| q != x implies v@.contains(q) == s0.contains(q) by {
            if s0.contains(q) {
                let k = choose|k: int| 0 <= k < s0.len() && s0[k] == q;
                assert(v@[k] == q);
            }
            if v@.contains(q) {
                let k = choose|k: int| 0 <= k < v@.len() && v@[k] == q;
                assert(k < s0.len());
                assert(s0[k] == q);
            }
        }
    }
}

/// Removes the one occurrence of a listed pid.
fn remove_pid(v: &mut Vec<u64>, x: u64)
    requires
        distinct_pids(old(v)@),
        old(v)@.contains(x),
    ensures
        distinct_pids(final(v)@),
        !final(v)@.contains(x),
        forall|q: u64| q != x ==> final(v)@.contains(q) == old(v)@.contains(q),
{
    let ghost s0 = v@;
    let mut i: usize = 0;
    while i < v.len()
        invariant
            *v == *old(v),
            s0 == v@,
            distinct_pids(s0),
            s0.contains(x),
            i <= s0.len(),
            forall|k: int| 0 <= k < i ==> s0[k] != x,
        decreases s0.len() - i,
    {
        if v[i] == x {
            v.remove(i);
            proof {
                assert(v@ == s0.remove(i as int));
                assert forall|q: u64| v@.contains(q) implies q != x && s0.contains(q) by {
                    let k = choose|k: int| 0 <= k < v@.len() && v@[k] == q;
                    if k < i {
                        assert(s0[k] == q);
                    } else {
                        assert(s0[k + 1] == q);
                    }
                }
                assert forall|q: u64| q != x && s0.contains(q) implies v@.contains(q) by {
                    let k = choose|k: int| 0 <= k < s0.len() && s0[k] == q;
                    if k < i {
                        assert(v@[k] == q);
                    } else {
                        assert(k != i);
                        assert(v@[k - 1] == q);
                    }
                }
                assert forall|a: int, b: int| 0 <= a < b < v@.len() implies v@[a] != v@[b] by {
                    let a0 = if a < i {
                        a
                    } else {
                        a + 1
                    };
                    let b0 = if b < i {
                        b
                    } else {
                        b + 1
                    };
                    assert(v@[a] == s0[a0]);
                    assert(v@[b] == s0[b0]);
                }
            }
            return ;
        }
        i += 1;
    }
    proof {
        let k = choose|k: int| 0 <= k < s0.len() && s0[k] == x;
        assert(false);
    }
}

/// A process awaiting detach receives no other dispatch until it is
/// removed: whatever event it reports, the only action taken for it is the
/// detach retry — in particular it is never resumed, at syscall granularity
/// or otherwise.
pub proof fn lemma_pending_receives_only_detach(t: InitTracker, e: TracerEvent)
    requires
        t.pending_contains(event_pid(e)),
    ensures
        t.spec_dispatch(e) == (TrackerAction::TryDetachPending {
            pid: event_pid(e),
            signal: event_signal(e),
        }),
{
}

/// One detach attempt applied to the pending-detach set: a successful
/// detach removes the pid, a rejected one records it.
pub open spec fn apply_detach_attempt(s: Set<u64>, pid: u64, detached: bool) -> Set<u64> {
    if detached {
        s.remove(pid)
    } else {
        s.insert(pid)
    }
}

/// The pending-detach set after a history of detach attempts, starting from
/// nothing pending.
pub open spec fn pending_after(attempts: Seq<(u64, bool)>) -> Set<u64>
    decreases attempts.len(),
{
    if attempts.len() == 0 {
        Set::empty()
    } else {
        apply_detach_attempt(
            pending_after(attempts.drop_last()),
            attempts.last().0,
            attempts.last().1,
        )
    }
}

/// Whether the most recent detach attempt for a pid failed, with no
/// successful detach for it since.
pub open spec fn last_attempt_failed(attempts: Seq<(u64, bool)>, p: u64) -> bool {
    exists|i: int|
        0 <= i < attempts.len() && attempts[i].0 == p && !attempts[i].1 && (forall|j: int|
            i < j < attempts.len() ==> attempts[j].0 != p)
}

/// A pid is in the pending-detach set exactly when the most recent detach
/// attempt for it failed and no successful detach for it has occurred
/// since. Each failed attempt inserts the pid and each successful one
/// removes it, which is how the detach-outcome reports above update the
/// set.
pub proof fn lemma_pending_membership(attempts: Seq<(u64, bool)>, p: u64)
    ensures
        pending_after(attempts).contains(p) <==> last_attempt_failed(attempts, p),
    decreases attempts.len(),
{
    if attempts.len() > 0 {
        let front = attempts.drop_last();
        let last = attempts.last();
        lemma_pending_membership(front, p);
        if last.0 == p {
            if !last.1 {
                assert(attempts[attempts.len() - 1].0 == p && !attempts[attempts.len() - 1].1);
                assert(last_attempt_failed(attempts, p));
            } else {
                assert forall|i: int|
                    0 <= i < attempts.len() && attempts[i].0 == p && !attempts[i].1 implies !(
                forall|j: int| i < j < attempts.len() ==> attempts[j].0 != p) by {
                    assert(attempts[attempts.len() - 1].0 == p);
                    assert(attempts[attempts.len() - 1].1);
                    assert(i < attempts.len() - 1);
                }
            }
        } else {
            assert forall|i: int|
                0 <= i < front.len() && front[i].0 == p && !front[i].1 && (forall|j: int|
                    i < j < front.len() ==> front[j].0 != p) implies (forall|j: int|
                i < j < attempts.len() ==> attempts[j].0 != p) by {
                assert(forall|j: int| i < j < front.len() ==> attempts[j] == front[j]);
            }
            assert(last_attempt_failed(front, p) ==> last_attempt_failed(attempts, p));
            assert forall|i: int|
                0 <= i < attempts.len() && attempts[i].0 == p && !attempts[i].1 && (forall|j: int|
                    i < j < attempts.len() ==> attempts[j].0 != p) implies last_attempt_failed(
                front,
                p,
            ) by {
                assert(i != attempts.len() - 1);
                assert(front[i] == attempts[i]);
            }
        }
    }
}

} // verus!
