//! Once-per-child handling for the instrumentation engine's gated children.
//!
//! The engine fires a child-added notification whenever it observes a new
//! child forked from an attached process; a child is paused until it is
//! explicitly resumed. Several notifications may arrive for one child, but an
//! instrumentation session must be attached and the child resumed exactly
//! once per distinct child pid. This gate records which pids were already
//! handled and hands each pid through exactly once.

use vstd::prelude::*;

verus! {

/// The set of child pids already handled, with each pid recorded once.
pub struct ChildGate {
    handled: Vec<u64>,
}

impl ChildGate {
    /// No pid recorded twice.
    pub closed spec fn wf(&self) -> bool {
        forall|i: int, j: int|
            0 <= i < j < self.handled@.len() ==> self.handled@[i] != self.handled@[j]
    }

    /// Whether a pid was already claimed.
    pub closed spec fn has_handled(&self, pid: u64) -> bool {
        self.handled@.contains(pid)
    }

    /// A fresh gate that has handled nothing.
    pub fn new() -> (g: Self)
        ensures
            g.wf(),
            forall|p: u64| !g.has_handled(p),
    {
        ChildGate { handled: Vec::new() }
    }

    /// Claims a child pid: returns true, and records the pid, exactly on its
    /// first presentation; every later presentation of the same pid returns
    /// false and changes nothing.
    pub fn claim(&mut self, pid: u64) -> (fresh: bool)
        requires
            old(self).wf(),
        ensures
            final(self).wf(),
            fresh == !old(self).has_handled(pid),
            final(self).has_handled(pid),
            forall|q: u64| q != pid ==> final(self).has_handled(q) == old(self).has_handled(q),
    {
        let mut i: usize = 0;
        while i < self.handled.len()
            invariant
                *self == *old(self),
                old(self).wf(),
                i <= self.handled@.len(),
                forall|k: int| 0 <= k < i ==> self.handled@[k] != pid,
            decreases self.handled@.len() - i,
        {
            if self.handled[i] == pid {
                return false;
            }
            i += 1;
        }
        assert(!old(self).handled@.contains(pid));
        self.handled.push(pid);
        proof {
            let s0 = old(self).handled@;
            let s1 = self.handled@;
            assert(s1 == s0.push(pid));
            assert(s1.contains(pid)) by {
                assert(s1[s0.len() as int] == pid);
            }
            assert forall|q: u64| q != pid implies s1.contains(q) == s0.contains(q) by {
                if s0.contains(q) {
                    let k = choose|k: int| 0 <= k < s0.len() && s0[k] == q;
                    assert(s1[k] == q);
                }
                if s1.contains(q) {
                    let k = choose|k: int| 0 <= k < s1.len() && s1[k] == q;
                    assert(k < s0.len());
                    assert(s0[k] == q);
                }
            }
        }
        true
    }
}

} // verus!
