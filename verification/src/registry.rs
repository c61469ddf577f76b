//! The node registry: the one authoritative, ordered pool of backend
//! nodes. A node's identity is its position, fixed at construction; only
//! the quarantine status and the preferred marker ever change.
//!
//! Callers that share the registry across tasks wrap it in a lock and
//! keep every acquisition free of I/O; each method here is one such
//! short, in-memory critical section.

use vstd::prelude::*;

use crate::models::{with_quarantine, BitcoinNode, Quarantine};
use crate::policy::{should_release, spec_should_release};

verus! {

/// `n` after the release phase looked at it: healthy again if its
/// quarantine has run out, untouched otherwise.
pub open spec fn released_node(n: BitcoinNode, now: int, duration: int) -> BitcoinNode {
    if spec_should_release(n.quarantine, now, duration) {
        with_quarantine(n, Quarantine::No)
    } else {
        n
    }
}

/// The whole pool after the release phase.
pub open spec fn released(s: Seq<BitcoinNode>, now: int, duration: int) -> Seq<BitcoinNode> {
    s.map(|i: int, n: BitcoinNode| released_node(n, now, duration))
}

/// The ordered pool of backend nodes, keyed by position.
pub struct NodeRegistry {
    pub nodes: Vec<BitcoinNode>,
}

impl NodeRegistry {
    /// The registry must never be empty once constructed: node identity 0
    /// is the fallback target of every selection.
    pub open spec fn well_formed(&self) -> bool {
        self.nodes@.len() > 0
    }

    pub fn new(nodes: Vec<BitcoinNode>) -> (r: Self)
        ensures
            r.nodes@ == nodes@,
    {
        Self { nodes }
    }

    pub fn len(&self) -> (r: usize)
        ensures
            r == self.nodes@.len(),
    {
        self.nodes.len()
    }

    pub fn get(&self, i: usize) -> (r: &BitcoinNode)
        requires
            i < self.nodes@.len(),
        ensures
            *r == self.nodes@[i as int],
    {
        &self.nodes[i]
    }

    /// The release phase: every node whose quarantine has run out at
    /// `now` becomes healthy again; nothing else changes.
    pub fn release_due(&mut self, now: i64, duration: i64)
        ensures
            final(self).nodes@ == released(old(self).nodes@, now as int, duration as int),
    {
        let n = self.nodes.len();
        let mut i: usize = 0;
        while i < n
            invariant
                n == self.nodes@.len(),
                n == old(self).nodes@.len(),
                i <= n,
                forall|j: int|
                    0 <= j < i ==> self.nodes@[j] == released_node(
                        old(self).nodes@[j],
                        now as int,
                        duration as int,
                    ),
                forall|j: int| i <= j < n ==> self.nodes@[j] == old(self).nodes@[j],
            decreases n - i,
        {
            let q = self.nodes[i].quarantine;
            if should_release(&q, now, duration) {
                self.nodes[i].quarantine = Quarantine::No;
            }
            i += 1;
        }
        assert(self.nodes@ =~= released(old(self).nodes@, now as int, duration as int));
    }

    /// The quarantine step of the evaluate phase: place node `i` into
    /// quarantine as of `now`.
    pub fn set_quarantined(&mut self, i: usize, now: i64)
        requires
            i < old(self).nodes@.len(),
        ensures
            final(self).nodes@ == old(self).nodes@.update(
                i as int,
                with_quarantine(old(self).nodes@[i as int], Quarantine::Yes(now)),
            ),
    {
        self.nodes[i].quarantine = Quarantine::Yes(now);
        assert(self.nodes@ =~= old(self).nodes@.update(
            i as int,
            with_quarantine(old(self).nodes@[i as int], Quarantine::Yes(now)),
        ));
    }
}

} // verus!
