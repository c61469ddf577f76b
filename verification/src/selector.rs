//! The node selector: picks the node for the next operation.
//!
//! Two preference rules exist over the same fallback. Request routing
//! prefers the node marked "main" that is healthy; the health-check loop
//! prefers the first healthy node in identity order. When no node
//! qualifies, both fall back to node identity 0, mark it main (clearing
//! every other main marker), and return it regardless of its quarantine
//! status — availability is favored over freshness.

use vstd::prelude::*;

use crate::models::{with_main, BitcoinNode, Quarantine};
use crate::registry::NodeRegistry;

verus! {

/// The least index at or past `i` of a node that is marked main and
/// healthy, if any.
pub open spec fn first_main_healthy_from(s: Seq<BitcoinNode>, i: int) -> Option<int>
    decreases s.len() - i,
{
    if 0 <= i < s.len() {
        if s[i].main && s[i].quarantine is No {
            Some(i)
        } else {
            first_main_healthy_from(s, i + 1)
        }
    } else {
        None
    }
}

/// The least index at or past `i` of a healthy node, if any.
pub open spec fn first_healthy_from(s: Seq<BitcoinNode>, i: int) -> Option<int>
    decreases s.len() - i,
{
    if 0 <= i < s.len() {
        if s[i].quarantine is No {
            Some(i)
        } else {
            first_healthy_from(s, i + 1)
        }
    } else {
        None
    }
}

/// The pool after the fallback rule ran: node 0 is main, no other is,
/// and nothing else changed.
pub open spec fn fallback_marked(s: Seq<BitcoinNode>) -> Seq<BitcoinNode> {
    s.map(|i: int, n: BitcoinNode| with_main(n, i == 0))
}

/// If some node at or past `i` is main and healthy, the selector finds
/// the least such index.
proof fn lemma_first_main_healthy_some(s: Seq<BitcoinNode>, i: int, k: int)
    requires
        i <= k < s.len(),
        0 <= i,
        s[k].main && s[k].quarantine is No,
        forall|j: int| i <= j < k ==> !(s[j].main && s[j].quarantine is No),
    ensures
        first_main_healthy_from(s, i) == Some(k),
    decreases k - i,
{
    if i < k {
        lemma_first_main_healthy_some(s, i + 1, k);
    }
}

/// If no node at or past `i` is main and healthy, the preference rule
/// finds nothing.
proof fn lemma_first_main_healthy_none(s: Seq<BitcoinNode>, i: int)
    requires
        forall|j: int| i <= j < s.len() ==> !(s[j].main && s[j].quarantine is No),
    ensures
        first_main_healthy_from(s, i) is None,
    decreases s.len() - i,
{
    if 0 <= i < s.len() {
        lemma_first_main_healthy_none(s, i + 1);
    }
}

/// Request-mode selection: the node marked main and healthy if one
/// exists (ties broken by ascending identity), else node 0 by the
/// fallback rule, which marks it main and clears every other marker.
pub fn select_for_request(reg: &mut NodeRegistry) -> (r: usize)
    requires
        old(reg).well_formed(),
    ensures
        (r as int) < final(reg).nodes@.len(),
        match first_main_healthy_from(old(reg).nodes@, 0) {
            Some(k) => r == k && final(reg).nodes@ == old(reg).nodes@,
            None => r == 0 && final(reg).nodes@ == fallback_marked(old(reg).nodes@),
        },
        // With every node quarantined, node 0 is returned and marked main.
        (forall|j: int|
            0 <= j < old(reg).nodes@.len() ==> old(reg).nodes@[j].quarantine is Yes) ==> r == 0
            && final(reg).nodes@[0].main,
        // With node 2 the one main node and healthy, node 2 is returned
        // and the pool is left untouched.
        (old(reg).nodes@.len() > 2 && old(reg).nodes@[2].main && old(reg).nodes@[2].quarantine
            is No && (forall|j: int|
            0 <= j < old(reg).nodes@.len() && j != 2 ==> !old(reg).nodes@[j].main)) ==> r == 2
            && final(reg).nodes@ == old(reg).nodes@,
{
    proof {
        let s = old(reg).nodes@;
        if forall|j: int| 0 <= j < s.len() ==> s[j].quarantine is Yes {
            assert forall|j: int| 0 <= j < s.len() implies !(s[j].main && s[j].quarantine is No) by {
                assert(s[j].quarantine is Yes);
            }
            lemma_first_main_healthy_none(s, 0);
        }
        if s.len() > 2 && s[2].main && s[2].quarantine is No && (forall|j: int|
            0 <= j < s.len() && j != 2 ==> !s[j].main) {
            lemma_first_main_healthy_some(s, 0, 2);
        }
    }
    let n = reg.nodes.len();
    let mut i: usize = 0;
    while i < n
        invariant
            n == reg.nodes@.len(),
            reg.nodes@ == old(reg).nodes@,
            i <= n,
            first_main_healthy_from(reg.nodes@, 0) == first_main_healthy_from(reg.nodes@, i as int),
        decreases n - i,
    {
        if reg.nodes[i].main && reg.nodes[i].quarantine == Quarantine::No {
            return i;
        }
        i += 1;
    }
    mark_zero_main(reg);
    0
}

/// Health-check-mode selection: the first healthy node in identity order
/// if one exists, else node 0 by the same fallback rule.
pub fn select_for_healthcheck(reg: &mut NodeRegistry) -> (r: usize)
    requires
        old(reg).well_formed(),
    ensures
        (r as int) < final(reg).nodes@.len(),
        match first_healthy_from(old(reg).nodes@, 0) {
            Some(k) => r == k && final(reg).nodes@ == old(reg).nodes@,
            None => r == 0 && final(reg).nodes@ == fallback_marked(old(reg).nodes@),
        },
{
    let n = reg.nodes.len();
    let mut i: usize = 0;
    while i < n
        invariant
            n == reg.nodes@.len(),
            reg.nodes@ == old(reg).nodes@,
            i <= n,
            first_healthy_from(reg.nodes@, 0) == first_healthy_from(reg.nodes@, i as int),
        decreases n - i,
    {
        if reg.nodes[i].quarantine == Quarantine::No {
            return i;
        }
        i += 1;
    }
    mark_zero_main(reg);
    0
}

/// The shared fallback rule's mutation: node 0 becomes the one node
/// marked main; connection data and quarantine statuses stay as they are.
fn mark_zero_main(reg: &mut NodeRegistry)
    requires
        old(reg).well_formed(),
    ensures
        final(reg).nodes@ == fallback_marked(old(reg).nodes@),
{
    let n = reg.nodes.len();
    let mut j: usize = 0;
    while j < n
        invariant
            n == reg.nodes@.len(),
            n == old(reg).nodes@.len(),
            j <= n,
            forall|k: int| 0 <= k < j ==> reg.nodes@[k] == with_main(old(reg).nodes@[k], k == 0),
            forall|k: int| j <= k < n ==> reg.nodes@[k] == old(reg).nodes@[k],
        decreases n - j,
    {
        reg.nodes[j].main = j == 0;
        j += 1;
    }
    assert(reg.nodes@ =~= fallback_marked(old(reg).nodes@));
}

} // verus!
