//! The quarantine policy: two pure decisions, free of I/O and shared
//! state. All times and thresholds are passed in by the caller.

use vstd::prelude::*;

use crate::models::Quarantine;

verus! {

/// A quarantined node becomes eligible for release exactly when
/// `now - since >= duration`.
pub open spec fn spec_should_release(status: Quarantine, now: int, duration: int) -> bool {
    match status {
        Quarantine::No => false,
        Quarantine::Yes(since) => now - since >= duration,
    }
}

/// A node is to be quarantined exactly when its height is known to lie
/// more than `threshold` blocks behind the reference height; a node at or
/// ahead of the reference height shows no drift.
pub open spec fn spec_should_quarantine(
    reference_height: int,
    node_height: int,
    threshold: int,
) -> bool {
    node_height < reference_height && reference_height - node_height > threshold
}

/// Decides whether a node's quarantine has run out.
pub fn should_release(status: &Quarantine, now: i64, duration: i64) -> (r: bool)
    ensures
        r == spec_should_release(*status, now as int, duration as int),
{
    match status {
        Quarantine::No => false,
        Quarantine::Yes(since) => (now as i128) - (*since as i128) >= (duration as i128),
    }
}

/// Decides whether an observed height drift warrants quarantine.
pub fn should_quarantine(reference_height: u64, node_height: u64, threshold: u64) -> (r: bool)
    ensures
        r == spec_should_quarantine(reference_height as int, node_height as int, threshold as int),
{
    node_height < reference_height && reference_height - node_height > threshold
}

/// Law: for every duration `d` and node quarantined at time `t`, release
/// is owed exactly from `t + d` on — refused for any earlier `now`,
/// granted for any `now` at or past it.
pub proof fn lemma_release_exactly_at_deadline(t: i64, d: i64, now: i64)
    ensures
        (now as int) < t + d ==> !spec_should_release(Quarantine::Yes(t), now as int, d as int),
        (now as int) >= t + d ==> spec_should_release(Quarantine::Yes(t), now as int, d as int),
{
}

/// Law: quarantine is decided exactly by `reference_height - node_height >
/// threshold`, and never when the node is at or ahead of the reference.
pub proof fn lemma_quarantine_exactly_on_drift(
    reference_height: int,
    node_height: int,
    threshold: int,
)
    ensures
        spec_should_quarantine(reference_height, node_height, threshold) <==> (node_height
            < reference_height && reference_height - node_height > threshold),
        node_height >= reference_height ==> !spec_should_quarantine(
            reference_height,
            node_height,
            threshold,
        ),
{
}

} // verus!
