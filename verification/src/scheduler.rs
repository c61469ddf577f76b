//! The decisions of one health-check cycle.
//!
//! The loop itself lives with the transport code: it queries the
//! reference source and the audited node on a fixed-rate tick and hands
//! every outcome back here. This module decides, for each cycle, which
//! node to audit, what the probe results mean, which single alert (if
//! any) to send, and which one registry mutation (if any) to apply.

use vstd::prelude::*;
use vstd::string::StringExecFns;

use crate::models::Quarantine;
use crate::policy::spec_should_quarantine;
use crate::policy::should_quarantine;
use crate::registry::{released, NodeRegistry};
use crate::selector::{fallback_marked, first_healthy_from, select_for_healthcheck};

verus! {

/// What the evaluate phase concluded from one probe.
#[derive(Debug, Clone, Copy, PartialEq, Eq, Structural)]
pub enum CycleVerdict {
    /// The reference source could not be queried: alert, touch no node.
    ReferenceFailed,
    /// The audited node could not be queried: alert, touch no node.
    NodeFailed,
    /// The audited node lags more than the threshold: quarantine it and alert.
    Drifted,
    /// The audited node is fresh enough: no alert, no change.
    InSync,
}

/// The verdict owed for given probe results: reference failure first,
/// then node failure, then the drift comparison.
pub open spec fn spec_evaluate(
    reference_height: Option<u64>,
    node_height: Option<u64>,
    threshold: u64,
) -> CycleVerdict {
    match reference_height {
        Option::None => CycleVerdict::ReferenceFailed,
        Option::Some(r) => match node_height {
            Option::None => CycleVerdict::NodeFailed,
            Option::Some(n) => if spec_should_quarantine(r as int, n as int, threshold as int) {
                CycleVerdict::Drifted
            } else {
                CycleVerdict::InSync
            },
        },
    }
}

/// The evaluate phase: turns the two probe results into the cycle's
/// verdict. A failed query is passed in as `None`.
pub fn evaluate(
    reference_height: Option<u64>,
    node_height: Option<u64>,
    threshold: u64,
) -> (r: CycleVerdict)
    ensures
        r == spec_evaluate(reference_height, node_height, threshold),
{
    match reference_height {
        Option::None => CycleVerdict::ReferenceFailed,
        Option::Some(reference) => match node_height {
            Option::None => CycleVerdict::NodeFailed,
            Option::Some(node) => {
                if should_quarantine(reference, node, threshold) {
                    CycleVerdict::Drifted
                } else {
                    CycleVerdict::InSync
                }
            },
        },
    }
}

/// The release and select phases, run back to back under the caller's
/// one registry acquisition: releases every node whose quarantine has
/// run out, then picks the node to audit.
pub fn begin_cycle(reg: &mut NodeRegistry, now: i64, quarantine_duration: i64) -> (r: usize)
    requires
        old(reg).well_formed(),
    ensures
        (r as int) < final(reg).nodes@.len(),
        ({
            let rel = released(old(reg).nodes@, now as int, quarantine_duration as int);
            match first_healthy_from(rel, 0) {
                Some(k) => r == k && final(reg).nodes@ == rel,
                None => r == 0 && final(reg).nodes@ == fallback_marked(rel),
            }
        }),
{
    reg.release_due(now, quarantine_duration);
    select_for_healthcheck(reg)
}

/// The one registry mutation a cycle may make: on a `Drifted` verdict the
/// audited node goes into quarantine as of `now`; on every other verdict
/// no node is touched.
pub fn apply_verdict(reg: &mut NodeRegistry, verdict: CycleVerdict, audited: usize, now: i64)
    requires
        (audited as int) < old(reg).nodes@.len(),
    ensures
        verdict == CycleVerdict::Drifted ==> final(reg).nodes@ == old(reg).nodes@.update(
            audited as int,
            crate::models::with_quarantine(
                old(reg).nodes@[audited as int],
                Quarantine::Yes(now),
            ),
        ),
        verdict != CycleVerdict::Drifted ==> final(reg).nodes@ == old(reg).nodes@,
{
    if verdict == CycleVerdict::Drifted {
        reg.set_quarantined(audited, now);
    }
}

/// The alert sent when the audited node lags behind the reference.
pub open spec fn spec_drift_alert(url: Seq<char>) -> Seq<char> {
    "Bitcoin node "@ + url + " delay from blockchain exceeded limit."@
}

/// The alert sent when the audited node could not be queried.
pub open spec fn spec_node_failure_alert(url: Seq<char>, error: Seq<char>) -> Seq<char> {
    "Couldn't get last block from bitcoin node "@ + url + " - "@ + error
}

/// The alert sent when the reference source could not be queried.
pub open spec fn spec_reference_failure_alert(error: Seq<char>) -> Seq<char> {
    "Couldn't get last block from blockchain info - "@ + error
}

/// The single alert a cycle owes for its verdict, if any: the message
/// names the failing party — the reference source, or the audited node's
/// URL — and `InSync` sends nothing.
pub fn cycle_alert(
    verdict: &CycleVerdict,
    node_url: &str,
    reference_error: &str,
    node_error: &str,
) -> (r: Option<String>)
    ensures
        match verdict {
            CycleVerdict::ReferenceFailed => r matches Some(m) && m@ == spec_reference_failure_alert(
                reference_error@,
            ),
            CycleVerdict::NodeFailed => r matches Some(m) && m@ == spec_node_failure_alert(
                node_url@,
                node_error@,
            ),
            CycleVerdict::Drifted => r matches Some(m) && m@ == spec_drift_alert(node_url@),
            CycleVerdict::InSync => r is None,
        },
{
    match verdict {
        CycleVerdict::ReferenceFailed => {
            let mut m = String::new();
            m.append("Couldn't get last block from blockchain info - ");
            m.append(reference_error);
            proof {
                assert(m@ =~= spec_reference_failure_alert(reference_error@));
            }
            Some(m)
        },
        CycleVerdict::NodeFailed => {
            let mut m = String::new();
            m.append("Couldn't get last block from bitcoin node ");
            m.append(node_url);
            m.append(" - ");
            m.append(node_error);
            proof {
                assert(m@ =~= spec_node_failure_alert(node_url@, node_error@));
            }
            Some(m)
        },
        CycleVerdict::Drifted => {
            let mut m = String::new();
            m.append("Bitcoin node ");
            m.append(node_url);
            m.append(" delay from blockchain exceeded limit.");
            proof {
                assert(m@ =~= spec_drift_alert(node_url@));
            }
            Some(m)
        },
        CycleVerdict::InSync => None,
    }
}

} // verus!
