//! The pool-management core: quarantine policy, selection rules,
//! registry mutation, and the health-check cycle's decisions.

use bitcoin_proxy::models::{BitcoinNode, Quarantine};
use bitcoin_proxy::policy::{should_quarantine, should_release};
use bitcoin_proxy::registry::NodeRegistry;
use bitcoin_proxy::router::{proxy, status_code, ErrorKind};
use bitcoin_proxy::scheduler::{apply_verdict, begin_cycle, cycle_alert, evaluate, CycleVerdict};
use bitcoin_proxy::selector::{select_for_healthcheck, select_for_request};
use std::sync::{Arc, Mutex};

fn node(tag: &str) -> BitcoinNode {
    BitcoinNode::new(
        format!("http://node-{}.example:8332", tag),
        format!("user-{}", tag),
        format!("pass-{}", tag),
    )
}

fn pool3() -> NodeRegistry {
    NodeRegistry::new(vec![node("0"), node("1"), node("2")])
}

#[test]
fn release_is_owed_exactly_from_the_deadline_on() {
    let status = Quarantine::Yes(100);
    let d = 10;
    assert!(!should_release(&status, 100, d));
    assert!(!should_release(&status, 109, d));
    assert!(should_release(&status, 110, d));
    assert!(should_release(&status, 111, d));
    assert!(!should_release(&Quarantine::No, 1_000_000, d));
}

#[test]
fn release_handles_extreme_timestamps() {
    assert!(should_release(&Quarantine::Yes(i64::MIN), i64::MAX, i64::MAX));
    assert!(!should_release(&Quarantine::Yes(i64::MAX), i64::MIN, 1));
}

#[test]
fn quarantine_is_decided_exactly_by_the_drift_threshold() {
    assert!(should_quarantine(1000, 998, 1));
    assert!(!should_quarantine(1000, 999, 1));
    assert!(!should_quarantine(1000, 1000, 1));
    assert!(!should_quarantine(998, 1000, 1));
    assert!(!should_quarantine(u64::MAX, u64::MAX, 1));
    assert!(should_quarantine(u64::MAX, 0, 1));
    assert!(!should_quarantine(5, 0, 5));
    assert!(should_quarantine(6, 0, 5));
}

#[test]
fn request_select_falls_back_to_node_zero_and_marks_it_main() {
    let mut reg = pool3();
    reg.nodes[0].quarantine = Quarantine::Yes(50);
    reg.nodes[1].quarantine = Quarantine::Yes(60);
    reg.nodes[2].quarantine = Quarantine::Yes(70);
    reg.nodes[2].main = true;
    let picked = select_for_request(&mut reg);
    assert_eq!(picked, 0);
    assert!(reg.nodes[0].main);
    assert!(!reg.nodes[1].main);
    assert!(!reg.nodes[2].main);
    // Quarantine statuses are not the selector's to change.
    assert_eq!(reg.nodes[0].quarantine, Quarantine::Yes(50));
    assert_eq!(reg.nodes[2].quarantine, Quarantine::Yes(70));
}

#[test]
fn healthcheck_select_shares_the_same_fallback() {
    let mut reg = pool3();
    reg.nodes[0].quarantine = Quarantine::Yes(50);
    reg.nodes[1].quarantine = Quarantine::Yes(60);
    reg.nodes[2].quarantine = Quarantine::Yes(70);
    let picked = select_for_healthcheck(&mut reg);
    assert_eq!(picked, 0);
    assert!(reg.nodes[0].main);
    assert!(!reg.nodes[1].main);
    assert!(!reg.nodes[2].main);
}

#[test]
fn request_select_prefers_the_healthy_main_node() {
    let mut reg = NodeRegistry::new(vec![node("0"), node("1"), node("2"), node("3")]);
    reg.nodes[0].quarantine = Quarantine::Yes(10);
    reg.nodes[2].main = true;
    reg.nodes[3].quarantine = Quarantine::Yes(20);
    let picked = select_for_request(&mut reg);
    assert_eq!(picked, 2);
    // The pool is returned exactly as it was.
    assert!(!reg.nodes[0].main && !reg.nodes[1].main && reg.nodes[2].main && !reg.nodes[3].main);
    assert_eq!(reg.nodes[0].quarantine, Quarantine::Yes(10));
    assert_eq!(reg.nodes[1].quarantine, Quarantine::No);
    assert_eq!(reg.nodes[2].quarantine, Quarantine::No);
    assert_eq!(reg.nodes[3].quarantine, Quarantine::Yes(20));
}

#[test]
fn request_select_ignores_a_quarantined_main_node() {
    let mut reg = pool3();
    reg.nodes[1].main = true;
    reg.nodes[1].quarantine = Quarantine::Yes(10);
    let picked = select_for_request(&mut reg);
    assert_eq!(picked, 0);
    assert!(reg.nodes[0].main);
    assert!(!reg.nodes[1].main);
}

#[test]
fn healthcheck_select_prefers_the_first_healthy_node_in_order() {
    let mut reg = pool3();
    reg.nodes[0].quarantine = Quarantine::Yes(10);
    let picked = select_for_healthcheck(&mut reg);
    assert_eq!(picked, 1);
    // No fallback ran: the main markers are untouched.
    assert!(!reg.nodes[0].main && !reg.nodes[1].main && !reg.nodes[2].main);
}

#[test]
fn evaluate_orders_its_checks() {
    assert_eq!(evaluate(None, None, 1), CycleVerdict::ReferenceFailed);
    assert_eq!(evaluate(None, Some(5), 1), CycleVerdict::ReferenceFailed);
    assert_eq!(evaluate(Some(1000), None, 1), CycleVerdict::NodeFailed);
    assert_eq!(evaluate(Some(1000), Some(998), 1), CycleVerdict::Drifted);
    assert_eq!(evaluate(Some(1000), Some(999), 1), CycleVerdict::InSync);
    assert_eq!(evaluate(Some(998), Some(1000), 1), CycleVerdict::InSync);
}

#[test]
fn scenario_drifted_node_is_quarantined_and_one_alert_names_it() {
    let mut reg = pool3();
    let now = 5_000;
    let audited = begin_cycle(&mut reg, now, 600);
    assert_eq!(audited, 0);
    let verdict = evaluate(Some(1000), Some(998), 1);
    assert_eq!(verdict, CycleVerdict::Drifted);
    apply_verdict(&mut reg, verdict, audited, now);
    assert_eq!(reg.nodes[0].quarantine, Quarantine::Yes(now));
    assert_eq!(reg.nodes[1].quarantine, Quarantine::No);
    assert_eq!(reg.nodes[2].quarantine, Quarantine::No);
    let alert = cycle_alert(&verdict, "http://node-0.example:8332", "", "");
    assert_eq!(
        alert.as_deref(),
        Some("Bitcoin node http://node-0.example:8332 delay from blockchain exceeded limit.")
    );
}

#[test]
fn scenario_release_runs_before_the_audit_target_is_picked() {
    let mut reg = pool3();
    let d = 600;
    let now = 10_000;
    // Node 0 went into quarantine only now; node 1 a second past its term.
    reg.nodes[0].quarantine = Quarantine::Yes(now);
    reg.nodes[1].quarantine = Quarantine::Yes(now - d - 1);
    let audited = begin_cycle(&mut reg, now, d);
    assert_eq!(reg.nodes[1].quarantine, Quarantine::No);
    assert_eq!(reg.nodes[0].quarantine, Quarantine::Yes(now));
    // Node 1 was released before selection, so it is the first healthy node.
    assert_eq!(audited, 1);
}

#[test]
fn scenario_reference_failure_mutates_nothing_and_alerts_once() {
    let mut reg = pool3();
    let now = 7_000;
    let audited = begin_cycle(&mut reg, now, 600);
    let verdict = evaluate(None, None, 1);
    assert_eq!(verdict, CycleVerdict::ReferenceFailed);
    apply_verdict(&mut reg, verdict, audited, now);
    for i in 0..3 {
        assert_eq!(reg.nodes[i].quarantine, Quarantine::No);
    }
    let alert = cycle_alert(&verdict, "http://node-0.example:8332", "connection timed out", "");
    assert_eq!(
        alert.as_deref(),
        Some("Couldn't get last block from blockchain info - connection timed out")
    );
}

#[test]
fn scenario_node_failure_mutates_nothing_and_names_the_node() {
    let mut reg = pool3();
    let verdict = evaluate(Some(1000), None, 1);
    assert_eq!(verdict, CycleVerdict::NodeFailed);
    apply_verdict(&mut reg, verdict, 1, 7_000);
    for i in 0..3 {
        assert_eq!(reg.nodes[i].quarantine, Quarantine::No);
    }
    let alert = cycle_alert(&verdict, "http://node-1.example:8332", "", "connection refused");
    assert_eq!(
        alert.as_deref(),
        Some("Couldn't get last block from bitcoin node http://node-1.example:8332 - connection refused")
    );
}

#[test]
fn in_sync_cycle_sends_no_alert() {
    let verdict = evaluate(Some(1000), Some(1000), 1);
    assert_eq!(verdict, CycleVerdict::InSync);
    assert!(cycle_alert(&verdict, "http://node-0.example:8332", "", "").is_none());
}

#[test]
fn scenario_fully_quarantined_pool_still_routes_to_node_zero() {
    let mut reg = pool3();
    for i in 0..3 {
        reg.nodes[i].quarantine = Quarantine::Yes(100);
    }
    let body = br#"{"jsonrpc":"2","id":"7","method":"getblockcount","params":[]}"#.to_vec();
    let call = proxy(&mut reg, body.clone());
    assert_eq!(call.url, "http://node-0.example:8332");
    // The client's payload goes through verbatim.
    assert_eq!(call.body, body);
    assert!(reg.nodes[0].main);
    assert_eq!(reg.nodes[0].quarantine, Quarantine::Yes(100));
}

#[test]
fn concurrent_release_and_selection_never_observe_a_torn_status() {
    let rt = tokio::runtime::Builder::new_multi_thread()
        .worker_threads(4)
        .build()
        .expect("runtime");
    rt.block_on(async {
        let reg = Arc::new(Mutex::new(pool3()));
        let writer_reg = reg.clone();
        // The release phase and quarantine writes, round after round.
        let writer = tokio::spawn(async move {
            for k in 0..2000u64 {
                let mut r = writer_reg.lock().unwrap();
                if k % 2 == 0 {
                    r.set_quarantined((k % 3) as usize, 1111);
                } else {
                    r.release_due(i64::MAX, 0);
                }
            }
        });
        let reader_reg = reg.clone();
        // Selection reads, concurrently: every status seen is one of the
        // two whole values ever written, never anything in between.
        let reader = tokio::spawn(async move {
            for _ in 0..2000u64 {
                let mut r = reader_reg.lock().unwrap();
                let picked = select_for_request(&mut r);
                assert!(picked < 3);
                for i in 0..3 {
                    let q = r.nodes[i].quarantine;
                    assert!(q == Quarantine::No || q == Quarantine::Yes(1111));
                }
            }
        });
        writer.await.expect("writer");
        reader.await.expect("reader");
    });
}

#[test]
fn router_errors_map_to_their_status_codes() {
    assert_eq!(status_code(&ErrorKind::BadRequest), 400);
    assert_eq!(status_code(&ErrorKind::Unauthorized), 401);
    assert_eq!(status_code(&ErrorKind::NotFound), 404);
    assert_eq!(status_code(&ErrorKind::UnprocessableEntity), 422);
    assert_eq!(status_code(&ErrorKind::Internal), 500);
}
