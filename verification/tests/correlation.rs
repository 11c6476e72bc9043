//! The correlation table on the scenarios the protocol cares about:
//! an ordinary round trip, overlapping trades, and late reports.

use tvbridge::mailbox::PendingTable;
use tvbridge::replies::{timeout_reply, trade_result_reply};
use tvbridge::requests::TradeResult;

fn ok_result() -> TradeResult {
    TradeResult { success: true, error: None }
}

fn err_result(msg: &str) -> TradeResult {
    TradeResult { success: false, error: Some(msg.to_string()) }
}

#[test]
fn round_trip_delivers_the_reported_result() {
    let mut t = PendingTable::new();
    assert!(t.has_capacity());
    let id = t.register();
    assert!(t.take(id).is_none(), "nothing delivered yet");
    assert!(t.deliver(id, err_result("slippage")));
    let got = t.take(id).expect("delivered result lost");
    assert!(!got.success);
    assert_eq!(got.error.as_deref(), Some("slippage"));
    // The reply the waiter now sends carries the reported outcome.
    let reply = trade_result_reply(&got);
    assert_eq!(reply.status, 200);
    assert_eq!(reply.body, "{\"success\":false,\"error\":\"slippage\"}");
    // The entry is gone once collected.
    assert!(t.take(id).is_none());
}

#[test]
fn overlapping_trades_cannot_misroute_reports() {
    let mut t = PendingTable::new();
    let id1 = t.register();
    let id2 = t.register();
    assert_ne!(id1, id2, "overlapping registrations share an identifier");
    // The first trade's report arrives; the second slot must stay waiting.
    assert!(t.deliver(id1, err_result("first")));
    assert!(t.take(id2).is_none(), "second waiter saw the first report");
    let first = t.take(id1).expect("first report lost");
    assert_eq!(first.error.as_deref(), Some("first"));
    // The second trade still completes with its own report.
    assert!(t.deliver(id2, ok_result()));
    let second = t.take(id2).expect("second report lost");
    assert!(second.success);
}

#[test]
fn late_report_after_timeout_is_dropped() {
    let mut t = PendingTable::new();
    let id = t.register();
    // Deadline passes: the waiter gives up, sends the fixed 408, and
    // removes its entry.
    assert!(t.take(id).is_none());
    t.expire(id);
    let reply = timeout_reply();
    assert_eq!(reply.status, 408);
    assert_eq!(reply.body, "{\"success\":false,\"error\":\"Trade execution timeout\"}");
    // The UI's report arrives afterwards: nobody receives it.
    assert!(!t.deliver(id, ok_result()));
    assert!(t.take(id).is_none(), "a second outcome appeared after the timeout");
}

#[test]
fn report_with_unknown_identifier_is_dropped() {
    let mut t = PendingTable::new();
    assert!(!t.deliver(7, ok_result()));
    let id = t.register();
    assert!(!t.deliver(id + 1, ok_result()));
    assert!(t.take(id).is_none(), "foreign report reached the waiter");
}

#[test]
fn second_report_for_same_trade_is_dropped() {
    let mut t = PendingTable::new();
    let id = t.register();
    assert!(t.deliver(id, err_result("real outcome")));
    assert!(!t.deliver(id, ok_result()), "filled slot overwritten");
    let got = t.take(id).expect("result lost");
    assert_eq!(got.error.as_deref(), Some("real outcome"));
}

#[test]
fn expire_is_idempotent_and_scoped() {
    let mut t = PendingTable::new();
    let id1 = t.register();
    let id2 = t.register();
    t.expire(id1);
    t.expire(id1);
    assert!(t.deliver(id2, ok_result()), "expiry removed another trade's slot");
    assert!(t.take(id2).unwrap().success);
}
