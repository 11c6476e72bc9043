//! Routing and reply bodies, exactly as they go on the wire.

use tvbridge::replies::{
    invalid_request_reply, not_found_reply, ok_reply, position_event, preflight_reply,
    publish_error_reply, read_error_reply, route_request, settings_reply, start_trade,
    timeout_reply, trade_result_reply, HttpReply, ReplyKind, Route, TradeStart,
};
use tvbridge::requests::TradeResult;
use tvbridge::settings::{settings_json, BridgeSettings};

fn header_names(r: &HttpReply) -> Vec<String> {
    r.header_lines().into_iter().map(|h| h.0).collect()
}

#[test]
fn options_is_preflight_for_every_path() {
    assert_eq!(route_request("OPTIONS", "/anything"), Route::Preflight);
    assert_eq!(route_request("OPTIONS", "/settings"), Route::Preflight);
    assert_eq!(route_request("OPTIONS", ""), Route::Preflight);
    let r = preflight_reply();
    assert_eq!(r.status, 200);
    assert_eq!(r.body, "");
    let names = header_names(&r);
    assert_eq!(
        names,
        vec![
            "Access-Control-Allow-Origin".to_string(),
            "Access-Control-Allow-Methods".to_string(),
            "Access-Control-Allow-Headers".to_string(),
        ]
    );
}

#[test]
fn route_table_matches_endpoints() {
    assert_eq!(route_request("GET", "/settings"), Route::Settings);
    assert_eq!(route_request("POST", "/position"), Route::Position);
    assert_eq!(route_request("POST", "/position-closed"), Route::PositionClosed);
    assert_eq!(route_request("POST", "/execute-trade"), Route::ExecuteTrade);
    assert_eq!(route_request("GET", "/position"), Route::Unknown);
    assert_eq!(route_request("POST", "/settings"), Route::Unknown);
    assert_eq!(route_request("DELETE", "/execute-trade"), Route::Unknown);
    assert_eq!(route_request("GET", "/other"), Route::Unknown);
}

#[test]
fn unknown_route_gets_not_found() {
    let r = not_found_reply();
    assert_eq!(r.status, 404);
    assert_eq!(r.body, "Not Found");
    assert_eq!(header_names(&r), vec!["Access-Control-Allow-Origin".to_string()]);
}

#[test]
fn every_reply_carries_allow_origin() {
    let replies = vec![
        preflight_reply(),
        ok_reply(),
        not_found_reply(),
        invalid_request_reply(),
        read_error_reply(),
        timeout_reply(),
        publish_error_reply("boom"),
        trade_result_reply(&TradeResult { success: true, error: None }),
        settings_reply(&BridgeSettings::default()),
    ];
    for r in replies {
        let lines = r.header_lines();
        assert_eq!(lines[0].0, "Access-Control-Allow-Origin");
        assert_eq!(lines[0].1, "*");
    }
}

#[test]
fn settings_after_update_read_back_exactly() {
    let mut s = BridgeSettings::default();
    s.update("2.5".to_string(), 10, "ETH".to_string(), "3000".to_string());
    let r = settings_reply(&s);
    assert_eq!(r.status, 200);
    assert_eq!(r.kind, ReplyKind::Json);
    assert_eq!(r.body, "{\"risk\":2.5,\"leverage\":10,\"asset\":\"ETH\",\"price\":3000}");
    let lines = r.header_lines();
    assert!(lines.iter().any(|h| h.0 == "Content-Type" && h.1 == "application/json"));
}

#[test]
fn default_settings_encode_startup_record() {
    let s = BridgeSettings::default();
    assert_eq!(
        settings_json(&s),
        "{\"risk\":1.0,\"leverage\":25,\"asset\":\"BTC\",\"price\":0.0}"
    );
}

#[test]
fn settings_json_is_valid_json_for_serde() {
    let mut s = BridgeSettings::default();
    s.update("0.75".to_string(), 50, "SOL".to_string(), "187.25".to_string());
    let v: serde_json::Value = serde_json::from_str(&settings_json(&s)).unwrap();
    assert_eq!(v["risk"].as_f64().unwrap(), 0.75);
    assert_eq!(v["leverage"].as_u64().unwrap(), 50);
    assert_eq!(v["asset"].as_str().unwrap(), "SOL");
    assert_eq!(v["price"].as_f64().unwrap(), 187.25);
}

#[test]
fn settings_asset_is_escaped_like_a_json_string() {
    let mut s = BridgeSettings::default();
    let asset = "A\"B\\C\nD\tE\u{1}F".to_string();
    s.update("1.0".to_string(), 1, asset.clone(), "0.0".to_string());
    let v: serde_json::Value = serde_json::from_str(&settings_json(&s)).unwrap();
    assert_eq!(v["asset"].as_str().unwrap(), asset);
}

#[test]
fn trade_reply_success_is_fixed_body() {
    let r = trade_result_reply(&TradeResult { success: true, error: None });
    assert_eq!(r.status, 200);
    assert_eq!(r.kind, ReplyKind::Json);
    assert_eq!(r.body, "{\"success\":true}");
}

#[test]
fn trade_reply_failure_escapes_quotes() {
    let r = trade_result_reply(&TradeResult {
        success: false,
        error: Some("order \"X\" rejected".to_string()),
    });
    assert_eq!(r.status, 200);
    assert_eq!(
        r.body,
        "{\"success\":false,\"error\":\"order \\\"X\\\" rejected\"}"
    );
}

#[test]
fn trade_reply_failure_without_message_uses_fallback() {
    let r = trade_result_reply(&TradeResult { success: false, error: None });
    assert_eq!(r.body, "{\"success\":false,\"error\":\"Trade failed\"}");
}

#[test]
fn timeout_reply_is_fixed_408() {
    let r = timeout_reply();
    assert_eq!(r.status, 408);
    assert_eq!(r.kind, ReplyKind::Json);
    assert_eq!(r.body, "{\"success\":false,\"error\":\"Trade execution timeout\"}");
}

#[test]
fn publish_error_inlines_message() {
    let r = publish_error_reply("no window attached");
    assert_eq!(r.status, 500);
    assert_eq!(r.body, "{\"success\":false,\"error\":\"no window attached\"}");
}

#[test]
fn start_trade_accepts_a_full_body() {
    let body = "{\"direction\":\"long\",\"entry\":50000.5,\"stopLoss\":49000,\
                \"takeProfit\":51000,\"risk\":1.5,\"leverage\":20}";
    match start_trade(Some(body)) {
        TradeStart::Publish(req) => {
            assert_eq!(req.direction, "long");
            assert_eq!(req.entry, "50000.5");
            assert_eq!(req.stop_loss, "49000");
            assert_eq!(req.take_profit, Some("51000".to_string()));
            assert_eq!(req.risk, "1.5");
            assert_eq!(req.leverage, 20);
        }
        TradeStart::Reject(_) => panic!("valid body rejected"),
    }
}

#[test]
fn start_trade_rejects_malformed_body() {
    match start_trade(Some("not json")) {
        TradeStart::Reject(rep) => {
            assert_eq!(rep.status, 400);
            assert_eq!(rep.body, "{\"success\":false,\"error\":\"Invalid request\"}");
        }
        TradeStart::Publish(_) => panic!("malformed body published"),
    }
}

#[test]
fn start_trade_rejects_unreadable_body() {
    match start_trade(None) {
        TradeStart::Reject(rep) => {
            assert_eq!(rep.status, 400);
            assert_eq!(rep.body, "{\"success\":false,\"error\":\"Failed to read body\"}");
        }
        TradeStart::Publish(_) => panic!("unreadable body published"),
    }
}

#[test]
fn position_post_is_acknowledged_and_event_selected() {
    let ok = ok_reply();
    assert_eq!(ok.status, 200);
    assert_eq!(ok.body, "OK");
    let body = "{\"direction\":\"short\",\"entry\":1.25,\"stopLoss\":1.30,\
                \"timestamp\":1712345678}";
    let ev = position_event(Some(body)).expect("valid notification dropped");
    assert_eq!(ev.direction, "short");
    assert_eq!(ev.entry, "1.25");
    assert_eq!(ev.stop_loss, "1.30");
    assert_eq!(ev.take_profit, None);
    assert_eq!(ev.timestamp, 1712345678);
    assert!(position_event(Some("garbage")).is_none());
    assert!(position_event(None).is_none());
}
