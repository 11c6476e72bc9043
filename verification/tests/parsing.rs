//! The JSON object grammar and the payload decoders on concrete bodies.

use tvbridge::json::{parse_object, JsonScalar};
use tvbridge::requests::{decode_position, decode_trade_request};

fn full_trade_body() -> String {
    "{\"direction\":\"long\",\"entry\":50000.5,\"stopLoss\":49000,\
     \"takeProfit\":51000,\"risk\":1.5,\"leverage\":20}"
        .to_string()
}

#[test]
fn parse_simple_object_keeps_member_order() {
    let kvs = parse_object("{\"a\":1,\"b\":\"x\",\"c\":true,\"d\":null}").unwrap();
    assert_eq!(kvs.len(), 4);
    assert_eq!(kvs[0].0, "a");
    assert!(matches!(&kvs[0].1, JsonScalar::Number(t) if t == "1"));
    assert_eq!(kvs[1].0, "b");
    assert!(matches!(&kvs[1].1, JsonScalar::Text(t) if t == "x"));
    assert_eq!(kvs[2].0, "c");
    assert!(matches!(&kvs[2].1, JsonScalar::Truth(true)));
    assert_eq!(kvs[3].0, "d");
    assert!(matches!(&kvs[3].1, JsonScalar::Null));
}

#[test]
fn parse_tolerates_whitespace_everywhere() {
    let kvs = parse_object(" \t\r\n{ \"k\" : false , \"m\" : -12.5e+3 } \n").unwrap();
    assert_eq!(kvs.len(), 2);
    assert!(matches!(&kvs[0].1, JsonScalar::Truth(false)));
    assert!(matches!(&kvs[1].1, JsonScalar::Number(t) if t == "-12.5e+3"));
}

#[test]
fn parse_empty_object() {
    let kvs = parse_object("  { }  ").unwrap();
    assert_eq!(kvs.len(), 0);
}

#[test]
fn parse_decodes_short_escapes() {
    let kvs = parse_object("{\"k\":\"a\\\"b\\\\c\\/d\\ne\\tf\\rg\\bh\\fi\"}").unwrap();
    assert!(
        matches!(&kvs[0].1, JsonScalar::Text(t) if t == "a\"b\\c/d\ne\tf\rg\u{8}h\u{c}i")
    );
}

#[test]
fn parse_rejects_malformed_text() {
    assert!(parse_object("not json").is_none());
    assert!(parse_object("").is_none());
    assert!(parse_object("{}x").is_none());
    assert!(parse_object("{\"a\":1").is_none());
    assert!(parse_object("{\"a\" 1}").is_none());
    assert!(parse_object("{\"a\":}").is_none());
    assert!(parse_object("{\"a\":1,}").is_none());
    assert!(parse_object("{a:1}").is_none());
    assert!(parse_object("{\"a\":\"unterminated}").is_none());
    assert!(parse_object("{\"a\":\"bad \\q escape\"}").is_none());
    assert!(parse_object("{\"a\":\"ctrl \u{1} char\"}").is_none());
    assert!(parse_object("[1,2]").is_none());
    assert!(parse_object("\"just a string\"").is_none());
}

#[test]
fn parse_rejects_nested_containers() {
    // The bridge's bodies are flat; nesting is outside the grammar.
    assert!(parse_object("{\"a\":{\"b\":1}}").is_none());
    assert!(parse_object("{\"a\":[1,2]}").is_none());
}

#[test]
fn parse_rejects_bad_number_tokens() {
    assert!(parse_object("{\"a\":01}").is_none());
    assert!(parse_object("{\"a\":-}").is_none());
    assert!(parse_object("{\"a\":1.}").is_none());
    assert!(parse_object("{\"a\":.5}").is_none());
    assert!(parse_object("{\"a\":1e}").is_none());
    assert!(parse_object("{\"a\":+1}").is_none());
}

#[test]
fn parse_accepts_number_token_shapes() {
    for tok in ["0", "-0", "10", "3.25", "-3.25", "1e9", "1E9", "1e-9", "1.5e+2"] {
        let body = format!("{{\"a\":{}}}", tok);
        let kvs = parse_object(&body).expect(tok);
        assert!(matches!(&kvs[0].1, JsonScalar::Number(t) if t == tok));
    }
}

#[test]
fn parse_agreement_with_serde_on_flat_bodies() {
    let bodies = [
        "{\"a\":1,\"b\":\"x\"}",
        "{ }",
        "{\"a\":true,\"b\":null}",
        "not json",
        "{}x",
        "{\"a\":01}",
        "{\"a\":\"bad \\q\"}",
        "{\"a\":1,}",
    ];
    for body in bodies {
        let mine = parse_object(body).is_some();
        let serde = serde_json::from_str::<serde_json::Value>(body)
            .map(|v| v.is_object())
            .unwrap_or(false);
        assert_eq!(mine, serde, "disagreement on {:?}", body);
    }
}

#[test]
fn decode_trade_request_full_and_optional() {
    let kvs = parse_object(&full_trade_body()).unwrap();
    let t = decode_trade_request(&kvs).unwrap();
    assert_eq!(t.direction, "long");
    assert_eq!(t.leverage, 20);
    assert_eq!(t.take_profit, Some("51000".to_string()));

    let no_tp = "{\"direction\":\"short\",\"entry\":1,\"stopLoss\":2,\
                 \"risk\":0.5,\"leverage\":1}";
    let t = decode_trade_request(&parse_object(no_tp).unwrap()).unwrap();
    assert_eq!(t.take_profit, None);

    let null_tp = "{\"direction\":\"short\",\"entry\":1,\"stopLoss\":2,\
                   \"takeProfit\":null,\"risk\":0.5,\"leverage\":1}";
    let t = decode_trade_request(&parse_object(null_tp).unwrap()).unwrap();
    assert_eq!(t.take_profit, None);
}

#[test]
fn decode_trade_request_ignores_unknown_keys() {
    let body = "{\"direction\":\"long\",\"entry\":1,\"stopLoss\":2,\"risk\":1,\
                \"leverage\":5,\"note\":\"ignored\",\"extra\":null}";
    let t = decode_trade_request(&parse_object(body).unwrap()).unwrap();
    assert_eq!(t.leverage, 5);
}

#[test]
fn decode_trade_request_permits_odd_but_legal_records() {
    // Zero leverage is stored as given: validation is the UI's business.
    let zero = "{\"direction\":\"long\",\"entry\":1,\"stopLoss\":2,\"risk\":1,\
                \"leverage\":0}";
    let t = decode_trade_request(&parse_object(zero).unwrap()).unwrap();
    assert_eq!(t.leverage, 0);
    // A repeated unknown key is no error; only known keys must be unique.
    let dup_unknown = "{\"direction\":\"long\",\"entry\":1,\"stopLoss\":2,\
                      \"risk\":1,\"leverage\":3,\"x\":1,\"x\":2}";
    let t = decode_trade_request(&parse_object(dup_unknown).unwrap()).unwrap();
    assert_eq!(t.leverage, 3);
}

#[test]
fn decode_trade_request_rejects_bad_records() {
    let missing = "{\"direction\":\"long\",\"entry\":1,\"stopLoss\":2,\"risk\":1}";
    assert!(decode_trade_request(&parse_object(missing).unwrap()).is_none());

    let dup = "{\"direction\":\"long\",\"direction\":\"short\",\"entry\":1,\
               \"stopLoss\":2,\"risk\":1,\"leverage\":5}";
    assert!(decode_trade_request(&parse_object(dup).unwrap()).is_none());

    let wrong_type = "{\"direction\":7,\"entry\":1,\"stopLoss\":2,\"risk\":1,\
                      \"leverage\":5}";
    assert!(decode_trade_request(&parse_object(wrong_type).unwrap()).is_none());

    let frac_leverage = "{\"direction\":\"long\",\"entry\":1,\"stopLoss\":2,\
                         \"risk\":1,\"leverage\":2.5}";
    assert!(decode_trade_request(&parse_object(frac_leverage).unwrap()).is_none());

    let exp_leverage = "{\"direction\":\"long\",\"entry\":1,\"stopLoss\":2,\
                        \"risk\":1,\"leverage\":1e2}";
    assert!(decode_trade_request(&parse_object(exp_leverage).unwrap()).is_none());

    let neg_leverage = "{\"direction\":\"long\",\"entry\":1,\"stopLoss\":2,\
                        \"risk\":1,\"leverage\":-5}";
    assert!(decode_trade_request(&parse_object(neg_leverage).unwrap()).is_none());
}

#[test]
fn decode_trade_request_checks_leverage_range() {
    let max = "{\"direction\":\"long\",\"entry\":1,\"stopLoss\":2,\"risk\":1,\
               \"leverage\":4294967295}";
    let t = decode_trade_request(&parse_object(max).unwrap()).unwrap();
    assert_eq!(t.leverage, u32::MAX);

    let over = "{\"direction\":\"long\",\"entry\":1,\"stopLoss\":2,\"risk\":1,\
                \"leverage\":4294967296}";
    assert!(decode_trade_request(&parse_object(over).unwrap()).is_none());
}

#[test]
fn decode_position_reads_timestamp() {
    let body = "{\"direction\":\"long\",\"entry\":64000,\"stopLoss\":63000,\
                \"takeProfit\":66000,\"timestamp\":1712345678901}";
    let p = decode_position(&parse_object(body).unwrap()).unwrap();
    assert_eq!(p.timestamp, 1712345678901);
    assert_eq!(p.take_profit, Some("66000".to_string()));

    let bad_ts = "{\"direction\":\"long\",\"entry\":64000,\"stopLoss\":63000,\
                  \"timestamp\":1.5}";
    assert!(decode_position(&parse_object(bad_ts).unwrap()).is_none());

    let huge_ts = "{\"direction\":\"long\",\"entry\":64000,\"stopLoss\":63000,\
                   \"timestamp\":18446744073709551616}";
    assert!(decode_position(&parse_object(huge_ts).unwrap()).is_none());
}
