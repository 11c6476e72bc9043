//! Routing and the exact wire form of every reply the bridge sends.
//!
//! A reply is a status, a body, and one of three header shapes: every reply
//! carries the permissive allow-origin header; a preflight reply adds the
//! allowed-methods and allowed-headers entries; a reply whose body is
//! announced as JSON adds the content-type entry. Which replies announce
//! their body, and which do not, is part of the wire contract, so a
//! few JSON-shaped error bodies go out unannounced.

use vstd::prelude::*;

use crate::json::spec_object;
use crate::requests::{PositionData, PositionView, TradeRequest, TradeResult, TradeResultView,
    TradeView, spec_position_of, spec_trade_request_of};
use crate::settings::{BridgeSettings, settings_json, spec_settings_json};
use crate::text::{escape_quotes, spec_escape_quotes, str_eq};

verus! {

/// Which headers a reply carries beside the universal allow-origin entry.
#[derive(Clone, Copy, PartialEq, Eq, Structural, Debug)]
pub enum ReplyKind {
    /// The three CORS entries and nothing else; preflight answers.
    Preflight,
    /// Allow-origin and a JSON content-type entry.
    Json,
    /// Allow-origin only.
    Bare,
}

/// One HTTP reply, ready for an unverified listener to send.
pub struct HttpReply {
    pub status: u16,
    pub kind: ReplyKind,
    pub body: String,
}

/// Ghost image of an [`HttpReply`].
pub struct ReplyView {
    pub status: u16,
    pub kind: ReplyKind,
    pub body: Seq<char>,
}

impl View for HttpReply {
    type V = ReplyView;

    open spec fn view(&self) -> ReplyView {
        ReplyView { status: self.status, kind: self.kind, body: self.body@ }
    }
}

/// The header lines a reply of this kind carries, in order.
pub open spec fn spec_headers(k: ReplyKind) -> Seq<(Seq<char>, Seq<char>)> {
    match k {
        ReplyKind::Preflight => seq![
            ("Access-Control-Allow-Origin"@, "*"@),
            ("Access-Control-Allow-Methods"@, "GET, POST, OPTIONS"@),
            ("Access-Control-Allow-Headers"@, "Content-Type"@),
        ],
        ReplyKind::Json => seq![
            ("Access-Control-Allow-Origin"@, "*"@),
            ("Content-Type"@, "application/json"@),
        ],
        ReplyKind::Bare => seq![("Access-Control-Allow-Origin"@, "*"@)],
    }
}

/// Ghost image of executable header lines.
pub open spec fn headers_view(v: Seq<(String, String)>) -> Seq<(Seq<char>, Seq<char>)> {
    v.map_values(|h: (String, String)| (h.0@, h.1@))
}

impl HttpReply {
    /// The header lines to send with this reply.
    pub fn header_lines(&self) -> (v: Vec<(String, String)>)
        ensures
            headers_view(v@) == spec_headers(self@.kind),
    {
        let mut v: Vec<(String, String)> = Vec::new();
        v.push((
            String::from_str("Access-Control-Allow-Origin"),
            String::from_str("*"),
        ));
        match self.kind {
            ReplyKind::Preflight => {
                v.push((
                    String::from_str("Access-Control-Allow-Methods"),
                    String::from_str("GET, POST, OPTIONS"),
                ));
                v.push((
                    String::from_str("Access-Control-Allow-Headers"),
                    String::from_str("Content-Type"),
                ));
            },
            ReplyKind::Json => {
                v.push((
                    String::from_str("Content-Type"),
                    String::from_str("application/json"),
                ));
            },
            ReplyKind::Bare => {},
        }
        proof {
            assert(headers_view(v@) =~= spec_headers(self@.kind));
        }
        v
    }
}

/// The routes the bridge serves.
#[derive(Clone, Copy, PartialEq, Eq, Structural, Debug)]
pub enum Route {
    Preflight,
    Settings,
    Position,
    PositionClosed,
    ExecuteTrade,
    Unknown,
}

/// The route for a method and a path: preflight for any OPTIONS request
/// whatever the path, the four fixed endpoints, and unknown otherwise.
pub open spec fn spec_route(method: Seq<char>, path: Seq<char>) -> Route {
    if method == "OPTIONS"@ {
        Route::Preflight
    } else if method == "GET"@ && path == "/settings"@ {
        Route::Settings
    } else if method == "POST"@ && path == "/position"@ {
        Route::Position
    } else if method == "POST"@ && path == "/position-closed"@ {
        Route::PositionClosed
    } else if method == "POST"@ && path == "/execute-trade"@ {
        Route::ExecuteTrade
    } else {
        Route::Unknown
    }
}

/// Route a request by its method and path.
pub fn route_request(method: &str, path: &str) -> (r: Route)
    ensures
        r == spec_route(method@, path@),
{
    if str_eq(method, "OPTIONS") {
        Route::Preflight
    } else if str_eq(method, "GET") && str_eq(path, "/settings") {
        Route::Settings
    } else if str_eq(method, "POST") && str_eq(path, "/position") {
        Route::Position
    } else if str_eq(method, "POST") && str_eq(path, "/position-closed") {
        Route::PositionClosed
    } else if str_eq(method, "POST") && str_eq(path, "/execute-trade") {
        Route::ExecuteTrade
    } else {
        Route::Unknown
    }
}

/// An OPTIONS request is answered by the preflight reply whatever its
/// path, and that reply is an empty 200 carrying all three CORS header
/// lines.
pub proof fn lemma_preflight_uniform(path: Seq<char>)
    ensures
        spec_route("OPTIONS"@, path) == Route::Preflight,
        spec_headers(ReplyKind::Preflight).len() == 3,
        spec_headers(ReplyKind::Preflight)[0].0 == "Access-Control-Allow-Origin"@,
        spec_headers(ReplyKind::Preflight)[1].0 == "Access-Control-Allow-Methods"@,
        spec_headers(ReplyKind::Preflight)[2].0 == "Access-Control-Allow-Headers"@,
{
}

/// The preflight answer: an empty 200 with the three CORS header lines.
pub fn preflight_reply() -> (r: HttpReply)
    ensures
        r@.status == 200,
        r@.kind == ReplyKind::Preflight,
        r@.body == Seq::<char>::empty(),
{
    HttpReply { status: 200, kind: ReplyKind::Preflight, body: String::new() }
}

/// The plain acknowledgement sent for notification posts.
pub fn ok_reply() -> (r: HttpReply)
    ensures
        r@.status == 200,
        r@.kind == ReplyKind::Bare,
        r@.body == "OK"@,
{
    HttpReply { status: 200, kind: ReplyKind::Bare, body: String::from_str("OK") }
}

/// The reply for a method and path the bridge does not serve.
pub fn not_found_reply() -> (r: HttpReply)
    ensures
        r@.status == 404,
        r@.kind == ReplyKind::Bare,
        r@.body == "Not Found"@,
{
    HttpReply { status: 404, kind: ReplyKind::Bare, body: String::from_str("Not Found") }
}

/// The settings snapshot as a JSON reply.
pub fn settings_reply(s: &BridgeSettings) -> (r: HttpReply)
    ensures
        r@.status == 200,
        r@.kind == ReplyKind::Json,
        r@.body == spec_settings_json(s@),
{
    HttpReply { status: 200, kind: ReplyKind::Json, body: settings_json(s) }
}

/// The reply for a trade body that does not decode.
pub fn invalid_request_reply() -> (r: HttpReply)
    ensures
        r@.status == 400,
        r@.kind == ReplyKind::Bare,
        r@.body == "{\"success\":false,\"error\":\"Invalid request\"}"@,
{
    HttpReply {
        status: 400,
        kind: ReplyKind::Bare,
        body: String::from_str("{\"success\":false,\"error\":\"Invalid request\"}"),
    }
}

/// The reply for a trade request whose body could not be read.
pub fn read_error_reply() -> (r: HttpReply)
    ensures
        r@.status == 400,
        r@.kind == ReplyKind::Bare,
        r@.body == "{\"success\":false,\"error\":\"Failed to read body\"}"@,
{
    HttpReply {
        status: 400,
        kind: ReplyKind::Bare,
        body: String::from_str("{\"success\":false,\"error\":\"Failed to read body\"}"),
    }
}

/// The reply when no result arrived within the deadline.
pub fn timeout_reply() -> (r: HttpReply)
    ensures
        r@.status == 408,
        r@.kind == ReplyKind::Json,
        r@.body == "{\"success\":false,\"error\":\"Trade execution timeout\"}"@,
{
    HttpReply {
        status: 408,
        kind: ReplyKind::Json,
        body: String::from_str("{\"success\":false,\"error\":\"Trade execution timeout\"}"),
    }
}

/// The reply when publishing the execute-trade event failed: the
/// publisher's message is inlined unescaped, as the wire format has it.
pub fn publish_error_reply(msg: &str) -> (r: HttpReply)
    ensures
        r@.status == 500,
        r@.kind == ReplyKind::Bare,
        r@.body == "{\"success\":false,\"error\":\""@ + msg@ + "\"}"@,
{
    let mut body = String::new();
    body.append("{\"success\":false,\"error\":\"");
    body.append(msg);
    body.append("\"}");
    proof {
        assert(body@ =~= "{\"success\":false,\"error\":\""@ + msg@ + "\"}"@);
    }
    HttpReply { status: 500, kind: ReplyKind::Bare, body }
}

/// The reply body for a reported trade outcome: the fixed success body,
/// or the failure body holding the reported message (or the fixed
/// fallback) with each `"` escaped.
pub open spec fn spec_trade_body(r: TradeResultView) -> Seq<char> {
    if r.success {
        "{\"success\":true}"@
    } else {
        "{\"success\":false,\"error\":\""@ + spec_escape_quotes(
            match r.error {
                Some(m) => m,
                None => "Trade failed"@,
            },
        ) + "\"}"@
    }
}

/// The reply for a result the UI reported within the deadline.
pub fn trade_result_reply(result: &TradeResult) -> (r: HttpReply)
    ensures
        r@.status == 200,
        r@.kind == ReplyKind::Json,
        r@.body == spec_trade_body(result@),
{
    if result.success {
        HttpReply {
            status: 200,
            kind: ReplyKind::Json,
            body: String::from_str("{\"success\":true}"),
        }
    } else {
        let escaped = match &result.error {
            Some(m) => escape_quotes(m.as_str()),
            None => escape_quotes("Trade failed"),
        };
        let mut body = String::new();
        body.append("{\"success\":false,\"error\":\"");
        body.append(escaped.as_str());
        body.append("\"}");
        proof {
            assert(body@ =~= spec_trade_body(result@));
        }
        HttpReply { status: 200, kind: ReplyKind::Json, body }
    }
}

/// The reply body is faithful to the report: a success report gives the
/// fixed success body; a failure report gives the failure body, whose
/// error text is the reported message (the fixed fallback when none was
/// given) with each `"` escaped; and the two shapes can never coincide,
/// so the body always determines the reported success flag.
pub proof fn lemma_trade_reply_faithful(a: TradeResultView, b: TradeResultView)
    ensures
        a.success ==> spec_trade_body(a) == "{\"success\":true}"@,
        !a.success ==> spec_trade_body(a) == "{\"success\":false,\"error\":\""@
            + spec_escape_quotes(
            match a.error {
                Some(m) => m,
                None => "Trade failed"@,
            },
        ) + "\"}"@,
        a.success != b.success ==> spec_trade_body(a) != spec_trade_body(b),
{
    reveal_strlit("{\"success\":true}");
    reveal_strlit("{\"success\":false,\"error\":\"");
    assert("{\"success\":true}"@.len() == 16);
    assert("{\"success\":false,\"error\":\""@.len() == 26);
    assert("{\"success\":true}"@[11] == 't');
    assert("{\"success\":false,\"error\":\""@[11] == 'f');
    if a.success != b.success {
        let t = if a.success { spec_trade_body(a) } else { spec_trade_body(b) };
        let f = if a.success { spec_trade_body(b) } else { spec_trade_body(a) };
        assert(t[11] == 't');
        assert(f[11] == 'f');
    }
}

/// The trade request carried by a request body, if the body is a
/// well-formed object whose members decode.
pub open spec fn spec_trade_of_body(body: Seq<char>) -> Option<TradeView> {
    match spec_object(body) {
        Some(kvs) => spec_trade_request_of(kvs),
        None => None,
    }
}

/// The position notification carried by a request body, if any.
pub open spec fn spec_position_of_body(body: Seq<char>) -> Option<PositionView> {
    match spec_object(body) {
        Some(kvs) => spec_position_of(kvs),
        None => None,
    }
}

/// How an execute-trade request proceeds after its body is examined:
/// rejected with a final reply, or published to the UI as an event.
pub enum TradeStart {
    Reject(HttpReply),
    Publish(TradeRequest),
}

/// Examine an execute-trade body. An unreadable body is rejected with the
/// fixed read-failure reply; a body that is not a decodable trade request
/// is rejected with the fixed invalid-request reply; only a decodable
/// body goes on to be published, so a malformed request can never reach
/// the correlation table or the event bus.
pub fn start_trade(body: Option<&str>) -> (r: TradeStart)
    ensures
        (match body {
            None => (r matches TradeStart::Reject(rep) && rep@.status == 400 && rep@.body
                == "{\"success\":false,\"error\":\"Failed to read body\"}"@ && rep@.kind
                == ReplyKind::Bare),
            Some(b) => (match spec_trade_of_body(b@) {
                Some(t) => (r matches TradeStart::Publish(req) && req@ == t),
                None => (r matches TradeStart::Reject(rep) && rep@.status == 400 && rep@.body
                    == "{\"success\":false,\"error\":\"Invalid request\"}"@ && rep@.kind
                    == ReplyKind::Bare),
            }),
        }),
{
    match body {
        None => TradeStart::Reject(read_error_reply()),
        Some(b) => {
            match crate::json::parse_object(b) {
                Some(kvs) => {
                    match crate::requests::decode_trade_request(&kvs) {
                        Some(req) => TradeStart::Publish(req),
                        None => TradeStart::Reject(invalid_request_reply()),
                    }
                },
                None => TradeStart::Reject(invalid_request_reply()),
            }
        },
    }
}

/// Examine a position-notification body: the decoded notification to
/// forward, if the body was readable and decodes; the acknowledgement is
/// sent regardless, so this only selects the event.
pub fn position_event(body: Option<&str>) -> (r: Option<PositionData>)
    ensures
        (match body {
            None => r is None,
            Some(b) => (match spec_position_of_body(b@) {
                Some(p) => (r matches Some(pd) && pd@ == p),
                None => r is None,
            }),
        }),
{
    match body {
        None => None,
        Some(b) => {
            match crate::json::parse_object(b) {
                Some(kvs) => crate::requests::decode_position(&kvs),
                None => None,
            }
        },
    }
}

} // verus!
