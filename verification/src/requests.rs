//! The inbound payload types and their decoding from a parsed JSON object.
//!
//! Decoding follows the usual record rules: members are read in source
//! order, a repeated known key is an error, unknown keys are ignored, every
//! required field must be present with a value of the right shape, and the
//! one optional field may be absent or null. Price-like fields keep their
//! number token text; the integer fields are read as decimal values with
//! their range checked.

use vstd::prelude::*;

use crate::json::{JsonScalar, MembersView, ScalarView, members_view};
use crate::text::{spec_all_digits, spec_dec_val, str_eq, to_char_vec, parse_u32,
    parse_u64_bounded};

verus! {

/// A trade-execution request forwarded to the UI.
pub struct TradeRequest {
    /// Position direction, `long` or `short` by convention (not enforced).
    pub direction: String,
    /// Entry price, as JSON number text.
    pub entry: String,
    /// Stop-loss price, as JSON number text.
    pub stop_loss: String,
    /// Take-profit price, as JSON number text; absent when the caller sent
    /// none or sent null.
    pub take_profit: Option<String>,
    /// Risk for this trade, as JSON number text.
    pub risk: String,
    /// Leverage for this trade.
    pub leverage: u32,
}

/// Ghost image of a [`TradeRequest`].
pub struct TradeView {
    pub direction: Seq<char>,
    pub entry: Seq<char>,
    pub stop_loss: Seq<char>,
    pub take_profit: Option<Seq<char>>,
    pub risk: Seq<char>,
    pub leverage: u32,
}

impl View for TradeRequest {
    type V = TradeView;

    open spec fn view(&self) -> TradeView {
        TradeView {
            direction: self.direction@,
            entry: self.entry@,
            stop_loss: self.stop_loss@,
            take_profit: match self.take_profit {
                Some(ref t) => Some(t@),
                None => None,
            },
            risk: self.risk@,
            leverage: self.leverage,
        }
    }
}

/// A position-opened notification forwarded to the UI.
pub struct PositionData {
    pub direction: String,
    pub entry: String,
    pub stop_loss: String,
    pub take_profit: Option<String>,
    pub timestamp: u64,
}

/// Ghost image of a [`PositionData`].
pub struct PositionView {
    pub direction: Seq<char>,
    pub entry: Seq<char>,
    pub stop_loss: Seq<char>,
    pub take_profit: Option<Seq<char>>,
    pub timestamp: u64,
}

impl View for PositionData {
    type V = PositionView;

    open spec fn view(&self) -> PositionView {
        PositionView {
            direction: self.direction@,
            entry: self.entry@,
            stop_loss: self.stop_loss@,
            take_profit: match self.take_profit {
                Some(ref t) => Some(t@),
                None => None,
            },
            timestamp: self.timestamp,
        }
    }
}

/// The outcome the UI reports for one executed trade.
pub struct TradeResult {
    pub success: bool,
    pub error: Option<String>,
}

/// Ghost image of a [`TradeResult`].
pub struct TradeResultView {
    pub success: bool,
    pub error: Option<Seq<char>>,
}

impl View for TradeResult {
    type V = TradeResultView;

    open spec fn view(&self) -> TradeResultView {
        TradeResultView {
            success: self.success,
            error: match self.error {
                Some(ref e) => Some(e@),
                None => None,
            },
        }
    }
}

/// How many members of the object carry this key.
pub open spec fn spec_key_count(kvs: MembersView, key: Seq<char>) -> nat
    decreases kvs.len(),
{
    if kvs.len() == 0 {
        0
    } else {
        spec_key_count(kvs.drop_last(), key) + (if kvs.last().0 == key {
            1nat
        } else {
            0nat
        })
    }
}

/// Value of the first member carrying this key, if any.
pub open spec fn spec_lookup(kvs: MembersView, key: Seq<char>) -> Option<ScalarView>
    decreases kvs.len(),
{
    if kvs.len() == 0 {
        None
    } else {
        match spec_lookup(kvs.drop_last(), key) {
            Some(v) => Some(v),
            None => if kvs.last().0 == key {
                Some(kvs.last().1)
            } else {
                None
            },
        }
    }
}

/// A key occurs in the whole list at least as often as in a prefix.
proof fn lemma_count_mono(kvs: MembersView, key: Seq<char>, i: int)
    requires
        0 <= i <= kvs.len(),
    ensures
        spec_key_count(kvs.take(i), key) <= spec_key_count(kvs, key),
    decreases kvs.len() - i,
{
    if i < kvs.len() {
        assert(kvs.take(i + 1).drop_last() =~= kvs.take(i));
        assert(kvs.take(i + 1).last() == kvs[i]);
        lemma_count_mono(kvs, key, i + 1);
    } else {
        assert(kvs.take(i) =~= kvs);
    }
}

/// Once a prefix of the members determines the first value for a key,
/// reading further members cannot change it.
proof fn lemma_lookup_persist(kvs: MembersView, key: Seq<char>, i: int)
    requires
        0 <= i <= kvs.len(),
        spec_lookup(kvs.take(i), key) is Some,
    ensures
        spec_lookup(kvs, key) == spec_lookup(kvs.take(i), key),
    decreases kvs.len() - i,
{
    if i < kvs.len() {
        assert(kvs.take(i + 1).drop_last() =~= kvs.take(i));
        lemma_lookup_persist(kvs, key, i + 1);
    } else {
        assert(kvs.take(i) =~= kvs);
    }
}

/// The member keys the decoders distinguish are pairwise different texts.
proof fn lemma_keys_distinct()
    ensures
        "direction"@ != "entry"@,
        "direction"@ != "stopLoss"@,
        "direction"@ != "takeProfit"@,
        "direction"@ != "risk"@,
        "direction"@ != "leverage"@,
        "direction"@ != "timestamp"@,
        "entry"@ != "stopLoss"@,
        "entry"@ != "takeProfit"@,
        "entry"@ != "risk"@,
        "entry"@ != "leverage"@,
        "entry"@ != "timestamp"@,
        "stopLoss"@ != "takeProfit"@,
        "stopLoss"@ != "risk"@,
        "stopLoss"@ != "leverage"@,
        "stopLoss"@ != "timestamp"@,
        "takeProfit"@ != "risk"@,
        "takeProfit"@ != "leverage"@,
        "takeProfit"@ != "timestamp"@,
        "risk"@ != "leverage"@,
        "risk"@ != "timestamp"@,
        "leverage"@ != "timestamp"@,
{
    reveal_strlit("direction");
    reveal_strlit("entry");
    reveal_strlit("stopLoss");
    reveal_strlit("takeProfit");
    reveal_strlit("risk");
    reveal_strlit("leverage");
    reveal_strlit("timestamp");
    assert("direction"@.len() == 9);
    assert("entry"@.len() == 5);
    assert("stopLoss"@.len() == 8);
    assert("takeProfit"@.len() == 10);
    assert("risk"@.len() == 4);
    assert("leverage"@.len() == 8);
    assert("timestamp"@.len() == 9);
    assert("stopLoss"@[0] == 's');
    assert("leverage"@[0] == 'l');
    assert("direction"@[0] == 'd');
    assert("timestamp"@[0] == 't');
}

/// The optional take-profit member is acceptable: absent, null, or a
/// number, each at most once.
pub open spec fn spec_take_profit_ok(kvs: MembersView) -> bool {
    match spec_lookup(kvs, "takeProfit"@) {
        None => spec_key_count(kvs, "takeProfit"@) == 0,
        Some(ScalarView::Null) => spec_key_count(kvs, "takeProfit"@) == 1,
        Some(ScalarView::Number(t)) => spec_key_count(kvs, "takeProfit"@) == 1,
        Some(_) => false,
    }
}

/// The take-profit value carried over into the decoded record: the number
/// token when one was given, absent for null or no member.
pub open spec fn spec_take_profit_of(kvs: MembersView) -> Option<Seq<char>> {
    match spec_lookup(kvs, "takeProfit"@) {
        Some(ScalarView::Number(t)) => Some(t),
        _ => None,
    }
}

/// The trade request encoded by an object's members, if they decode: each
/// required field exactly once with a value of the right shape, leverage a
/// digit string whose value fits in 32 bits, unknown keys ignored.
pub open spec fn spec_trade_request_of(kvs: MembersView) -> Option<TradeView> {
    let dir = spec_lookup(kvs, "direction"@);
    let entry = spec_lookup(kvs, "entry"@);
    let stop = spec_lookup(kvs, "stopLoss"@);
    let risk = spec_lookup(kvs, "risk"@);
    let lev = spec_lookup(kvs, "leverage"@);
    match (dir, entry, stop, risk, lev) {
        (
            Some(ScalarView::Text(d)),
            Some(ScalarView::Number(e)),
            Some(ScalarView::Number(sl)),
            Some(ScalarView::Number(rk)),
            Some(ScalarView::Number(lv)),
        ) => {
            if spec_key_count(kvs, "direction"@) == 1 && spec_key_count(kvs, "entry"@) == 1
                && spec_key_count(kvs, "stopLoss"@) == 1 && spec_key_count(kvs, "risk"@) == 1
                && spec_key_count(kvs, "leverage"@) == 1 && spec_take_profit_ok(kvs)
                && lv.len() > 0 && spec_all_digits(lv) && spec_dec_val(lv) <= u32::MAX {
                Some(
                    TradeView {
                        direction: d,
                        entry: e,
                        stop_loss: sl,
                        take_profit: spec_take_profit_of(kvs),
                        risk: rk,
                        leverage: spec_dec_val(lv) as u32,
                    },
                )
            } else {
                None
            }
        },
        _ => None,
    }
}

/// The position notification encoded by an object's members, if they
/// decode; the rules of [`spec_trade_request_of`] with a 64-bit timestamp
/// in place of risk and leverage.
pub open spec fn spec_position_of(kvs: MembersView) -> Option<PositionView> {
    let dir = spec_lookup(kvs, "direction"@);
    let entry = spec_lookup(kvs, "entry"@);
    let stop = spec_lookup(kvs, "stopLoss"@);
    let ts = spec_lookup(kvs, "timestamp"@);
    match (dir, entry, stop, ts) {
        (
            Some(ScalarView::Text(d)),
            Some(ScalarView::Number(e)),
            Some(ScalarView::Number(sl)),
            Some(ScalarView::Number(tv)),
        ) => {
            if spec_key_count(kvs, "direction"@) == 1 && spec_key_count(kvs, "entry"@) == 1
                && spec_key_count(kvs, "stopLoss"@) == 1 && spec_key_count(
                kvs,
                "timestamp"@,
            ) == 1 && spec_take_profit_ok(kvs) && tv.len() > 0 && spec_all_digits(tv)
                && spec_dec_val(tv) <= u64::MAX {
                Some(
                    PositionView {
                        direction: d,
                        entry: e,
                        stop_loss: sl,
                        take_profit: spec_take_profit_of(kvs),
                        timestamp: spec_dec_val(tv) as u64,
                    },
                )
            } else {
                None
            }
        },
        _ => None,
    }
}

/// Decode the members of a parsed object as a [`TradeRequest`]. Returns
/// the record exactly when [`spec_trade_request_of`] accepts the members.
pub fn decode_trade_request(kvs: &Vec<(String, JsonScalar)>) -> (r: Option<TradeRequest>)
    ensures
        (match r {
            Some(t) => spec_trade_request_of(members_view(kvs@)) == Some(t@),
            None => spec_trade_request_of(members_view(kvs@)) == None::<TradeView>,
        }),
{
    let ghost mv = members_view(kvs@);
    let mut dir: Option<String> = None;
    let mut entry: Option<String> = None;
    let mut stop: Option<String> = None;
    let mut take: Option<Option<String>> = None;
    let mut risk: Option<String> = None;
    let mut lev: Option<String> = None;
    let mut i: usize = 0;
    while i < kvs.len()
        invariant
            mv == members_view(kvs@),
            mv.len() == kvs@.len(),
            i <= kvs@.len(),
            (match dir {
                Some(ref d) => spec_key_count(mv.take(i as int), "direction"@) == 1
                    && spec_lookup(mv.take(i as int), "direction"@) == Some(
                    ScalarView::Text(d@),
                ),
                None => spec_key_count(mv.take(i as int), "direction"@) == 0 && spec_lookup(
                    mv.take(i as int),
                    "direction"@,
                ) == None::<ScalarView>,
            }),
            (match entry {
                Some(ref e) => spec_key_count(mv.take(i as int), "entry"@) == 1
                    && spec_lookup(mv.take(i as int), "entry"@) == Some(
                    ScalarView::Number(e@),
                ),
                None => spec_key_count(mv.take(i as int), "entry"@) == 0 && spec_lookup(
                    mv.take(i as int),
                    "entry"@,
                ) == None::<ScalarView>,
            }),
            (match stop {
                Some(ref s) => spec_key_count(mv.take(i as int), "stopLoss"@) == 1
                    && spec_lookup(mv.take(i as int), "stopLoss"@) == Some(
                    ScalarView::Number(s@),
                ),
                None => spec_key_count(mv.take(i as int), "stopLoss"@) == 0 && spec_lookup(
                    mv.take(i as int),
                    "stopLoss"@,
                ) == None::<ScalarView>,
            }),
            (match risk {
                Some(ref s) => spec_key_count(mv.take(i as int), "risk"@) == 1
                    && spec_lookup(mv.take(i as int), "risk"@) == Some(
                    ScalarView::Number(s@),
                ),
                None => spec_key_count(mv.take(i as int), "risk"@) == 0 && spec_lookup(
                    mv.take(i as int),
                    "risk"@,
                ) == None::<ScalarView>,
            }),
            (match lev {
                Some(ref s) => spec_key_count(mv.take(i as int), "leverage"@) == 1
                    && spec_lookup(mv.take(i as int), "leverage"@) == Some(
                    ScalarView::Number(s@),
                ),
                None => spec_key_count(mv.take(i as int), "leverage"@) == 0 && spec_lookup(
                    mv.take(i as int),
                    "leverage"@,
                ) == None::<ScalarView>,
            }),
            (match take {
                Some(Some(ref t)) => spec_key_count(mv.take(i as int), "takeProfit"@) == 1
                    && spec_lookup(mv.take(i as int), "takeProfit"@) == Some(
                    ScalarView::Number(t@),
                ),
                Some(None) => spec_key_count(mv.take(i as int), "takeProfit"@) == 1
                    && spec_lookup(mv.take(i as int), "takeProfit"@) == Some(
                    ScalarView::Null,
                ),
                None => spec_key_count(mv.take(i as int), "takeProfit"@) == 0
                    && spec_lookup(mv.take(i as int), "takeProfit"@) == None::<ScalarView>,
            }),
        decreases kvs@.len() - i,
    {
        let kv = &kvs[i];
        proof {
            lemma_keys_distinct();
            assert(mv[i as int] == (kv.0@, kv.1@));
            assert(mv.take(i + 1).drop_last() =~= mv.take(i as int));
            assert(mv.take(i + 1).last() == mv[i as int]);
        }
        if str_eq(kv.0.as_str(), "direction") {
            if dir.is_some() {
                proof {
                    lemma_count_mono(mv, "direction"@, i + 1);
                }
                return None;
            }
            match &kv.1 {
                JsonScalar::Text(s) => {
                    dir = Some(s.clone());
                },
                _ => {
                    proof {
                        lemma_lookup_persist(mv, "direction"@, i + 1);
                    }
                    return None;
                },
            }
        } else if str_eq(kv.0.as_str(), "entry") {
            if entry.is_some() {
                proof {
                    lemma_count_mono(mv, "entry"@, i + 1);
                }
                return None;
            }
            match &kv.1 {
                JsonScalar::Number(s) => {
                    entry = Some(s.clone());
                },
                _ => {
                    proof {
                        lemma_lookup_persist(mv, "entry"@, i + 1);
                    }
                    return None;
                },
            }
        } else if str_eq(kv.0.as_str(), "stopLoss") {
            if stop.is_some() {
                proof {
                    lemma_count_mono(mv, "stopLoss"@, i + 1);
                }
                return None;
            }
            match &kv.1 {
                JsonScalar::Number(s) => {
                    stop = Some(s.clone());
                },
                _ => {
                    proof {
                        lemma_lookup_persist(mv, "stopLoss"@, i + 1);
                    }
                    return None;
                },
            }
        } else if str_eq(kv.0.as_str(), "risk") {
            if risk.is_some() {
                proof {
                    lemma_count_mono(mv, "risk"@, i + 1);
                }
                return None;
            }
            match &kv.1 {
                JsonScalar::Number(s) => {
                    risk = Some(s.clone());
                },
                _ => {
                    proof {
                        lemma_lookup_persist(mv, "risk"@, i + 1);
                    }
                    return None;
                },
            }
        } else if str_eq(kv.0.as_str(), "leverage") {
            if lev.is_some() {
                proof {
                    lemma_count_mono(mv, "leverage"@, i + 1);
                }
                return None;
            }
            match &kv.1 {
                JsonScalar::Number(s) => {
                    lev = Some(s.clone());
                },
                _ => {
                    proof {
                        lemma_lookup_persist(mv, "leverage"@, i + 1);
                    }
                    return None;
                },
            }
        } else if str_eq(kv.0.as_str(), "takeProfit") {
            if take.is_some() {
                proof {
                    lemma_count_mono(mv, "takeProfit"@, i + 1);
                }
                return None;
            }
            match &kv.1 {
                JsonScalar::Number(s) => {
                    take = Some(Some(s.clone()));
                },
                JsonScalar::Null => {
                    take = Some(None);
                },
                _ => {
                    proof {
                        lemma_lookup_persist(mv, "takeProfit"@, i + 1);
                    }
                    return None;
                },
            }
        }
        i = i + 1;
    }
    proof {
        assert(mv.take(mv.len() as int) =~= mv);
    }
    let dir_v = match dir {
        Some(d) => d,
        None => {
            return None;
        },
    };
    let entry_v = match entry {
        Some(e) => e,
        None => {
            return None;
        },
    };
    let stop_v = match stop {
        Some(s) => s,
        None => {
            return None;
        },
    };
    let risk_v = match risk {
        Some(s) => s,
        None => {
            return None;
        },
    };
    let lev_tok = match lev {
        Some(s) => s,
        None => {
            return None;
        },
    };
    let lev_chars = to_char_vec(lev_tok.as_str());
    let leverage = match parse_u32(&lev_chars) {
        Some(v) => v,
        None => {
            return None;
        },
    };
    let take_profit = match take {
        Some(Some(t)) => Some(t),
        _ => None,
    };
    Some(
        TradeRequest {
            direction: dir_v,
            entry: entry_v,
            stop_loss: stop_v,
            take_profit,
            risk: risk_v,
            leverage,
        },
    )
}

/// Decode the members of a parsed object as a [`PositionData`]. Returns
/// the record exactly when [`spec_position_of`] accepts the members.
pub fn decode_position(kvs: &Vec<(String, JsonScalar)>) -> (r: Option<PositionData>)
    ensures
        (match r {
            Some(p) => spec_position_of(members_view(kvs@)) == Some(p@),
            None => spec_position_of(members_view(kvs@)) == None::<PositionView>,
        }),
{
    let ghost mv = members_view(kvs@);
    let mut dir: Option<String> = None;
    let mut entry: Option<String> = None;
    let mut stop: Option<String> = None;
    let mut take: Option<Option<String>> = None;
    let mut ts: Option<String> = None;
    let mut i: usize = 0;
    while i < kvs.len()
        invariant
            mv == members_view(kvs@),
            mv.len() == kvs@.len(),
            i <= kvs@.len(),
            (match dir {
                Some(ref d) => spec_key_count(mv.take(i as int), "direction"@) == 1
                    && spec_lookup(mv.take(i as int), "direction"@) == Some(
                    ScalarView::Text(d@),
                ),
                None => spec_key_count(mv.take(i as int), "direction"@) == 0 && spec_lookup(
                    mv.take(i as int),
                    "direction"@,
                ) == None::<ScalarView>,
            }),
            (match entry {
                Some(ref e) => spec_key_count(mv.take(i as int), "entry"@) == 1
                    && spec_lookup(mv.take(i as int), "entry"@) == Some(
                    ScalarView::Number(e@),
                ),
                None => spec_key_count(mv.take(i as int), "entry"@) == 0 && spec_lookup(
                    mv.take(i as int),
                    "entry"@,
                ) == None::<ScalarView>,
            }),
            (match stop {
                Some(ref s) => spec_key_count(mv.take(i as int), "stopLoss"@) == 1
                    && spec_lookup(mv.take(i as int), "stopLoss"@) == Some(
                    ScalarView::Number(s@),
                ),
                None => spec_key_count(mv.take(i as int), "stopLoss"@) == 0 && spec_lookup(
                    mv.take(i as int),
                    "stopLoss"@,
                ) == None::<ScalarView>,
            }),
            (match ts {
                Some(ref s) => spec_key_count(mv.take(i as int), "timestamp"@) == 1
                    && spec_lookup(mv.take(i as int), "timestamp"@) == Some(
                    ScalarView::Number(s@),
                ),
                None => spec_key_count(mv.take(i as int), "timestamp"@) == 0 && spec_lookup(
                    mv.take(i as int),
                    "timestamp"@,
                ) == None::<ScalarView>,
            }),
            (match take {
                Some(Some(ref t)) => spec_key_count(mv.take(i as int), "takeProfit"@) == 1
                    && spec_lookup(mv.take(i as int), "takeProfit"@) == Some(
                    ScalarView::Number(t@),
                ),
                Some(None) => spec_key_count(mv.take(i as int), "takeProfit"@) == 1
                    && spec_lookup(mv.take(i as int), "takeProfit"@) == Some(
                    ScalarView::Null,
                ),
                None => spec_key_count(mv.take(i as int), "takeProfit"@) == 0
                    && spec_lookup(mv.take(i as int), "takeProfit"@) == None::<ScalarView>,
            }),
        decreases kvs@.len() - i,
    {
        let kv = &kvs[i];
        proof {
            lemma_keys_distinct();
            assert(mv[i as int] == (kv.0@, kv.1@));
            assert(mv.take(i + 1).drop_last() =~= mv.take(i as int));
            assert(mv.take(i + 1).last() == mv[i as int]);
        }
        if str_eq(kv.0.as_str(), "direction") {
            if dir.is_some() {
                proof {
                    lemma_count_mono(mv, "direction"@, i + 1);
                }
                return None;
            }
            match &kv.1 {
                JsonScalar::Text(s) => {
                    dir = Some(s.clone());
                },
                _ => {
                    proof {
                        lemma_lookup_persist(mv, "direction"@, i + 1);
                    }
                    return None;
                },
            }
        } else if str_eq(kv.0.as_str(), "entry") {
            if entry.is_some() {
                proof {
                    lemma_count_mono(mv, "entry"@, i + 1);
                }
                return None;
            }
            match &kv.1 {
                JsonScalar::Number(s) => {
                    entry = Some(s.clone());
                },
                _ => {
                    proof {
                        lemma_lookup_persist(mv, "entry"@, i + 1);
                    }
                    return None;
                },
            }
        } else if str_eq(kv.0.as_str(), "stopLoss") {
            if stop.is_some() {
                proof {
                    lemma_count_mono(mv, "stopLoss"@, i + 1);
                }
                return None;
            }
            match &kv.1 {
                JsonScalar::Number(s) => {
                    stop = Some(s.clone());
                },
                _ => {
                    proof {
                        lemma_lookup_persist(mv, "stopLoss"@, i + 1);
                    }
                    return None;
                },
            }
        } else if str_eq(kv.0.as_str(), "timestamp") {
            if ts.is_some() {
                proof {
                    lemma_count_mono(mv, "timestamp"@, i + 1);
                }
                return None;
            }
            match &kv.1 {
                JsonScalar::Number(s) => {
                    ts = Some(s.clone());
                },
                _ => {
                    proof {
                        lemma_lookup_persist(mv, "timestamp"@, i + 1);
                    }
                    return None;
                },
            }
        } else if str_eq(kv.0.as_str(), "takeProfit") {
            if take.is_some() {
                proof {
                    lemma_count_mono(mv, "takeProfit"@, i + 1);
                }
                return None;
            }
            match &kv.1 {
                JsonScalar::Number(s) => {
                    take = Some(Some(s.clone()));
                },
                JsonScalar::Null => {
                    take = Some(None);
                },
                _ => {
                    proof {
                        lemma_lookup_persist(mv, "takeProfit"@, i + 1);
                    }
                    return None;
                },
            }
        }
        i = i + 1;
    }
    proof {
        assert(mv.take(mv.len() as int) =~= mv);
    }
    let dir_v = match dir {
        Some(d) => d,
        None => {
            return None;
        },
    };
    let entry_v = match entry {
        Some(e) => e,
        None => {
            return None;
        },
    };
    let stop_v = match stop {
        Some(s) => s,
        None => {
            return None;
        },
    };
    let ts_tok = match ts {
        Some(s) => s,
        None => {
            return None;
        },
    };
    let ts_chars = to_char_vec(ts_tok.as_str());
    let timestamp = match parse_u64_bounded(&ts_chars, u64::MAX) {
        Some(v) => v,
        None => {
            return None;
        },
    };
    let take_profit = match take {
        Some(Some(t)) => Some(t),
        _ => None,
    };
    Some(
        PositionData {
            direction: dir_v,
            entry: entry_v,
            stop_loss: stop_v,
            take_profit,
            timestamp,
        },
    )
}


} // verus!
