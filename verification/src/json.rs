//! The JSON object grammar for inbound request bodies.
//!
//! The bridge accepts flat JSON objects: string keys mapped to scalar
//! values (strings, numbers, `true`, `false`, `null`), with arbitrary
//! whitespace and the usual short escape sequences in strings. Nested
//! objects and arrays and `\u` escapes are outside the grammar and are
//! rejected as malformed; the notification and trade bodies the bridge
//! defines never contain them. Number values are kept as their unparsed
//! token text, so no floating-point value is ever materialised here.
//!
//! The spec functions below are the grammar; the executable parser returns
//! exactly what they describe, position by position.

use vstd::prelude::*;

use crate::text::to_char_vec;

verus! {

/// A scalar JSON value: decoded string text, raw number token text, a
/// boolean, or null.
pub enum JsonScalar {
    Text(String),
    Number(String),
    Truth(bool),
    Null,
}

/// Ghost image of a [`JsonScalar`]: the same shape over character
/// sequences.
pub enum ScalarView {
    Text(Seq<char>),
    Number(Seq<char>),
    Truth(bool),
    Null,
}

impl View for JsonScalar {
    type V = ScalarView;

    open spec fn view(&self) -> ScalarView {
        match self {
            JsonScalar::Text(s) => ScalarView::Text(s@),
            JsonScalar::Number(s) => ScalarView::Number(s@),
            JsonScalar::Truth(b) => ScalarView::Truth(*b),
            JsonScalar::Null => ScalarView::Null,
        }
    }
}

/// The members of an object, in source order: key text paired with value.
pub type MembersView = Seq<(Seq<char>, ScalarView)>;

/// JSON insignificant whitespace.
pub open spec fn spec_is_ws(c: char) -> bool {
    c == ' ' || c == '\t' || c == '\n' || c == '\r'
}

/// First position at or after `i` holding something other than whitespace.
pub open spec fn spec_skip_ws(s: Seq<char>, i: int) -> int
    decreases s.len() - i,
{
    if 0 <= i < s.len() && spec_is_ws(s[i]) {
        spec_skip_ws(s, i + 1)
    } else {
        i
    }
}

/// Decoded character for a short escape sequence `\c`, if `c` is one of
/// the eight JSON short escapes. `\u` sequences are outside the grammar.
pub open spec fn spec_escape_decode(c: char) -> Option<char> {
    if c == '"' { Some('"') }
    else if c == '\\' { Some('\\') }
    else if c == '/' { Some('/') }
    else if c == 'b' { Some('\u{8}') }
    else if c == 'f' { Some('\u{c}') }
    else if c == 'n' { Some('\n') }
    else if c == 'r' { Some('\r') }
    else if c == 't' { Some('\t') }
    else { None }
}

/// A raw control character, which JSON forbids inside a string literal.
pub open spec fn spec_is_control(c: char) -> bool {
    (c as u32) < 32
}

/// Scan of a string body starting inside the quotes at `i`: the decoded
/// text together with the position just after the closing quote. `None`
/// for an unterminated string, an unknown escape, or a raw control
/// character.
pub open spec fn spec_string_body(s: Seq<char>, i: int) -> Option<(Seq<char>, int)>
    decreases s.len() - i,
{
    if !(0 <= i < s.len()) {
        None
    } else if s[i] == '"' {
        Some((Seq::empty(), i + 1))
    } else if s[i] == '\\' {
        if i + 1 < s.len() {
            match spec_escape_decode(s[i + 1]) {
                Some(c) => match spec_string_body(s, i + 2) {
                    Some((rest, j)) => Some((seq![c] + rest, j)),
                    None => None,
                },
                None => None,
            }
        } else {
            None
        }
    } else if spec_is_control(s[i]) {
        None
    } else {
        match spec_string_body(s, i + 1) {
            Some((rest, j)) => Some((seq![s[i]] + rest, j)),
            None => None,
        }
    }
}

/// JSON decimal digit.
pub open spec fn spec_is_dig(c: char) -> bool {
    '0' <= c && c <= '9'
}

/// First position at or after `i` holding a non-digit.
pub open spec fn spec_digits_end(s: Seq<char>, i: int) -> int
    decreases s.len() - i,
{
    if 0 <= i < s.len() && spec_is_dig(s[i]) {
        spec_digits_end(s, i + 1)
    } else {
        i
    }
}

pub proof fn lemma_digits_end_bounds(s: Seq<char>, i: int)
    requires
        0 <= i <= s.len(),
    ensures
        i <= spec_digits_end(s, i) <= s.len(),
    decreases s.len() - i,
{
    if i < s.len() && spec_is_dig(s[i]) {
        lemma_digits_end_bounds(s, i + 1);
    }
}

/// End of the integer part of a number token starting at `i`: a single
/// `0`, or a nonzero digit followed by more digits. `None` if no digit
/// stands at `i`.
pub open spec fn spec_int_end(s: Seq<char>, i: int) -> Option<int> {
    if 0 <= i < s.len() && spec_is_dig(s[i]) {
        if s[i] == '0' {
            Some(i + 1)
        } else {
            Some(spec_digits_end(s, i))
        }
    } else {
        None
    }
}

/// End of the optional fraction part at `i`: unchanged position when no
/// `.` stands there, the end of its digits when one does, `None` for a
/// `.` without a following digit.
pub open spec fn spec_frac_end(s: Seq<char>, i: int) -> Option<int> {
    if 0 <= i < s.len() && s[i] == '.' {
        if i + 1 < s.len() && spec_is_dig(s[i + 1]) {
            Some(spec_digits_end(s, i + 1))
        } else {
            None
        }
    } else {
        Some(i)
    }
}

/// End of the optional exponent part at `i`, by the same convention as
/// [`spec_frac_end`].
pub open spec fn spec_exp_end(s: Seq<char>, i: int) -> Option<int> {
    if 0 <= i < s.len() && (s[i] == 'e' || s[i] == 'E') {
        let j = if i + 1 < s.len() && (s[i + 1] == '+' || s[i + 1] == '-') {
            i + 2
        } else {
            i + 1
        };
        if j < s.len() && spec_is_dig(s[j]) {
            Some(spec_digits_end(s, j))
        } else {
            None
        }
    } else {
        Some(i)
    }
}

/// End of a complete JSON number token starting at `i`, or `None` if no
/// such token starts there.
pub open spec fn spec_number_end(s: Seq<char>, i: int) -> Option<int> {
    let j = if 0 <= i < s.len() && s[i] == '-' {
        i + 1
    } else {
        i
    };
    match spec_int_end(s, j) {
        Some(k) => match spec_frac_end(s, k) {
            Some(m) => spec_exp_end(s, m),
            None => None,
        },
        None => None,
    }
}

pub proof fn lemma_number_end_bounds(s: Seq<char>, i: int)
    requires
        0 <= i <= s.len(),
    ensures
        match spec_number_end(s, i) {
            Some(j) => i < j <= s.len(),
            None => true,
        },
{
    let j = if i < s.len() && s[i] == '-' { i + 1 } else { i };
    if j < s.len() && spec_is_dig(s[j]) {
        lemma_digits_end_bounds(s, j + 1);
        assert(spec_digits_end(s, j) == spec_digits_end(s, j + 1));
        match spec_int_end(s, j) {
            Some(k) => {
                assert(j < k <= s.len());
                match spec_frac_end(s, k) {
                    Some(m) => {
                        if k < s.len() && s[k] == '.' {
                            lemma_digits_end_bounds(s, k + 1);
                        }
                        assert(k <= m <= s.len());
                        match spec_exp_end(s, m) {
                            Some(e) => {
                                if m < s.len() && (s[m] == 'e' || s[m] == 'E') {
                                    let p = if m + 1 < s.len() && (s[m + 1] == '+' || s[m + 1] == '-') {
                                        m + 2
                                    } else {
                                        m + 1
                                    };
                                    if p < s.len() && spec_is_dig(s[p]) {
                                        lemma_digits_end_bounds(s, p);
                                    }
                                }
                            },
                            None => {},
                        }
                    },
                    None => {},
                }
            },
            None => {},
        }
    }
}

/// A scalar value starting exactly at `i`: a string, `true`, `false`,
/// `null`, or a number token. The result pairs the value with the
/// position just after it.
pub open spec fn spec_scalar(s: Seq<char>, i: int) -> Option<(ScalarView, int)> {
    if 0 <= i < s.len() && s[i] == '"' {
        match spec_string_body(s, i + 1) {
            Some((t, j)) => Some((ScalarView::Text(t), j)),
            None => None,
        }
    } else if 0 <= i && i + 4 <= s.len() && s[i] == 't' && s[i + 1] == 'r' && s[i + 2] == 'u'
        && s[i + 3] == 'e' {
        Some((ScalarView::Truth(true), i + 4))
    } else if 0 <= i && i + 5 <= s.len() && s[i] == 'f' && s[i + 1] == 'a' && s[i + 2] == 'l'
        && s[i + 3] == 's' && s[i + 4] == 'e' {
        Some((ScalarView::Truth(false), i + 5))
    } else if 0 <= i && i + 4 <= s.len() && s[i] == 'n' && s[i + 1] == 'u' && s[i + 2] == 'l'
        && s[i + 3] == 'l' {
        Some((ScalarView::Null, i + 4))
    } else {
        match spec_number_end(s, i) {
            Some(j) => Some((ScalarView::Number(s.subrange(i, j)), j)),
            None => None,
        }
    }
}

/// One `"key" : value` member starting at `i`, leading whitespace
/// included: the pair together with the position just after the value.
pub open spec fn spec_member(s: Seq<char>, i: int) -> Option<((Seq<char>, ScalarView), int)> {
    let j = spec_skip_ws(s, i);
    if 0 <= j < s.len() && s[j] == '"' {
        match spec_string_body(s, j + 1) {
            Some((key, k)) => {
                let m = spec_skip_ws(s, k);
                if m < s.len() && s[m] == ':' {
                    let v = spec_skip_ws(s, m + 1);
                    match spec_scalar(s, v) {
                        Some((val, e)) => Some(((key, val), e)),
                        None => None,
                    }
                } else {
                    None
                }
            },
            None => None,
        }
    } else {
        None
    }
}

/// One or more comma-separated members starting at `i`. The position
/// returned is where the closing brace is expected: after the last
/// member and any whitespace behind it.
pub open spec fn spec_members(s: Seq<char>, i: int) -> Option<(MembersView, int)>
    decreases s.len() - i,
{
    match spec_member(s, i) {
        Some((kv, e)) => {
            let k = spec_skip_ws(s, e);
            if i <= k && k < s.len() && s[k] == ',' {
                match spec_members(s, k + 1) {
                    Some((rest, fin)) => Some((seq![kv] + rest, fin)),
                    None => None,
                }
            } else {
                Some((seq![kv], k))
            }
        },
        None => None,
    }
}

/// The whole text as one flat JSON object, whitespace allowed around it:
/// the member list in source order, or `None` if the text is not in the
/// grammar or anything but whitespace follows the object.
pub open spec fn spec_object(s: Seq<char>) -> Option<MembersView> {
    let i = spec_skip_ws(s, 0);
    if 0 <= i < s.len() && s[i] == '{' {
        let j = spec_skip_ws(s, i + 1);
        if j < s.len() && s[j] == '}' {
            if spec_skip_ws(s, j + 1) == s.len() {
                Some(Seq::empty())
            } else {
                None
            }
        } else {
            match spec_members(s, i + 1) {
                Some((kvs, k)) => {
                    if k < s.len() && s[k] == '}' && spec_skip_ws(s, k + 1) == s.len() {
                        Some(kvs)
                    } else {
                        None
                    }
                },
                None => None,
            }
        }
    } else {
        None
    }
}

/// Ghost image of an executable member list.
pub open spec fn members_view(v: Seq<(String, JsonScalar)>) -> MembersView {
    v.map_values(|kv: (String, JsonScalar)| (kv.0@, kv.1@))
}

/// String built back from a vector of characters.
pub fn chars_to_string(v: &Vec<char>) -> (s: String)
    ensures
        s@ == v@,
{
    let mut s = String::new();
    let mut i: usize = 0;
    while i < v.len()
        invariant
            i <= v@.len(),
            s@ == v@.take(i as int),
        decreases v@.len() - i,
    {
        s.push(v[i]);
        i = i + 1;
        proof {
            assert(s@ =~= v@.take(i as int));
        }
    }
    proof {
        assert(v@.take(v@.len() as int) =~= v@);
    }
    s
}

fn is_ws(c: char) -> (r: bool)
    ensures
        r == spec_is_ws(c),
{
    c == ' ' || c == '\t' || c == '\n' || c == '\r'
}

fn is_dig(c: char) -> (r: bool)
    ensures
        r == spec_is_dig(c),
{
    '0' <= c && c <= '9'
}

fn skip_ws(s: &Vec<char>, i: usize) -> (j: usize)
    requires
        i <= s@.len(),
    ensures
        j as int == spec_skip_ws(s@, i as int),
        i <= j <= s@.len(),
{
    let mut cur = i;
    while cur < s.len() && is_ws(s[cur])
        invariant
            i <= cur <= s@.len(),
            spec_skip_ws(s@, i as int) == spec_skip_ws(s@, cur as int),
        decreases s@.len() - cur,
    {
        cur = cur + 1;
    }
    cur
}

fn escape_decode(c: char) -> (r: Option<char>)
    ensures
        r == spec_escape_decode(c),
{
    if c == '"' { Some('"') }
    else if c == '\\' { Some('\\') }
    else if c == '/' { Some('/') }
    else if c == 'b' { Some('\u{8}') }
    else if c == 'f' { Some('\u{c}') }
    else if c == 'n' { Some('\n') }
    else if c == 'r' { Some('\r') }
    else if c == 't' { Some('\t') }
    else { None }
}

fn scan_string_body(s: &Vec<char>, i: usize) -> (r: Option<(String, usize)>)
    requires
        i <= s@.len(),
    ensures
        (match r {
            Some((t, e)) => spec_string_body(s@, i as int) == Some((t@, e as int))
                && i < e <= s@.len(),
            None => spec_string_body(s@, i as int) == None::<(Seq<char>, int)>,
        }),
{
    let mut acc: Vec<char> = Vec::new();
    let mut cur = i;
    loop
        invariant
            i <= cur <= s@.len(),
            spec_string_body(s@, i as int) == (match spec_string_body(s@, cur as int) {
                Some((t, j)) => Some((acc@ + t, j)),
                None => None,
            }),
        decreases s@.len() - cur,
    {
        if cur >= s.len() {
            return None;
        }
        let c = s[cur];
        if c == '"' {
            let t = chars_to_string(&acc);
            proof {
                assert(acc@ + Seq::<char>::empty() =~= acc@);
            }
            return Some((t, cur + 1));
        }
        if c == '\\' {
            if cur + 1 >= s.len() {
                return None;
            }
            match escape_decode(s[cur + 1]) {
                Some(d) => {
                    proof {
                        let ghost rest0 = spec_string_body(s@, cur + 2);
                        assert(spec_string_body(s@, cur as int) == (match rest0 {
                            Some((t, j)) => Some((seq![d] + t, j)),
                            None => None::<(Seq<char>, int)>,
                        }));
                        match rest0 {
                            Some((t, j)) => {
                                assert(acc@ + (seq![d] + t) =~= acc@.push(d) + t);
                            },
                            None => {},
                        }
                    }
                    acc.push(d);
                    cur = cur + 2;
                },
                None => {
                    return None;
                },
            }
        } else if (c as u32) < 32 {
            return None;
        } else {
            proof {
                let ghost rest0 = spec_string_body(s@, cur + 1);
                assert(spec_string_body(s@, cur as int) == (match rest0 {
                    Some((t, j)) => Some((seq![c] + t, j)),
                    None => None::<(Seq<char>, int)>,
                }));
                match rest0 {
                    Some((t, j)) => {
                        assert(acc@ + (seq![c] + t) =~= acc@.push(c) + t);
                    },
                    None => {},
                }
            }
            acc.push(c);
            cur = cur + 1;
        }
    }
}

fn digits_end(s: &Vec<char>, i: usize) -> (j: usize)
    requires
        i <= s@.len(),
    ensures
        j as int == spec_digits_end(s@, i as int),
        i <= j <= s@.len(),
{
    let mut cur = i;
    while cur < s.len() && is_dig(s[cur])
        invariant
            i <= cur <= s@.len(),
            spec_digits_end(s@, i as int) == spec_digits_end(s@, cur as int),
        decreases s@.len() - cur,
    {
        cur = cur + 1;
    }
    cur
}

fn number_end(s: &Vec<char>, i: usize) -> (r: Option<usize>)
    requires
        i <= s@.len(),
    ensures
        (match r {
            Some(j) => spec_number_end(s@, i as int) == Some(j as int) && i < j <= s@.len(),
            None => spec_number_end(s@, i as int) == None::<int>,
        }),
{
    proof {
        lemma_number_end_bounds(s@, i as int);
    }
    let j = if i < s.len() && s[i] == '-' {
        i + 1
    } else {
        i
    };
    if !(j < s.len() && is_dig(s[j])) {
        return None;
    }
    let k = if s[j] == '0' {
        j + 1
    } else {
        digits_end(s, j)
    };
    let m = if k < s.len() && s[k] == '.' {
        if k + 1 < s.len() && is_dig(s[k + 1]) {
            digits_end(s, k + 1)
        } else {
            return None;
        }
    } else {
        k
    };
    if m < s.len() && (s[m] == 'e' || s[m] == 'E') {
        let p = if m + 1 < s.len() && (s[m + 1] == '+' || s[m + 1] == '-') {
            m + 2
        } else {
            m + 1
        };
        if p < s.len() && is_dig(s[p]) {
            Some(digits_end(s, p))
        } else {
            None
        }
    } else {
        Some(m)
    }
}

fn copy_range(s: &Vec<char>, i: usize, j: usize) -> (v: Vec<char>)
    requires
        i <= j <= s@.len(),
    ensures
        v@ == s@.subrange(i as int, j as int),
{
    let mut v: Vec<char> = Vec::new();
    let mut cur = i;
    while cur < j
        invariant
            i <= cur <= j <= s@.len(),
            v@ == s@.subrange(i as int, cur as int),
        decreases j - cur,
    {
        v.push(s[cur]);
        cur = cur + 1;
        proof {
            assert(v@ =~= s@.subrange(i as int, cur as int));
        }
    }
    v
}

fn scan_scalar(s: &Vec<char>, i: usize) -> (r: Option<(JsonScalar, usize)>)
    requires
        i <= s@.len(),
    ensures
        (match r {
            Some((v, e)) => spec_scalar(s@, i as int) == Some((v@, e as int))
                && i < e <= s@.len(),
            None => spec_scalar(s@, i as int) == None::<(ScalarView, int)>,
        }),
{
    if i < s.len() && s[i] == '"' {
        match scan_string_body(s, i + 1) {
            Some((t, e)) => Some((JsonScalar::Text(t), e)),
            None => None,
        }
    } else if s.len() - i >= 4 && s[i] == 't' && s[i + 1] == 'r' && s[i + 2] == 'u'
        && s[i + 3] == 'e' {
        Some((JsonScalar::Truth(true), i + 4))
    } else if s.len() - i >= 5 && s[i] == 'f' && s[i + 1] == 'a' && s[i + 2] == 'l'
        && s[i + 3] == 's' && s[i + 4] == 'e' {
        Some((JsonScalar::Truth(false), i + 5))
    } else if s.len() - i >= 4 && s[i] == 'n' && s[i + 1] == 'u' && s[i + 2] == 'l'
        && s[i + 3] == 'l' {
        Some((JsonScalar::Null, i + 4))
    } else {
        match number_end(s, i) {
            Some(j) => {
                let tok = copy_range(s, i, j);
                let text = chars_to_string(&tok);
                Some((JsonScalar::Number(text), j))
            },
            None => None,
        }
    }
}

fn scan_member(s: &Vec<char>, i: usize) -> (r: Option<((String, JsonScalar), usize)>)
    requires
        i <= s@.len(),
    ensures
        (match r {
            Some(((key, val), e)) => spec_member(s@, i as int) == Some(
                ((key@, val@), e as int),
            ) && i < e <= s@.len(),
            None => spec_member(s@, i as int) == None::<((Seq<char>, ScalarView), int)>,
        }),
{
    let j = skip_ws(s, i);
    if !(j < s.len() && s[j] == '"') {
        return None;
    }
    match scan_string_body(s, j + 1) {
        Some((key, k)) => {
            let m = skip_ws(s, k);
            if !(m < s.len() && s[m] == ':') {
                return None;
            }
            let v = skip_ws(s, m + 1);
            match scan_scalar(s, v) {
                Some((val, e)) => Some(((key, val), e)),
                None => None,
            }
        },
        None => None,
    }
}

fn scan_members(s: &Vec<char>, i: usize) -> (r: Option<(Vec<(String, JsonScalar)>, usize)>)
    requires
        i <= s@.len(),
    ensures
        (match r {
            Some((kvs, e)) => spec_members(s@, i as int) == Some(
                (members_view(kvs@), e as int),
            ) && i <= e <= s@.len(),
            None => spec_members(s@, i as int) == None::<(MembersView, int)>,
        }),
{
    let mut acc: Vec<(String, JsonScalar)> = Vec::new();
    let mut cur = i;
    loop
        invariant
            i <= cur <= s@.len(),
            spec_members(s@, i as int) == (match spec_members(s@, cur as int) {
                Some((rest, e)) => Some((members_view(acc@) + rest, e)),
                None => None,
            }),
        decreases s@.len() - cur,
    {
        match scan_member(s, cur) {
            Some((kv, e)) => {
                let k = skip_ws(s, e);
                proof {
                    let ghost kvv = (kv.0@, kv.1@);
                    if k < s.len() && s@[k as int] == ',' {
                        assert(spec_members(s@, cur as int) == (match spec_members(
                            s@,
                            k + 1,
                        ) {
                            Some((rest, e2)) => Some((seq![kvv] + rest, e2)),
                            None => None::<(MembersView, int)>,
                        }));
                        match spec_members(s@, k + 1) {
                            Some((rest, e2)) => {
                                assert(members_view(acc@) + (seq![kvv] + rest)
                                    =~= members_view(acc@.push(kv)) + rest);
                            },
                            None => {},
                        }
                    } else {
                        assert(spec_members(s@, cur as int) == Some(
                            (seq![kvv], k as int),
                        ));
                        assert(members_view(acc@) + seq![kvv]
                            =~= members_view(acc@.push(kv)));
                    }
                }
                if k < s.len() && s[k] == ',' {
                    acc.push(kv);
                    cur = k + 1;
                } else {
                    acc.push(kv);
                    return Some((acc, k));
                }
            },
            None => {
                return None;
            },
        }
    }
}

/// Parse the whole text as one flat JSON object. Returns the member list
/// in source order exactly when the text is in the grammar of
/// [`spec_object`], and `None` otherwise.
pub fn parse_object(s: &str) -> (r: Option<Vec<(String, JsonScalar)>>)
    ensures
        spec_object(s@) == (match r {
            Some(v) => Some(members_view(v@)),
            None => None::<MembersView>,
        }),
{
    let chars = to_char_vec(s);
    let i = skip_ws(&chars, 0);
    if !(i < chars.len() && chars[i] == '{') {
        return None;
    }
    let j = skip_ws(&chars, i + 1);
    if j < chars.len() && chars[j] == '}' {
        if skip_ws(&chars, j + 1) == chars.len() {
            let empty: Vec<(String, JsonScalar)> = Vec::new();
            proof {
                assert(members_view(empty@) =~= Seq::<(Seq<char>, ScalarView)>::empty());
            }
            Some(empty)
        } else {
            None
        }
    } else {
        match scan_members(&chars, i + 1) {
            Some((kvs, k)) => {
                if k < chars.len() && chars[k] == '}' && skip_ws(&chars, k + 1)
                    == chars.len() {
                    Some(kvs)
                } else {
                    None
                }
            },
            None => None,
        }
    }
}

} // verus!
