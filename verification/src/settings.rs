//! The shared trading settings record and its wire encoding.
//!
//! The record is written only by the UI through [`BridgeSettings::update`]
//! and read by the bridge as a snapshot. The two price-like fields are kept
//! as JSON number text, exactly as they appear on the wire, so the record
//! and its encoding never involve a floating-point value. No validation is
//! performed on update: any number text the UI supplies is stored as given.

use vstd::prelude::*;

use crate::text::{spec_dec_string, u32_to_string, to_char_vec};

verus! {

/// Current trading parameters, shared between the UI and the bridge.
pub struct BridgeSettings {
    /// Risk per trade, as JSON number text.
    pub risk: String,
    /// Position leverage.
    pub leverage: u32,
    /// Asset symbol.
    pub asset: String,
    /// Reference price, as JSON number text.
    pub price: String,
}

/// Ghost image of a [`BridgeSettings`] record.
pub struct SettingsView {
    pub risk: Seq<char>,
    pub leverage: u32,
    pub asset: Seq<char>,
    pub price: Seq<char>,
}

impl View for BridgeSettings {
    type V = SettingsView;

    open spec fn view(&self) -> SettingsView {
        SettingsView {
            risk: self.risk@,
            leverage: self.leverage,
            asset: self.asset@,
            price: self.price@,
        }
    }
}

/// The startup settings: risk 1.0, leverage 25, asset BTC, price 0.0.
pub open spec fn spec_default_settings() -> SettingsView {
    SettingsView { risk: "1.0"@, leverage: 25, asset: "BTC"@, price: "0.0"@ }
}

impl Default for BridgeSettings {
    /// The record every process starts from.
    fn default() -> (s: Self)
        ensures
            s@ == spec_default_settings(),
    {
        BridgeSettings {
            risk: String::from_str("1.0"),
            leverage: 25,
            asset: String::from_str("BTC"),
            price: String::from_str("0.0"),
        }
    }
}

impl BridgeSettings {
    /// Overwrite all four fields at once with the values the UI supplied,
    /// unvalidated by design.
    pub fn update(&mut self, risk: String, leverage: u32, asset: String, price: String)
        ensures
            final(self)@ == (SettingsView {
                risk: risk@,
                leverage: leverage,
                asset: asset@,
                price: price@,
            }),
    {
        self.risk = risk;
        self.leverage = leverage;
        self.asset = asset;
        self.price = price;
    }

    /// Snapshot copy for a reader; the original record is untouched.
    pub fn read(&self) -> (s: BridgeSettings)
        ensures
            s@ == self@,
    {
        BridgeSettings {
            risk: self.risk.clone(),
            leverage: self.leverage,
            asset: self.asset.clone(),
            price: self.price.clone(),
        }
    }
}

/// Lower-case hexadecimal digit for a value below sixteen.
pub open spec fn spec_hex_char(d: nat) -> char {
    if d == 0 { '0' }
    else if d == 1 { '1' }
    else if d == 2 { '2' }
    else if d == 3 { '3' }
    else if d == 4 { '4' }
    else if d == 5 { '5' }
    else if d == 6 { '6' }
    else if d == 7 { '7' }
    else if d == 8 { '8' }
    else if d == 9 { '9' }
    else if d == 10 { 'a' }
    else if d == 11 { 'b' }
    else if d == 12 { 'c' }
    else if d == 13 { 'd' }
    else if d == 14 { 'e' }
    else { 'f' }
}

/// What one character contributes to a JSON string literal: quote and
/// backslash gain a backslash, the five control characters with short
/// escapes use them, any other control character becomes `\u00xx`, and
/// everything else passes through.
pub open spec fn spec_json_escape_char(c: char) -> Seq<char> {
    if c == '"' { seq!['\\', '"'] }
    else if c == '\\' { seq!['\\', '\\'] }
    else if c == '\u{8}' { seq!['\\', 'b'] }
    else if c == '\t' { seq!['\\', 't'] }
    else if c == '\n' { seq!['\\', 'n'] }
    else if c == '\u{c}' { seq!['\\', 'f'] }
    else if c == '\r' { seq!['\\', 'r'] }
    else if (c as u32) < 32 {
        seq!['\\', 'u', '0', '0', spec_hex_char((c as u32 / 16) as nat), spec_hex_char(
            (c as u32 % 16) as nat,
        )]
    } else { seq![c] }
}

/// The text as the body of a JSON string literal.
pub open spec fn spec_json_escape(s: Seq<char>) -> Seq<char>
    decreases s.len(),
{
    if s.len() == 0 {
        Seq::empty()
    } else {
        spec_json_escape(s.drop_last()) + spec_json_escape_char(s.last())
    }
}

fn hex_char(d: u32) -> (c: char)
    requires
        d < 16,
    ensures
        c == spec_hex_char(d as nat),
{
    if d == 0 { '0' }
    else if d == 1 { '1' }
    else if d == 2 { '2' }
    else if d == 3 { '3' }
    else if d == 4 { '4' }
    else if d == 5 { '5' }
    else if d == 6 { '6' }
    else if d == 7 { '7' }
    else if d == 8 { '8' }
    else if d == 9 { '9' }
    else if d == 10 { 'a' }
    else if d == 11 { 'b' }
    else if d == 12 { 'c' }
    else if d == 13 { 'd' }
    else if d == 14 { 'e' }
    else { 'f' }
}

/// Escape text for embedding between the quotes of a JSON string literal.
pub fn json_escape(s: &str) -> (r: String)
    ensures
        r@ == spec_json_escape(s@),
{
    let chars = to_char_vec(s);
    let mut out = String::new();
    let mut i: usize = 0;
    while i < chars.len()
        invariant
            chars@ == s@,
            i <= chars@.len(),
            out@ == spec_json_escape(s@.take(i as int)),
        decreases chars@.len() - i,
    {
        let c = chars[i];
        if c == '"' {
            out.push('\\');
            out.push('"');
        } else if c == '\\' {
            out.push('\\');
            out.push('\\');
        } else if c == '\u{8}' {
            out.push('\\');
            out.push('b');
        } else if c == '\t' {
            out.push('\\');
            out.push('t');
        } else if c == '\n' {
            out.push('\\');
            out.push('n');
        } else if c == '\u{c}' {
            out.push('\\');
            out.push('f');
        } else if c == '\r' {
            out.push('\\');
            out.push('r');
        } else if (c as u32) < 32 {
            out.push('\\');
            out.push('u');
            out.push('0');
            out.push('0');
            out.push(hex_char(c as u32 / 16));
            out.push(hex_char(c as u32 % 16));
        } else {
            out.push(c);
        }
        i = i + 1;
        proof {
            assert(s@.take(i as int).drop_last() =~= s@.take(i - 1));
            assert(s@.take(i as int).last() == s@[i - 1]);
            assert(out@ =~= spec_json_escape(s@.take(i as int)));
        }
    }
    proof {
        assert(s@.take(s@.len() as int) =~= s@);
    }
    out
}

/// The exact `GET /settings` reply body for a settings record: the four
/// fields in declaration order, the asset escaped as a JSON string, the
/// number fields verbatim.
pub open spec fn spec_settings_json(s: SettingsView) -> Seq<char> {
    "{\"risk\":"@ + s.risk + ",\"leverage\":"@ + spec_dec_string(s.leverage as nat)
        + ",\"asset\":\""@ + spec_json_escape(s.asset) + "\",\"price\":"@ + s.price + "}"@
}

/// Encode a settings snapshot as the `GET /settings` reply body.
pub fn settings_json(s: &BridgeSettings) -> (r: String)
    ensures
        r@ == spec_settings_json(s@),
{
    let mut out = String::new();
    out.append("{\"risk\":");
    out.append(s.risk.as_str());
    out.append(",\"leverage\":");
    let lev = u32_to_string(s.leverage);
    out.append(lev.as_str());
    out.append(",\"asset\":\"");
    let esc = json_escape(s.asset.as_str());
    out.append(esc.as_str());
    out.append("\",\"price\":");
    out.append(s.price.as_str());
    out.append("}");
    proof {
        assert(out@ =~= spec_settings_json(s@));
    }
    out
}

} // verus!
