//! Colour resolution: named colours, `#rrggbb` hex strings and numeric
//! triples, resolved to 8-bit RGB channels or to the `CurrentColor` sentinel.
//!
//! A malformed hex string is a hard error; an unknown name or an
//! out-of-range numeric triple silently resolves to `CurrentColor`.
//! The name table itself is supplied by the caller: it is static,
//! process-wide data owned by the embedding program.
use vstd::prelude::*;

use crate::fixed::round_div;

verus! {

/// One entry of a colour-name table: a name and its 8-bit RGB channels.
#[derive(Clone, Copy, Debug)]
pub struct ColorNames(pub &'static str, pub u8, pub u8, pub u8);

/// A resolved colour with 8-bit RGB channels, or the sentinel that inherits
/// the caller's currently active colour.
#[derive(Clone, Copy, Debug, PartialEq, Eq, Structural)]
pub enum TurtleColor {
    CurrentColor,
    Color(u8, u8, u8),
}

impl Default for TurtleColor {
    /// The default colour is black.
    fn default() -> (c: Self)
        ensures
            c == TurtleColor::Color(0u8, 0u8, 0u8),
    {
        TurtleColor::Color(0, 0, 0)
    }
}

/// The error of colour resolution: a `#`-prefixed string whose digits do not
/// form a six-digit hex number.
#[derive(Clone, Copy, Debug, PartialEq, Eq, Structural)]
pub enum ColorError {
    MalformedHex,
}

impl ColorError {
    /// A human-readable description of the parse failure.
    pub fn description(&self) -> (s: &'static str)
        ensures
            s@ == "could not parse the input as a hex color string"@,
    {
        "could not parse the input as a hex color string"
    }
}

/// Whether `c` is an ASCII hex digit, either case.
pub open spec fn is_hex_digit(c: char) -> bool {
    ('0' <= c && c <= '9') || ('a' <= c && c <= 'f') || ('A' <= c && c <= 'F')
}

/// The numeric value of a hex digit.
pub open spec fn hex_val(c: char) -> int
    recommends
        is_hex_digit(c),
{
    if '0' <= c && c <= '9' {
        c as int - '0' as int
    } else if 'a' <= c && c <= 'f' {
        c as int - 'a' as int + 10
    } else {
        c as int - 'A' as int + 10
    }
}

/// The value of one hex digit, or `None` if `c` is not a hex digit.
pub fn hex_digit(c: char) -> (r: Option<u8>)
    ensures
        is_hex_digit(c) ==> (r matches Some(v) && v as int == hex_val(c) && v <= 15),
        !is_hex_digit(c) ==> r is None,
{
    if '0' <= c && c <= '9' {
        Some((c as u8) - ('0' as u8))
    } else if 'a' <= c && c <= 'f' {
        Some((c as u8) - ('a' as u8) + 10)
    } else if 'A' <= c && c <= 'F' {
        Some((c as u8) - ('A' as u8) + 10)
    } else {
        None
    }
}

/// Whether the view of a string is a well-formed `#rrggbb` colour: at least
/// seven characters whose six characters after the marker are hex digits.
/// Characters past the sixth are ignored, as in `#rrggbbaa` input.
pub open spec fn valid_hex_color(s: Seq<char>) -> bool {
    s.len() >= 7 && forall|i: int| 1 <= i < 7 ==> is_hex_digit(#[trigger] s[i])
}

/// The 8-bit channel encoded by the two hex digits at `i` and `i + 1`.
pub open spec fn hex_channel(s: Seq<char>, i: int) -> int
    recommends
        0 <= i && i + 1 < s.len(),
{
    16 * hex_val(s[i]) + hex_val(s[i + 1])
}

/// Parses a `#rrggbb` string into a resolved colour.  The leading marker
/// character is not examined; anything after the sixth digit is ignored.
pub fn parse_hex(s: &str) -> (res: Result<TurtleColor, ColorError>)
    ensures
        valid_hex_color(s@) ==> (res matches Ok(c) && c == TurtleColor::Color(
            hex_channel(s@, 1) as u8,
            hex_channel(s@, 3) as u8,
            hex_channel(s@, 5) as u8,
        )),
        !valid_hex_color(s@) ==> (res matches Err(e) && e == ColorError::MalformedHex),
{
    if s.unicode_len() < 7 {
        return Err(ColorError::MalformedHex);
    }
    let d1 = hex_digit(s.get_char(1));
    let d2 = hex_digit(s.get_char(2));
    let d3 = hex_digit(s.get_char(3));
    let d4 = hex_digit(s.get_char(4));
    let d5 = hex_digit(s.get_char(5));
    let d6 = hex_digit(s.get_char(6));
    match (d1, d2, d3, d4, d5, d6) {
        (Some(v1), Some(v2), Some(v3), Some(v4), Some(v5), Some(v6)) => Ok(
            TurtleColor::Color(16 * v1 + v2, 16 * v3 + v4, 16 * v5 + v6),
        ),
        _ => Err(ColorError::MalformedHex),
    }
}

/// Whether two string slices hold the same characters.
pub fn str_eq(a: &str, b: &str) -> (r: bool)
    ensures
        r <==> a@ == b@,
{
    let alen = a.unicode_len();
    if alen != b.unicode_len() {
        return false;
    }
    let mut i: usize = 0;
    while i < alen
        invariant
            i <= alen,
            alen == a@.len(),
            alen == b@.len(),
            forall|j: int| 0 <= j < i ==> a@[j] == b@[j],
        decreases alen - i,
    {
        if a.get_char(i) != b.get_char(i) {
            return false;
        }
        i += 1;
    }
    proof {
        assert(a@ =~= b@);
    }
    true
}

/// The first entry of the table whose name is `name`, if any: resolution is
/// in table order, earlier entries shadowing later ones.
pub open spec fn table_resolves(table: Seq<ColorNames>, name: Seq<char>) -> Option<(u8, u8, u8)>
    decreases table.len(),
{
    if table.len() == 0 {
        None
    } else if table[0].0@ == name {
        Some((table[0].1, table[0].2, table[0].3))
    } else {
        table_resolves(table.drop_first(), name)
    }
}

/// Looks `name` up in the colour table; an unknown name resolves to
/// `CurrentColor`, never to an error.
pub fn lookup_color(table: &Vec<ColorNames>, name: &str) -> (res: TurtleColor)
    ensures
        res == (match table_resolves(table@, name@) {
            Some(rgb) => TurtleColor::Color(rgb.0, rgb.1, rgb.2),
            None => TurtleColor::CurrentColor,
        }),
{
    let n = table.len();
    let mut i: usize = 0;
    proof {
        assert(table@.skip(0) =~= table@);
    }
    while i < n
        invariant
            i <= n,
            n == table@.len(),
            table_resolves(table@, name@) == table_resolves(table@.skip(i as int), name@),
        decreases n - i,
    {
        proof {
            assert(table@.skip(i as int)[0] == table@[i as int]);
            assert(table@.skip(i as int).drop_first() =~= table@.skip(i as int + 1));
        }
        if str_eq(table[i].0, name) {
            return TurtleColor::Color(table[i].1, table[i].2, table[i].3);
        }
        i += 1;
    }
    proof {
        assert(table@.skip(n as int) =~= Seq::<ColorNames>::empty());
    }
    TurtleColor::CurrentColor
}

/// Whether a resolution input names a hex colour: it starts with `#`.
pub open spec fn is_hex_input(s: Seq<char>) -> bool {
    s.len() >= 1 && s[0] == '#'
}

/// Resolves a colour input string: a `#rrggbb` string parses to its channels
/// or fails hard, and any other string is looked up in the name table, an
/// unknown name degrading to `CurrentColor`.
pub fn resolve(table: &Vec<ColorNames>, s: &str) -> (res: Result<TurtleColor, ColorError>)
    ensures
        is_hex_input(s@) ==> res == parse_hex_spec(s@),
        !is_hex_input(s@) ==> (res matches Ok(c) && c == (match table_resolves(table@, s@) {
            Some(rgb) => TurtleColor::Color(rgb.0, rgb.1, rgb.2),
            None => TurtleColor::CurrentColor,
        })),
{
    if s.unicode_len() >= 1 && s.get_char(0) == '#' {
        parse_hex(s)
    } else {
        Ok(lookup_color(table, s))
    }
}

/// What hex parsing returns for a given input view.
pub open spec fn parse_hex_spec(s: Seq<char>) -> Result<TurtleColor, ColorError> {
    if valid_hex_color(s) {
        Ok(
            TurtleColor::Color(
                hex_channel(s, 1) as u8,
                hex_channel(s, 3) as u8,
                hex_channel(s, 5) as u8,
            ),
        )
    } else {
        Err(ColorError::MalformedHex)
    }
}

/// Whether a fixed-point channel fraction lies in `[0, 1]`, that is in
/// `[0, 1000]` milliunits.
pub open spec fn channel_in_range(v: int) -> bool {
    0 <= v <= 1000
}

/// Resolves a numeric triple of channel fractions given in milliunits
/// (`1000` stands for 1.0).  A triple with any channel outside `[0, 1]`
/// resolves to `CurrentColor`, never to an error; an in-range triple is
/// quantised to 8-bit channels, rounding to nearest.
pub fn from_fraction_milli(r: i64, g: i64, b: i64) -> (res: TurtleColor)
    ensures
        channel_in_range(r as int) && channel_in_range(g as int) && channel_in_range(b as int)
            ==> res == TurtleColor::Color(
            round_div(r as int * 255, 1000) as u8,
            round_div(g as int * 255, 1000) as u8,
            round_div(b as int * 255, 1000) as u8,
        ),
        !(channel_in_range(r as int) && channel_in_range(g as int) && channel_in_range(b as int))
            ==> res == TurtleColor::CurrentColor,
{
    if 0 <= r && r <= 1000 && 0 <= g && g <= 1000 && 0 <= b && b <= 1000 {
        TurtleColor::Color(
            crate::fixed::div_round(r * 255, 1000) as u8,
            crate::fixed::div_round(g * 255, 1000) as u8,
            crate::fixed::div_round(b * 255, 1000) as u8,
        )
    } else {
        TurtleColor::CurrentColor
    }
}

impl From<(u8, u8, u8)> for TurtleColor {
    /// An 8-bit triple is always a resolved colour.
    fn from(t: (u8, u8, u8)) -> (r: Self) {
        TurtleColor::Color(t.0, t.1, t.2)
    }
}

impl vstd::std_specs::convert::FromSpecImpl<(u8, u8, u8)> for TurtleColor {
    open spec fn obeys_from_spec() -> bool {
        true
    }

    open spec fn from_spec(t: (u8, u8, u8)) -> Self {
        TurtleColor::Color(t.0, t.1, t.2)
    }
}

} // verus!
