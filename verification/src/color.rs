//! 8-bit RGBA colors and their `#rrggbb` / `#rrggbbaa` text form.
use vstd::prelude::*;

use crate::text::{chars_of, string_of};

verus! {

/// An 8-bit RGBA color, parsed from `#rrggbb` or `#rrggbbaa`.
#[derive(Debug, Clone, Copy, PartialEq, Eq, Structural)]
pub struct Color {
    pub r: u8,
    pub g: u8,
    pub b: u8,
    pub a: u8,
}

/// The value of a hexadecimal digit (either case), or `None` for any other character.
pub open spec fn hex_digit_value(c: char) -> Option<u8> {
    if '0' <= c && c <= '9' {
        Some((c as u32 - '0' as u32) as u8)
    } else if 'a' <= c && c <= 'f' {
        Some((c as u32 - 'a' as u32 + 10) as u8)
    } else if 'A' <= c && c <= 'F' {
        Some((c as u32 - 'A' as u32 + 10) as u8)
    } else {
        None
    }
}

/// The byte a two-character field denotes: two hex digits, high one first.
pub open spec fn byte_field(hi: char, lo: char) -> Option<u8> {
    match (hex_digit_value(hi), hex_digit_value(lo)) {
        (Some(x), Some(y)) => Some((16 * x + y) as u8),
        _ => None,
    }
}

/// What `Color::parse` accepts: `#` then three (opaque) or four byte fields.
pub open spec fn parse_color(s: Seq<char>) -> Option<Color> {
    if (s.len() == 7 || s.len() == 9) && s[0] == '#' {
        let r = byte_field(s[1], s[2]);
        let g = byte_field(s[3], s[4]);
        let b = byte_field(s[5], s[6]);
        let a = if s.len() == 9 { byte_field(s[7], s[8]) } else { Some(0xffu8) };
        if r is Some && g is Some && b is Some && a is Some {
            Some(Color { r: r->0, g: g->0, b: b->0, a: a->0 })
        } else {
            None
        }
    } else {
        None
    }
}

/// The lowercase hex digit for `d < 16`.
pub open spec fn hex_char(d: u8) -> char {
    if d < 10 {
        (('0' as u32) + d) as char
    } else {
        (('a' as u32) + d - 10) as char
    }
}

/// Two lowercase hex digits for a byte.
pub open spec fn byte_hex(b: u8) -> Seq<char> {
    seq![hex_char(b / 16), hex_char(b % 16)]
}

/// `#rrggbb` for an opaque color, `#rrggbbaa` otherwise (lowercase digits).
pub open spec fn color_hex(c: Color) -> Seq<char> {
    let rgb = seq!['#'] + byte_hex(c.r) + byte_hex(c.g) + byte_hex(c.b);
    if c.a == 0xff {
        rgb
    } else {
        rgb + byte_hex(c.a)
    }
}

fn digit_value(c: char) -> (v: Option<u8>)
    ensures
        v == hex_digit_value(c),
{
    if '0' <= c && c <= '9' {
        Some((c as u32 - '0' as u32) as u8)
    } else if 'a' <= c && c <= 'f' {
        Some((c as u32 - 'a' as u32 + 10) as u8)
    } else if 'A' <= c && c <= 'F' {
        Some((c as u32 - 'A' as u32 + 10) as u8)
    } else {
        None
    }
}

fn read_byte(hi: char, lo: char) -> (v: Option<u8>)
    ensures
        v == byte_field(hi, lo),
{
    match (digit_value(hi), digit_value(lo)) {
        (Some(x), Some(y)) => Some(16 * x + y),
        _ => None,
    }
}

fn digit_char(d: u8) -> (c: char)
    requires
        d < 16,
    ensures
        c == hex_char(d),
{
    if d < 10 {
        ((('0' as u8) + d) as char)
    } else {
        ((('a' as u8) + d - 10) as char)
    }
}

impl Color {
    /// An opaque color.
    pub fn rgb(r: u8, g: u8, b: u8) -> (c: Color)
        ensures
            c == (Color { r, g, b, a: 0xff }),
    {
        Color { r, g, b, a: 0xff }
    }

    /// A color with an explicit alpha.
    pub fn rgba(r: u8, g: u8, b: u8, a: u8) -> (c: Color)
        ensures
            c == (Color { r, g, b, a }),
    {
        Color { r, g, b, a }
    }

    /// Parse `#rrggbb` or `#rrggbbaa` (case-insensitive). Returns `None` on any
    /// malformed input so the caller can keep the default.
    pub fn parse(s: &str) -> (c: Option<Color>)
        ensures
            c == parse_color(s@),
    {
        let v = chars_of(s);
        let n = v.len();
        if !((n == 7 || n == 9) && v[0] == '#') {
            return None;
        }
        let r = read_byte(v[1], v[2]);
        let g = read_byte(v[3], v[4]);
        let b = read_byte(v[5], v[6]);
        let a = if n == 9 { read_byte(v[7], v[8]) } else { Some(0xffu8) };
        match (r, g, b, a) {
            (Some(r), Some(g), Some(b), Some(a)) => Some(Color { r, g, b, a }),
            _ => None,
        }
    }

    /// Render as `#rrggbb` (opaque) or `#rrggbbaa` (with alpha) — the inverse of
    /// [`parse`](Self::parse), used when writing a config.
    pub fn to_hex(self) -> (s: String)
        ensures
            s@ == color_hex(self),
    {
        let mut v: Vec<char> = Vec::new();
        v.push('#');
        v.push(digit_char(self.r / 16));
        v.push(digit_char(self.r % 16));
        v.push(digit_char(self.g / 16));
        v.push(digit_char(self.g % 16));
        v.push(digit_char(self.b / 16));
        v.push(digit_char(self.b % 16));
        if self.a != 0xff {
            v.push(digit_char(self.a / 16));
            v.push(digit_char(self.a % 16));
        }
        proof {
            assert(v@ =~= color_hex(self));
        }
        string_of(&v)
    }
}

/// Reading back a rendered digit gives the digit.
proof fn lemma_hex_char_round_trip(d: u8)
    requires
        d < 16,
    ensures
        hex_digit_value(hex_char(d)) == Some(d),
{
}

/// Writing a color and parsing the text back gives the same color, for every color.
pub proof fn lemma_hex_round_trip(c: Color)
    ensures
        parse_color(color_hex(c)) == Some(c),
{
    lemma_hex_char_round_trip(c.r / 16);
    lemma_hex_char_round_trip(c.r % 16);
    lemma_hex_char_round_trip(c.g / 16);
    lemma_hex_char_round_trip(c.g % 16);
    lemma_hex_char_round_trip(c.b / 16);
    lemma_hex_char_round_trip(c.b % 16);
    lemma_hex_char_round_trip(c.a / 16);
    lemma_hex_char_round_trip(c.a % 16);
    let s = color_hex(c);
    assert(byte_field(s[1], s[2]) == Some(c.r));
    assert(byte_field(s[3], s[4]) == Some(c.g));
    assert(byte_field(s[5], s[6]) == Some(c.b));
    if c.a != 0xff {
        assert(byte_field(s[7], s[8]) == Some(c.a));
    }
}

} // verus!
