//! The RGBA color model: parsing from hex text, encoding to hex and
//! `rgba(...)` text, and the opacity policy that drives attribute emission.

use vstd::prelude::*;
use crate::decimal::{spec_digit, spec_digits, format_u64, push_digit};
use substring::Substring;

verus! {

/// An immutable RGBA color; every component lies in `0 ..= 255`.
#[derive(Clone, Copy, PartialEq, Eq, Structural, Debug)]
pub struct Color {
    pub r: u8,
    pub g: u8,
    pub b: u8,
    pub a: u8,
}

/// The uppercase hex digit character for `d` in `0 .. 16`.
pub open spec fn spec_hex_digit(d: int) -> char {
    if d < 10 {
        spec_digit(d)
    } else if d == 10 {
        'A'
    } else if d == 11 {
        'B'
    } else if d == 12 {
        'C'
    } else if d == 13 {
        'D'
    } else if d == 14 {
        'E'
    } else {
        'F'
    }
}

/// Two uppercase hex digits for a byte value.
pub open spec fn spec_hex_byte(v: int) -> Seq<char> {
    seq![spec_hex_digit(v / 16), spec_hex_digit(v % 16)]
}

/// The `#RRGGBB` text of a color (the alpha channel is not encoded).
pub open spec fn spec_hex_text(c: Color) -> Seq<char> {
    seq!['#'] + spec_hex_byte(c.r as int) + spec_hex_byte(c.g as int) + spec_hex_byte(c.b as int)
}

/// The alpha channel scaled to tenths: `a / 255` rounded to one decimal,
/// held as an integer in `0 ..= 10`.
pub open spec fn spec_opacity_tenths(a: int) -> int {
    (a * 20 + 255) / 510
}

/// The `rgba(r,g,b,o)` text of a color, where `o` is the opacity with
/// exactly one decimal place.
pub open spec fn spec_rgba_text(c: Color) -> Seq<char> {
    let t = spec_opacity_tenths(c.a as int);
    seq!['r', 'g', 'b', 'a', '('] + spec_digits(c.r as int) + seq![','] + spec_digits(c.g as int)
        + seq![','] + spec_digits(c.b as int) + seq![','] + spec_digits(t / 10) + seq!['.']
        + seq![spec_digit(t % 10)] + seq![')']
}

/// The value of a hex digit character, or `-1` when it is none.
pub open spec fn spec_hex_val(ch: char) -> int {
    let u = ch as int;
    if 48 <= u && u <= 57 {
        u - 48
    } else if 97 <= u && u <= 102 {
        u - 97 + 10
    } else if 65 <= u && u <= 70 {
        u - 65 + 10
    } else {
        -1
    }
}

/// Whether every character of `s` is a hex digit.
pub open spec fn spec_is_hex_digits(s: Seq<char>) -> bool {
    forall|i: int| 0 <= i < s.len() ==> spec_hex_val(s[i]) >= 0
}

/// The number the hex digits of `s` denote, most significant first.
pub open spec fn spec_hex_num(s: Seq<char>) -> int
    decreases s.len(),
{
    if s.len() == 0 {
        0
    } else {
        spec_hex_num(s.drop_last()) * 16 + spec_hex_val(s.last())
    }
}

/// The byte a hex group denotes: an optional leading `+`, then hex digits
/// whose value fits a byte; any malformed group denotes 0.
pub open spec fn spec_parse_hex(s: Seq<char>) -> u8 {
    let digits = if s.len() > 0 && s[0] == '+' {
        s.skip(1)
    } else {
        s
    };
    if digits.len() > 0 && spec_is_hex_digits(digits) && spec_hex_num(digits) <= 255 {
        spec_hex_num(digits) as u8
    } else {
        0
    }
}

/// The characters of `s` from `start` to `end`, both clamped to the length;
/// empty when `end <= start`.
pub open spec fn spec_substr(s: Seq<char>, start: int, end: int) -> Seq<char> {
    if end <= start {
        Seq::<char>::empty()
    } else {
        let lo = if start < s.len() {
            start
        } else {
            s.len() as int
        };
        let hi = if end < s.len() {
            end
        } else {
            s.len() as int
        };
        s.subrange(lo, hi)
    }
}

/// The color a piece of text denotes: `#RGB` takes one hex digit per
/// channel, `#RRGGBB` two; text without a leading `#` denotes transparent
/// black, and malformed hex groups denote 0 per channel.
pub open spec fn spec_parse_color(s: Seq<char>) -> Color {
    if s.len() == 0 || s[0] != '#' {
        Color { r: 0, g: 0, b: 0, a: 0 }
    } else {
        let h = s.skip(1);
        if h.len() == 3 {
            Color {
                r: spec_parse_hex(spec_substr(h, 0, 1)),
                g: spec_parse_hex(spec_substr(h, 1, 2)),
                b: spec_parse_hex(spec_substr(h, 2, 3)),
                a: 255,
            }
        } else {
            Color {
                r: spec_parse_hex(spec_substr(h, 0, 2)),
                g: spec_parse_hex(spec_substr(h, 2, 4)),
                b: spec_parse_hex(spec_substr(h, 4, 6)),
                a: 255,
            }
        }
    }
}

/// Relies on `substring::Substring::substring` for `str`: the characters
/// from `start` to `end`, both clamped to the character count, and the
/// empty string when `end <= start`.
#[verifier::external_body]
fn substr(s: &str, start: usize, end: usize) -> (r: String)
    ensures
        r@ == spec_substr(s@, start as int, end as int),
{
    s.substring(start, end).to_string()
}

/// The hex digit value of `ch`, when it is one.
fn hex_val(ch: char) -> (r: Option<u8>)
    ensures
        spec_hex_val(ch) >= 0 ==> r == Some(spec_hex_val(ch) as u8),
        spec_hex_val(ch) < 0 ==> r is None,
{
    let u = ch as u32;
    if 48 <= u && u <= 57 {
        Some((u - 48) as u8)
    } else if 97 <= u && u <= 102 {
        Some((u - 97 + 10) as u8)
    } else if 65 <= u && u <= 70 {
        Some((u - 65 + 10) as u8)
    } else {
        None
    }
}

proof fn lemma_hex_num_nonneg(s: Seq<char>)
    requires
        spec_is_hex_digits(s),
    ensures
        spec_hex_num(s) >= 0,
    decreases s.len(),
{
    if s.len() > 0 {
        assert(spec_is_hex_digits(s.drop_last())) by {
            assert(forall|i: int|
                0 <= i < s.len() - 1 ==> s.drop_last()[i] == s[i]);
        }
        lemma_hex_num_nonneg(s.drop_last());
    }
}

/// The byte one hex group of a color denotes; a malformed group denotes 0.
pub fn parse_hex(hex: &str) -> (v: u8)
    ensures
        v == spec_parse_hex(hex@),
{
    let n = hex.unicode_len();
    let mut start: usize = 0;
    if n > 0 && hex.get_char(0) == '+' {
        start = 1;
    }
    let ghost digits: Seq<char> = if hex@.len() > 0 && hex@[0] == '+' {
        hex@.skip(1)
    } else {
        hex@
    };
    if start >= n {
        return 0;
    }
    let mut i: usize = start;
    let mut ok = true;
    let mut over = false;
    let mut acc: u32 = 0;
    while i < n
        invariant
            start <= i <= n,
            n == hex@.len(),
            start == 1 ==> hex@.len() > 0 && hex@[0] == '+' && digits == hex@.skip(1),
            start == 0 ==> digits == hex@,
            digits.len() == n - start,
            forall|j: int| 0 <= j < digits.len() ==> digits[j] == hex@[j + start],
            ok == spec_is_hex_digits(digits.take(i - start)),
            ok && !over ==> acc == spec_hex_num(digits.take(i - start)) && acc <= 255,
            ok && over ==> spec_hex_num(digits.take(i - start)) > 255,
        decreases n - i,
    {
        let c = hex.get_char(i);
        let ghost pre = digits.take(i - start);
        let ghost cur = digits.take(i + 1 - start);
        proof {
            assert(cur.drop_last() =~= pre);
            assert(cur.last() == digits[i - start]);
            assert(digits[i - start] == hex@[i as int]);
        }
        match hex_val(c) {
            Some(d) => {
                if ok {
                    proof {
                        assert(spec_is_hex_digits(cur)) by {
                            assert(forall|j: int|
                                0 <= j < cur.len() - 1 ==> cur[j] == pre[j]);
                        }
                    }
                    if !over {
                        let next = acc * 16 + (d as u32);
                        if next > 255 {
                            over = true;
                        } else {
                            acc = next;
                        }
                    } else {
                        proof {
                            lemma_hex_num_nonneg(pre);
                        }
                    }
                }
            },
            None => {
                ok = false;
            },
        }
        proof {
            if !ok {
                assert(!spec_is_hex_digits(cur));
            }
        }
        i = i + 1;
    }
    proof {
        assert(digits.take(n - start) =~= digits);
    }
    if ok && !over {
        acc as u8
    } else {
        0
    }
}

impl Color {
    /// A color from its four channels.
    pub fn new(r: u8, g: u8, b: u8, a: u8) -> (c: Color)
        ensures
            c == (Color { r, g, b, a }),
    {
        Color { r, g, b, a }
    }

    /// A fully opaque color from its three channels.
    pub fn rgb(r: u8, g: u8, b: u8) -> (c: Color)
        ensures
            c == (Color { r, g, b, a: 255 }),
    {
        Color { r, g, b, a: 255 }
    }

    /// Opaque white.
    pub fn white() -> (c: Color)
        ensures
            c == (Color { r: 255, g: 255, b: 255, a: 255 }),
    {
        Color { r: 255, g: 255, b: 255, a: 255 }
    }

    /// Opaque black.
    pub fn black() -> (c: Color)
        ensures
            c == (Color { r: 0, g: 0, b: 0, a: 255 }),
    {
        Color { r: 0, g: 0, b: 0, a: 255 }
    }

    /// The color a piece of text denotes.
    pub fn parse(value: &str) -> (c: Color)
        ensures
            c == spec_parse_color(value@),
    {
        let n = value.unicode_len();
        if n == 0 || value.get_char(0) != '#' {
            return Color { r: 0, g: 0, b: 0, a: 0 };
        }
        let hexs = substr(value, 1, n);
        proof {
            assert(hexs@ =~= value@.skip(1));
        }
        let m = hexs.as_str().unicode_len();
        if m == 3 {
            Color {
                r: parse_hex(substr(hexs.as_str(), 0, 1).as_str()),
                g: parse_hex(substr(hexs.as_str(), 1, 2).as_str()),
                b: parse_hex(substr(hexs.as_str(), 2, 3).as_str()),
                a: 255,
            }
        } else {
            Color {
                r: parse_hex(substr(hexs.as_str(), 0, 2).as_str()),
                g: parse_hex(substr(hexs.as_str(), 2, 4).as_str()),
                b: parse_hex(substr(hexs.as_str(), 4, 6).as_str()),
                a: 255,
            }
        }
    }

    /// The uppercase `#RRGGBB` text of this color.
    pub fn hex(&self) -> (s: String)
        ensures
            s@ == spec_hex_text(*self),
    {
        let mut s = String::new();
        proof {
            reveal_strlit("#");
        }
        s.append("#");
        push_hex_byte(&mut s, self.r);
        push_hex_byte(&mut s, self.g);
        push_hex_byte(&mut s, self.b);
        assert(s@ =~= spec_hex_text(*self));
        s
    }

    /// The `rgba(r,g,b,o)` text of this color, with the opacity rounded to
    /// one decimal place.
    pub fn rgba(&self) -> (s: String)
        ensures
            s@ == spec_rgba_text(*self),
    {
        let mut s = String::new();
        proof {
            reveal_strlit("rgba(");
            reveal_strlit(",");
            reveal_strlit(".");
            reveal_strlit(")");
        }
        s.append("rgba(");
        let r_text = format_u64(self.r as u64);
        s.append(r_text.as_str());
        s.append(",");
        let g_text = format_u64(self.g as u64);
        s.append(g_text.as_str());
        s.append(",");
        let b_text = format_u64(self.b as u64);
        s.append(b_text.as_str());
        s.append(",");
        let t = self.opacity_tenths();
        let whole = format_u64((t / 10) as u64);
        s.append(whole.as_str());
        s.append(".");
        push_digit(&mut s, (t % 10) as u64);
        s.append(")");
        assert(s@ =~= spec_rgba_text(*self));
        s
    }

    /// The alpha channel as tenths of full opacity, rounded to the nearest.
    pub fn opacity_tenths(&self) -> (t: u8)
        ensures
            t == spec_opacity_tenths(self.a as int),
            t <= 10,
    {
        let v: u32 = ((self.a as u32) * 20 + 255) / 510;
        v as u8
    }

    /// Whether every channel, alpha included, is zero.
    pub fn is_zero(&self) -> (b: bool)
        ensures
            b == (self.r == 0 && self.g == 0 && self.b == 0 && self.a == 0),
    {
        self.r == 0 && self.g == 0 && self.b == 0 && self.a == 0
    }

    /// Whether the color is fully transparent.
    pub fn is_transparent(&self) -> (b: bool)
        ensures
            b == (self.a == 0),
    {
        self.a == 0
    }

    /// Whether the color is fully opaque.
    pub fn is_nontransparent(&self) -> (b: bool)
        ensures
            b == (self.a == 255),
    {
        self.a == 255
    }

    /// This color with its alpha channel replaced.
    pub fn with_alpha(&self, a: u8) -> (c: Color)
        ensures
            c == (Color { a, ..*self }),
    {
        Color { r: self.r, g: self.g, b: self.b, a }
    }
}

proof fn lemma_hex_digit_val(d: int)
    requires
        0 <= d < 16,
    ensures
        spec_hex_val(spec_hex_digit(d)) == d,
        spec_hex_digit(d) != '+',
{
}

proof fn lemma_parse_hex_byte(v: int)
    requires
        0 <= v < 256,
    ensures
        spec_parse_hex(spec_hex_byte(v)) == v as u8,
{
    let s = spec_hex_byte(v);
    lemma_hex_digit_val(v / 16);
    lemma_hex_digit_val(v % 16);
    assert(spec_is_hex_digits(s));
    assert(s.drop_last() =~= seq![s[0]]);
    assert(seq![s[0]].drop_last() =~= Seq::<char>::empty());
    assert(spec_hex_num(Seq::<char>::empty()) == 0);
    assert(spec_hex_num(seq![s[0]]) == spec_hex_val(s[0]));
    assert(spec_hex_num(s.drop_last()) == spec_hex_val(s[0]));
    assert(s.last() == s[1]);
    assert(spec_hex_num(s) == spec_hex_val(s[0]) * 16 + spec_hex_val(s[1]));
    assert(spec_hex_num(s) == (v / 16) * 16 + v % 16);
}

/// Parsing the hex text of a fully opaque color returns its red, green
/// and blue channels exactly: `parse` is a left inverse of `hex` on
/// opaque colors.
pub proof fn lemma_hex_round_trip(c: Color)
    requires
        c.a == 255,
    ensures
        spec_parse_color(spec_hex_text(c)) == c,
{
    let s = spec_hex_text(c);
    assert(s.len() == 7);
    assert(s[0] == '#');
    let h = s.skip(1);
    assert(h =~= spec_hex_byte(c.r as int) + spec_hex_byte(c.g as int) + spec_hex_byte(
        c.b as int,
    ));
    assert(h.len() == 6);
    assert(spec_substr(h, 0, 2) =~= spec_hex_byte(c.r as int));
    assert(spec_substr(h, 2, 4) =~= spec_hex_byte(c.g as int));
    assert(spec_substr(h, 4, 6) =~= spec_hex_byte(c.b as int));
    lemma_parse_hex_byte(c.r as int);
    lemma_parse_hex_byte(c.g as int);
    lemma_parse_hex_byte(c.b as int);
}

/// Appends the two uppercase hex digits of `v` to `s`.
fn push_hex_byte(s: &mut String, v: u8)
    ensures
        final(s)@ == old(s)@ + spec_hex_byte(v as int),
{
    push_hex_digit(s, v / 16);
    push_hex_digit(s, v % 16);
    assert(s@ =~= old(s)@ + spec_hex_byte(v as int));
}

/// Appends the uppercase hex digit for `d` to `s`.
fn push_hex_digit(s: &mut String, d: u8)
    requires
        d < 16,
    ensures
        final(s)@ == old(s)@ + seq![spec_hex_digit(d as int)],
{
    if d < 10 {
        push_digit(s, d as u64);
    } else {
        match d {
            10 => {
                proof {
                    reveal_strlit("A");
                }
                s.append("A");
            },
            11 => {
                proof {
                    reveal_strlit("B");
                }
                s.append("B");
            },
            12 => {
                proof {
                    reveal_strlit("C");
                }
                s.append("C");
            },
            13 => {
                proof {
                    reveal_strlit("D");
                }
                s.append("D");
            },
            14 => {
                proof {
                    reveal_strlit("E");
                }
                s.append("E");
            },
            _ => {
                proof {
                    reveal_strlit("F");
                }
                s.append("F");
            },
        }
        assert(s@ =~= old(s)@ + seq![spec_hex_digit(d as int)]);
    }
}

} // verus!
