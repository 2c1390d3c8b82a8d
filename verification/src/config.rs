//! Colour values and the limits read from the configuration file.

use vstd::prelude::*;
use crate::text::{push_char, push_str};

verus! {

/// An RGBA colour stored as raw bytes and written as `#RRGGBBAA`.
#[derive(Debug, Clone, Copy, PartialEq, Eq, Structural)]
pub struct HexColor {
    r: u8,
    g: u8,
    b: u8,
    a: u8,
}

/// Upper-case hexadecimal digit of a value below 16.
pub open spec fn hex_digit_upper(d: int) -> char {
    if d == 0 { '0' } else if d == 1 { '1' } else if d == 2 { '2' } else if d == 3 { '3' }
    else if d == 4 { '4' } else if d == 5 { '5' } else if d == 6 { '6' } else if d == 7 { '7' }
    else if d == 8 { '8' } else if d == 9 { '9' } else if d == 10 { 'A' } else if d == 11 { 'B' }
    else if d == 12 { 'C' } else if d == 13 { 'D' } else if d == 14 { 'E' } else { 'F' }
}

/// Two upper-case hexadecimal digits of a byte.
pub open spec fn hex_byte(b: u8) -> Seq<char> {
    seq![hex_digit_upper(b as int / 16), hex_digit_upper(b as int % 16)]
}

/// `#RRGGBBAA` text of a colour.
pub open spec fn hex_text(c: HexColor) -> Seq<char> {
    seq!['#'] + hex_byte(c.red()) + hex_byte(c.green()) + hex_byte(c.blue()) + hex_byte(c.alpha())
}

/// Characters that `str::trim` removes: the Unicode `White_Space` property.
pub open spec fn is_unicode_whitespace(c: char) -> bool {
    ||| c == ' '
    ||| ('\t' <= c && c <= '\r')
    ||| c == '\u{85}'
    ||| c == '\u{a0}'
    ||| c == '\u{1680}'
    ||| ('\u{2000}' <= c && c <= '\u{200a}')
    ||| c == '\u{2028}'
    ||| c == '\u{2029}'
    ||| c == '\u{202f}'
    ||| c == '\u{205f}'
    ||| c == '\u{3000}'
}

pub open spec fn trim_start(s: Seq<char>) -> Seq<char>
    decreases s.len(),
{
    if s.len() > 0 && is_unicode_whitespace(s[0]) {
        trim_start(s.drop_first())
    } else {
        s
    }
}

pub open spec fn trim_end(s: Seq<char>) -> Seq<char>
    decreases s.len(),
{
    if s.len() > 0 && is_unicode_whitespace(s.last()) {
        trim_end(s.drop_last())
    } else {
        s
    }
}

/// `s` without leading and trailing white space.
pub open spec fn trimmed(s: Seq<char>) -> Seq<char> {
    trim_end(trim_start(s))
}

/// The digits of a colour text: trimmed, then without one leading `#`, or
/// else without one leading `0x`.
pub open spec fn hex_body(value: Seq<char>) -> Seq<char> {
    let t = trimmed(value);
    if t.len() >= 1 && t[0] == '#' {
        t.skip(1)
    } else if t.len() >= 2 && t[0] == '0' && t[1] == 'x' {
        t.skip(2)
    } else {
        t
    }
}

/// Number of bytes of a character in UTF-8.
pub open spec fn utf8_width(c: char) -> nat {
    if (c as u32) < 0x80 {
        1
    } else if (c as u32) < 0x800 {
        2
    } else if (c as u32) < 0x10000 {
        3
    } else {
        4
    }
}

/// Number of bytes of a text in UTF-8.
pub open spec fn utf8_len(s: Seq<char>) -> nat
    decreases s.len(),
{
    if s.len() == 0 {
        0
    } else {
        utf8_len(s.drop_last()) + utf8_width(s.last())
    }
}

pub open spec fn is_hex_digit(c: char) -> bool {
    ('0' <= c && c <= '9') || ('a' <= c && c <= 'f') || ('A' <= c && c <= 'F')
}

/// Value of a hexadecimal digit (either case).
pub open spec fn hex_value(c: char) -> int {
    if '0' <= c && c <= '9' {
        c as int - '0' as int
    } else if 'a' <= c && c <= 'f' {
        c as int - 'a' as int + 10
    } else {
        c as int - 'A' as int + 10
    }
}

/// Byte written by the two hexadecimal digits at `i` and `i + 1`.
pub open spec fn hex_pair(s: Seq<char>, i: int) -> int {
    hex_value(s[i]) * 16 + hex_value(s[i + 1])
}

pub open spec fn all_hex_digits(s: Seq<char>) -> bool {
    forall|i: int| 0 <= i < s.len() ==> is_hex_digit(#[trigger] s[i])
}

/// Message for a colour text of the wrong length.
pub open spec fn wrong_length_message(value: Seq<char>) -> Seq<char> {
    "expected a hex color like #RRGGBB or #RRGGBBAA, got \""@ + value + "\""@
}

/// Message for a colour text with a character that is not a hexadecimal digit.
pub open spec fn invalid_digit_message(value: Seq<char>) -> Seq<char> {
    "invalid hex color \""@ + value + "\""@
}

/// Result of reading a colour text: six or eight hexadecimal digits (eight
/// bytes when counted in UTF-8 where they are not ASCII) after an optional
/// `#` or `0x`, the alpha being opaque when only six are given.
pub open spec fn parse_hex_spec(value: Seq<char>) -> Result<(int, int, int, int), Seq<char>> {
    let hex = hex_body(value);
    if utf8_len(hex) != 6 && utf8_len(hex) != 8 {
        Err(wrong_length_message(value))
    } else if !all_hex_digits(hex) {
        Err(invalid_digit_message(value))
    } else {
        Ok((
            hex_pair(hex, 0),
            hex_pair(hex, 2),
            hex_pair(hex, 4),
            if hex.len() == 8 { hex_pair(hex, 6) } else { 255 },
        ))
    }
}

proof fn lemma_ascii_utf8_len(s: Seq<char>)
    requires
        all_hex_digits(s),
    ensures
        utf8_len(s) == s.len(),
    decreases s.len(),
{
    if s.len() > 0 {
        assert(all_hex_digits(s.drop_last())) by {
            assert forall|i: int| 0 <= i < s.drop_last().len() implies is_hex_digit(
                #[trigger] s.drop_last()[i],
            ) by {
                assert(s.drop_last()[i] == s[i]);
            }
        }
        lemma_ascii_utf8_len(s.drop_last());
        assert(is_hex_digit(s[s.len() - 1]));
    }
}

fn utf8_width_exec(c: char) -> (w: usize)
    ensures
        w == utf8_width(c),
{
    let v = c as u32;
    if v < 0x80 {
        1
    } else if v < 0x800 {
        2
    } else if v < 0x10000 {
        3
    } else {
        4
    }
}

fn is_whitespace_exec(c: char) -> (b: bool)
    ensures
        b == is_unicode_whitespace(c),
{
    c == ' ' || ('\t' <= c && c <= '\r') || c == '\u{85}' || c == '\u{a0}' || c == '\u{1680}'
        || ('\u{2000}' <= c && c <= '\u{200a}') || c == '\u{2028}' || c == '\u{2029}'
        || c == '\u{202f}' || c == '\u{205f}' || c == '\u{3000}'
}

fn is_hex_digit_exec(c: char) -> (b: bool)
    ensures
        b == is_hex_digit(c),
{
    ('0' <= c && c <= '9') || ('a' <= c && c <= 'f') || ('A' <= c && c <= 'F')
}

fn hex_value_exec(c: char) -> (v: u8)
    requires
        is_hex_digit(c),
    ensures
        v == hex_value(c),
        v < 16,
{
    let x = c as u32;
    if '0' <= c && c <= '9' {
        (x - 48) as u8
    } else if 'a' <= c && c <= 'f' {
        (x - 97 + 10) as u8
    } else {
        (x - 65 + 10) as u8
    }
}

fn hex_digit_upper_exec(d: u8) -> (c: char)
    requires
        d < 16,
    ensures
        c == hex_digit_upper(d as int),
{
    match d {
        0 => '0',
        1 => '1',
        2 => '2',
        3 => '3',
        4 => '4',
        5 => '5',
        6 => '6',
        7 => '7',
        8 => '8',
        9 => '9',
        10 => 'A',
        11 => 'B',
        12 => 'C',
        13 => 'D',
        14 => 'E',
        _ => 'F',
    }
}

fn push_hex_byte(s: &mut String, b: u8)
    ensures
        final(s)@ == old(s)@ + hex_byte(b),
{
    push_char(s, hex_digit_upper_exec(b / 16));
    push_char(s, hex_digit_upper_exec(b % 16));
    assert(final(s)@ =~= old(s)@ + hex_byte(b));
}

/// The characters of a string slice, in order.
pub(crate) fn chars_of(s: &str) -> (v: Vec<char>)
    ensures
        v@ == s@,
{
    let mut v: Vec<char> = Vec::new();
    for ch in it: s.chars()
        invariant
            it.seq() == s@,
            v@ == s@.take(it.index() as int),
    {
        v.push(ch);
        assert(v@ =~= s@.take(it.index() + 1));
    }
    assert(s@.take(s@.len() as int) =~= s@);
    v
}

proof fn lemma_trim_start_skip(s: Seq<char>, i: int)
    requires
        0 <= i <= s.len(),
        forall|j: int| 0 <= j < i ==> is_unicode_whitespace(#[trigger] s[j]),
    ensures
        trim_start(s) == trim_start(s.skip(i)),
    decreases i,
{
    if i > 0 {
        assert(is_unicode_whitespace(s[0]));
        let rest = s.drop_first();
        assert forall|j: int| 0 <= j < i - 1 implies is_unicode_whitespace(#[trigger] rest[j]) by {
            assert(rest[j] == s[j + 1]);
        }
        lemma_trim_start_skip(rest, i - 1);
        assert(rest.skip(i - 1) =~= s.skip(i));
    } else {
        assert(s.skip(0) =~= s);
    }
}

proof fn lemma_trim_end_take(s: Seq<char>, k: int)
    requires
        0 <= k <= s.len(),
        forall|j: int| k <= j < s.len() ==> is_unicode_whitespace(#[trigger] s[j]),
    ensures
        trim_end(s) == trim_end(s.take(k)),
    decreases s.len() - k,
{
    if k < s.len() {
        assert(is_unicode_whitespace(s.last()));
        let rest = s.drop_last();
        assert forall|j: int| k <= j < rest.len() implies is_unicode_whitespace(#[trigger] rest[j]) by {
            assert(rest[j] == s[j]);
        }
        lemma_trim_end_take(rest, k);
        assert(rest.take(k) =~= s.take(k));
    } else {
        assert(s.take(k) =~= s);
    }
}

impl HexColor {
    pub closed spec fn red(self) -> u8 {
        self.r
    }

    pub closed spec fn green(self) -> u8 {
        self.g
    }

    pub closed spec fn blue(self) -> u8 {
        self.b
    }

    pub closed spec fn alpha(self) -> u8 {
        self.a
    }

    /// An opaque colour from RGB bytes.
    pub fn from_rgb(r: u8, g: u8, b: u8) -> (c: HexColor)
        ensures
            c.red() == r && c.green() == g && c.blue() == b && c.alpha() == 255,
    {
        HexColor { r, g, b, a: 255 }
    }

    /// A colour from RGBA bytes.
    pub fn from_rgba(r: u8, g: u8, b: u8, a: u8) -> (c: HexColor)
        ensures
            c.red() == r && c.green() == g && c.blue() == b && c.alpha() == a,
    {
        HexColor { r, g, b, a }
    }

    /// The stored bytes, red first.
    pub fn rgba(self) -> (bytes: [u8; 4])
        ensures
            bytes@ == seq![self.red(), self.green(), self.blue(), self.alpha()],
    {
        [self.r, self.g, self.b, self.a]
    }

    /// `#RRGGBBAA` in upper-case hexadecimal.
    pub fn fmt_hex(self) -> (s: String)
        ensures
            s@ == hex_text(self),
    {
        let mut s = String::new();
        push_char(&mut s, '#');
        push_hex_byte(&mut s, self.r);
        push_hex_byte(&mut s, self.g);
        push_hex_byte(&mut s, self.b);
        push_hex_byte(&mut s, self.a);
        assert(s@ =~= hex_text(self));
        s
    }

    /// Reads `#RRGGBB`, `#RRGGBBAA`, `0x...` or bare hexadecimal digits,
    /// surrounded by white space or not; six digits give an opaque colour.
    pub fn parse_hex(value: &str) -> (res: Result<HexColor, String>)
        ensures
            match (res, parse_hex_spec(value@)) {
                (Ok(c), Ok((r, g, b, a))) => c.red() == r && c.green() == g && c.blue() == b
                    && c.alpha() == a,
                (Err(msg), Err(expected)) => msg@ == expected,
                _ => false,
            },
    {
        let chars = chars_of(value);
        let ghost s = value@;
        let (start, end) = trim_bounds(&chars);
        let hs = hex_body_start(&chars, start, end);
        let ghost hex = s.subrange(hs as int, end as int);
        let (fits, bytes, all_hex) = scan_hex_digits(&chars, hs, end);
        if !fits || (bytes != 6 && bytes != 8) {
            let mut msg = String::new();
            push_str(&mut msg, "expected a hex color like #RRGGBB or #RRGGBBAA, got \"");
            push_str(&mut msg, value);
            push_str(&mut msg, "\"");
            return Err(msg);
        }
        if !all_hex {
            let mut msg = String::new();
            push_str(&mut msg, "invalid hex color \"");
            push_str(&mut msg, value);
            push_str(&mut msg, "\"");
            return Err(msg);
        }
        proof {
            lemma_ascii_utf8_len(hex);
            assert(is_hex_digit(hex[0]) && is_hex_digit(hex[1]) && is_hex_digit(hex[2]));
            assert(is_hex_digit(hex[3]) && is_hex_digit(hex[4]) && is_hex_digit(hex[5]));
            if hex.len() == 8 {
                assert(is_hex_digit(hex[6]) && is_hex_digit(hex[7]));
            }
        }
        let len = end - hs;
        let r = hex_value_exec(chars[hs]) * 16 + hex_value_exec(chars[hs + 1]);
        let g = hex_value_exec(chars[hs + 2]) * 16 + hex_value_exec(chars[hs + 3]);
        let b = hex_value_exec(chars[hs + 4]) * 16 + hex_value_exec(chars[hs + 5]);
        let a = if len == 8 {
            hex_value_exec(chars[hs + 6]) * 16 + hex_value_exec(chars[hs + 7])
        } else {
            255
        };
        Ok(HexColor::from_rgba(r, g, b, a))
    }
}

/// Bounds of the text that remains once leading and trailing white space is removed.
fn trim_bounds(chars: &Vec<char>) -> (r: (usize, usize))
    ensures
        r.0 <= r.1 <= chars@.len(),
        trimmed(chars@) == chars@.subrange(r.0 as int, r.1 as int),
{
    let ghost s = chars@;
    let n = chars.len();
    let mut start: usize = 0;
    while start < n && is_whitespace_exec(chars[start])
        invariant
            chars@ == s,
            n == s.len(),
            start <= n,
            forall|j: int| 0 <= j < start ==> is_unicode_whitespace(#[trigger] s[j]),
        decreases n - start,
    {
        start = start + 1;
    }
    proof {
        lemma_trim_start_skip(s, start as int);
    }
    let mut end: usize = n;
    while end > start && is_whitespace_exec(chars[end - 1])
        invariant
            chars@ == s,
            n == s.len(),
            start <= end <= n,
            forall|j: int| end <= j < n ==> is_unicode_whitespace(#[trigger] s[j]),
        decreases end - start,
    {
        end = end - 1;
    }
    proof {
        let rest = s.skip(start as int);
        assert(trim_start(rest) == rest) by {
            if rest.len() > 0 {
                assert(rest[0] == s[start as int]);
            }
        }
        assert forall|j: int| (end - start) <= j < rest.len() implies is_unicode_whitespace(
            #[trigger] rest[j],
        ) by {
            assert(rest[j] == s[j + start]);
        }
        lemma_trim_end_take(rest, (end - start) as int);
        let t = rest.take((end - start) as int);
        assert(t =~= s.subrange(start as int, end as int));
        if t.len() > 0 {
            assert(t.last() == s[end - 1]);
        }
        assert(trim_end(t) == t);
    }
    (start, end)
}

/// Where the digits start once an optional `#` or `0x` is skipped.
fn hex_body_start(chars: &Vec<char>, start: usize, end: usize) -> (hs: usize)
    requires
        start <= end <= chars@.len(),
        trimmed(chars@) == chars@.subrange(start as int, end as int),
    ensures
        start <= hs <= end,
        hex_body(chars@) == chars@.subrange(hs as int, end as int),
{
    let ghost t = chars@.subrange(start as int, end as int);
    if end - start >= 1 && chars[start] == '#' {
        assert(t.skip(1) =~= chars@.subrange(start + 1, end as int));
        start + 1
    } else if end - start >= 2 && chars[start] == '0' && chars[start + 1] == 'x' {
        assert(t.skip(2) =~= chars@.subrange(start + 2, end as int));
        start + 2
    } else {
        start
    }
}

/// Counts the UTF-8 bytes of `chars[from..to]`, stopping once more than eight
/// are seen, and whether all of them are hexadecimal digits.
fn scan_hex_digits(chars: &Vec<char>, from: usize, to: usize) -> (r: (bool, usize, bool))
    requires
        from <= to <= chars@.len(),
    ensures
        r.0 ==> r.1 == utf8_len(chars@.subrange(from as int, to as int))
            && r.2 == all_hex_digits(chars@.subrange(from as int, to as int)),
        !r.0 ==> utf8_len(chars@.subrange(from as int, to as int)) > 8,
{
    let ghost s = chars@;
    let mut bytes: usize = 0;
    let mut k = from;
    let mut all_hex = true;
    while k < to && bytes <= 8
        invariant
            chars@ == s,
            from <= k <= to <= s.len(),
            bytes == utf8_len(s.subrange(from as int, k as int)),
            all_hex == all_hex_digits(s.subrange(from as int, k as int)),
        decreases to - k,
    {
        let c = chars[k];
        proof {
            assert(s.subrange(from as int, k + 1).drop_last() =~= s.subrange(from as int, k as int));
        }
        bytes = bytes + utf8_width_exec(c);
        let h = is_hex_digit_exec(c);
        proof {
            let p = s.subrange(from as int, k + 1);
            let q = s.subrange(from as int, k as int);
            assert(p.last() == c);
            if all_hex && h {
                assert forall|i: int| 0 <= i < p.len() implies is_hex_digit(#[trigger] p[i]) by {
                    if i < q.len() {
                        assert(p[i] == q[i]);
                    }
                }
            } else if !h {
                assert(!is_hex_digit(p[p.len() - 1]));
            } else {
                let i = choose|i: int| 0 <= i < q.len() && !is_hex_digit(#[trigger] q[i]);
                assert(p[i] == q[i]);
            }
        }
        all_hex = all_hex && h;
        k = k + 1;
    }
    let ghost whole = s.subrange(from as int, to as int);
    proof {
        if k < to {
            lemma_utf8_len_mono(whole, (k - from) as int);
            assert(whole.take((k - from) as int) =~= s.subrange(from as int, k as int));
        } else {
            assert(whole =~= s.subrange(from as int, k as int));
        }
    }
    (k == to, bytes, all_hex)
}

proof fn lemma_utf8_len_mono(s: Seq<char>, k: int)
    requires
        0 <= k <= s.len(),
    ensures
        utf8_len(s.take(k)) <= utf8_len(s),
    decreases s.len() - k,
{
    if k < s.len() {
        lemma_utf8_len_mono(s.drop_last(), k);
        assert(s.drop_last().take(k) =~= s.take(k));
    } else {
        assert(s.take(k) =~= s);
    }
}

proof fn lemma_hex_digit_roundtrip(d: int)
    requires
        0 <= d < 16,
    ensures
        is_hex_digit(hex_digit_upper(d)),
        hex_value(hex_digit_upper(d)) == d,
        !is_unicode_whitespace(hex_digit_upper(d)),
{
}

proof fn lemma_hex_byte_roundtrip(b: u8)
    ensures
        is_hex_digit(hex_byte(b)[0]) && is_hex_digit(hex_byte(b)[1]),
        hex_pair(hex_byte(b), 0) == b as int,
{
    lemma_hex_digit_roundtrip(b as int / 16);
    lemma_hex_digit_roundtrip(b as int % 16);
}

/// Reading back the text that `fmt_hex` writes gives the same colour.
pub proof fn lemma_hex_text_roundtrip(c: HexColor)
    ensures
        parse_hex_spec(hex_text(c)) == Ok::<(int, int, int, int), Seq<char>>(
            (c.red() as int, c.green() as int, c.blue() as int, c.alpha() as int),
        ),
{
    let t = hex_text(c);
    lemma_hex_byte_roundtrip(c.red());
    lemma_hex_byte_roundtrip(c.green());
    lemma_hex_byte_roundtrip(c.blue());
    lemma_hex_byte_roundtrip(c.alpha());
    lemma_hex_digit_roundtrip(c.alpha() as int % 16);
    assert(t.len() == 9);
    assert(trim_start(t) == t);
    assert(t.last() == hex_digit_upper(c.alpha() as int % 16));
    assert(trim_end(t) == t);
    let hex = t.skip(1);
    assert(hex =~= hex_byte(c.red()) + hex_byte(c.green()) + hex_byte(c.blue()) + hex_byte(c.alpha()));
    assert(hex_body(t) == hex);
    assert(all_hex_digits(hex)) by {
        assert forall|i: int| 0 <= i < hex.len() implies is_hex_digit(#[trigger] hex[i]) by {
            if i < 2 {
                assert(hex[i] == hex_byte(c.red())[i]);
            } else if i < 4 {
                assert(hex[i] == hex_byte(c.green())[i - 2]);
            } else if i < 6 {
                assert(hex[i] == hex_byte(c.blue())[i - 4]);
            } else {
                assert(hex[i] == hex_byte(c.alpha())[i - 6]);
            }
        }
    }
    lemma_ascii_utf8_len(hex);
    assert(hex_pair(hex, 0) == hex_pair(hex_byte(c.red()), 0));
    assert(hex_pair(hex, 2) == hex_pair(hex_byte(c.green()), 0));
    assert(hex_pair(hex, 4) == hex_pair(hex_byte(c.blue()), 0));
    assert(hex_pair(hex, 6) == hex_pair(hex_byte(c.alpha()), 0));
}

/// Colour of the hover crosshair.
#[derive(Debug, Clone, Copy, PartialEq, Eq, Structural)]
pub struct CrosshairStyle {
    pub color: HexColor,
}

impl Default for CrosshairStyle {
    fn default() -> (s: CrosshairStyle)
        ensures
            s.color.red() == 200 && s.color.green() == 200 && s.color.blue() == 200
                && s.color.alpha() == 204,
    {
        CrosshairStyle { color: HexColor::from_rgba(200, 200, 200, 204) }
    }
}

/// Limits for image decoding that guard against huge inputs.
#[derive(Debug, Clone, Copy, PartialEq, Eq, Structural)]
pub struct ImageLimits {
    pub image_dim: u32,
    pub total_pixels: u64,
    pub alloc_bytes: u64,
}

pub open spec fn clamp_int(v: int, lo: int, hi: int) -> int {
    if v < lo { lo } else if v > hi { hi } else { v }
}

/// Lowest and highest accepted side length, pixel count and allocation.
pub open spec fn limits_in_bounds(l: ImageLimits) -> bool {
    &&& 64 <= l.image_dim <= 100_000
    &&& 1_000_000 <= l.total_pixels <= 5_000_000_000
    &&& 8 * 1024 * 1024 <= l.alloc_bytes <= 8 * 1024 * 1024 * 1024
}

impl Default for ImageLimits {
    fn default() -> (l: ImageLimits)
        ensures
            l.image_dim == 12_000 && l.total_pixels == 80_000_000 && l.alloc_bytes == 512 * 1024 * 1024,
    {
        ImageLimits { image_dim: 12_000, total_pixels: 80_000_000, alloc_bytes: 512 * 1024 * 1024 }
    }
}

/// The limits as `ImageLimits::sanitized` leaves them.
pub open spec fn sanitized_limits(l: ImageLimits) -> ImageLimits {
    ImageLimits {
        image_dim: clamp_int(l.image_dim as int, 64int, 100_000int) as u32,
        total_pixels: clamp_int(l.total_pixels as int, 1_000_000int, 5_000_000_000int) as u64,
        alloc_bytes: clamp_int(l.alloc_bytes as int, 8 * 1024 * 1024int, 8 * 1024 * 1024 * 1024int) as u64,
    }
}

impl ImageLimits {
    /// Each limit clamped to its operating range: side 64..=100000 px,
    /// 1 MP..=5 GP, 8 MiB..=8 GiB.
    pub fn sanitized(&self) -> (l: ImageLimits)
        ensures
            l == sanitized_limits(*self),
            l.image_dim == clamp_int(self.image_dim as int, 64int, 100_000int),
            l.total_pixels == clamp_int(self.total_pixels as int, 1_000_000int, 5_000_000_000int),
            l.alloc_bytes == clamp_int(
                self.alloc_bytes as int,
                8 * 1024 * 1024int,
                8 * 1024 * 1024 * 1024int,
            ),
    {
        let dim = if self.image_dim < 64 {
            64
        } else if self.image_dim > 100_000 {
            100_000
        } else {
            self.image_dim
        };
        let pixels = if self.total_pixels < 1_000_000 {
            1_000_000
        } else if self.total_pixels > 5_000_000_000 {
            5_000_000_000
        } else {
            self.total_pixels
        };
        let alloc = if self.alloc_bytes < 8 * 1024 * 1024 {
            8 * 1024 * 1024
        } else if self.alloc_bytes > 8 * 1024 * 1024 * 1024 {
            8 * 1024 * 1024 * 1024
        } else {
            self.alloc_bytes
        };
        ImageLimits { image_dim: dim, total_pixels: pixels, alloc_bytes: alloc }
    }
}

/// Sanitised limits lie in the operating ranges, sanitising them again changes
/// nothing, and limits already in range are kept as they are.
pub proof fn lemma_sanitized_limits(l: ImageLimits, s: ImageLimits)
    requires
        s.image_dim == clamp_int(l.image_dim as int, 64int, 100_000int),
        s.total_pixels == clamp_int(l.total_pixels as int, 1_000_000int, 5_000_000_000int),
        s.alloc_bytes == clamp_int(l.alloc_bytes as int, 8 * 1024 * 1024int, 8 * 1024 * 1024 * 1024int),
    ensures
        limits_in_bounds(s),
        clamp_int(s.image_dim as int, 64int, 100_000int) == s.image_dim,
        clamp_int(s.total_pixels as int, 1_000_000int, 5_000_000_000int) == s.total_pixels,
        clamp_int(s.alloc_bytes as int, 8 * 1024 * 1024int, 8 * 1024 * 1024 * 1024int) == s.alloc_bytes,
        limits_in_bounds(l) ==> s == l,
{
}

/// Maximum interpolated sample count from the configuration, clamped to 10..=1000000.
pub fn samples_max_sanitized(samples_max: u32) -> (r: usize)
    ensures
        r == clamp_int(samples_max as int, 10int, 1_000_000int),
{
    let clamped = if samples_max < 10 {
        10
    } else if samples_max > 1_000_000 {
        1_000_000
    } else {
        samples_max
    };
    clamped as usize
}

/// Reference sample count for automatic tuning, clamped to 16..=65536.
pub fn auto_ref_samples_sanitized(auto_ref_samples: u32) -> (r: usize)
    ensures
        r == clamp_int(auto_ref_samples as int, 16int, 65_536int),
{
    let clamped = if auto_ref_samples < 16 {
        16
    } else if auto_ref_samples > 65_536 {
        65_536
    } else {
        auto_ref_samples
    };
    clamped as usize
}

} // verus!
