//! Filtering of the text typed into calibration value fields.

use vstd::prelude::*;
use crate::config::chars_of;
use crate::kinds::AxisUnit;
use crate::text::push_char;

verus! {

/// `char::is_ascii_whitespace`: space, tab, line feed, form feed, carriage return.
pub open spec fn is_ascii_ws_char(ch: char) -> bool {
    ch == ' ' || ch == '\t' || ch == '\n' || ch == '\x0C' || ch == '\r'
}

/// Characters a value of the unit may contain: digits, signs, separators,
/// exponents and the letters of `nan`/`inf` for numbers; digits and date/time
/// separators for dates.
pub open spec fn axis_char_allowed_spec(unit: AxisUnit, ch: char) -> bool {
    match unit {
        AxisUnit::Float => {
            ||| ('0' <= ch && ch <= '9')
            ||| is_ascii_ws_char(ch)
            ||| ch == '+' || ch == '-' || ch == '.' || ch == ','
            ||| ch == 'e' || ch == 'E'
            ||| ch == 'n' || ch == 'N' || ch == 'a' || ch == 'A' || ch == 'i' || ch == 'I' || ch == 'f'
                || ch == 'F'
        },
        AxisUnit::DateTime => {
            ||| ('0' <= ch && ch <= '9')
            ||| ch == '-' || ch == '/' || ch == '.' || ch == ':' || ch == ' ' || ch == 'T' || ch == 't'
                || ch == '+' || ch == 'Z' || ch == 'z'
        },
    }
}

/// A character as it is kept: numbers take `.` for a decimal comma.
pub open spec fn axis_char_mapped(unit: AxisUnit, ch: char) -> char {
    if unit == AxisUnit::Float && ch == ',' { '.' } else { ch }
}

/// The text with decimal commas turned into points (numbers) and every
/// character the unit does not allow removed.
pub open spec fn sanitized_axis(s: Seq<char>, unit: AxisUnit) -> Seq<char>
    decreases s.len(),
{
    if s.len() == 0 {
        Seq::empty()
    } else {
        let c = axis_char_mapped(unit, s.last());
        sanitized_axis(s.drop_last(), unit) + if axis_char_allowed_spec(unit, c) {
            seq![c]
        } else {
            Seq::empty()
        }
    }
}

pub fn axis_char_allowed(unit: AxisUnit, ch: char) -> (r: bool)
    ensures
        r == axis_char_allowed_spec(unit, ch),
{
    match unit {
        AxisUnit::Float => {
            ('0' <= ch && ch <= '9') || (ch == ' ' || ch == '\t' || ch == '\n' || ch == '\x0C' || ch
                == '\r') || ch == '+' || ch == '-' || ch == '.' || ch == ',' || ch == 'e' || ch == 'E'
                || ch == 'n' || ch == 'N' || ch == 'a' || ch == 'A' || ch == 'i' || ch == 'I' || ch
                == 'f' || ch == 'F'
        },
        AxisUnit::DateTime => {
            ('0' <= ch && ch <= '9') || ch == '-' || ch == '/' || ch == '.' || ch == ':' || ch == ' '
                || ch == 'T' || ch == 't' || ch == '+' || ch == 'Z' || ch == 'z'
        },
    }
}

proof fn lemma_sanitized_step(s: Seq<char>, unit: AxisUnit, i: int)
    requires
        0 <= i < s.len(),
    ensures
        sanitized_axis(s.take(i + 1), unit) == sanitized_axis(s.take(i), unit) + if axis_char_allowed_spec(
            unit,
            axis_char_mapped(unit, s[i]),
        ) {
            seq![axis_char_mapped(unit, s[i])]
        } else {
            Seq::empty()
        },
{
    assert(s.take(i + 1).drop_last() =~= s.take(i));
}

/// The filtered form of a text.
pub fn filter_axis_text(text: &str, unit: AxisUnit) -> (r: String)
    ensures
        r@ == sanitized_axis(text@, unit),
{
    let mut out = String::new();
    assert(text@.take(0) =~= Seq::<char>::empty());
    for ch in it: text.chars()
        invariant
            it.seq() == text@,
            it.index() <= text@.len(),
            out@ == sanitized_axis(text@.take(it.index() as int), unit),
    {
        proof {
            lemma_sanitized_step(text@, unit, it.index() as int);
        }
        let mapped = if unit == AxisUnit::Float && ch == ',' { '.' } else { ch };
        if axis_char_allowed(unit, mapped) {
            push_char(&mut out, mapped);
        }
    }
    assert(text@.take(text@.len() as int) =~= text@);
    out
}

/// Normalises typed axis text: decimal commas become points for numbers, and
/// characters the unit does not allow are removed.
pub fn sanitize_axis_text(value: &mut String, unit: AxisUnit)
    ensures
        final(value)@ == sanitized_axis(old(value)@, unit),
{
    if value.as_str().is_empty() {
        assert(old(value)@.len() == 0);
        return;
    }
    let filtered = filter_axis_text(value.as_str(), unit);
    *value = filtered;
}

/// Position in characters where an insertion at `index` lands: at the end
/// when the index is past it.
pub open spec fn clamp_index(len: nat, index: int) -> int {
    if index < len { index } else { len as int }
}

/// `left` followed by `mid` and `right`, as one string.
fn splice_chars(left: &Vec<char>, from: usize, to: usize, mid: &str, right_from: usize) -> (r: String)
    requires
        from <= to <= left@.len(),
        right_from <= left@.len(),
    ensures
        r@ == left@.subrange(from as int, to as int) + mid@ + left@.subrange(
            right_from as int,
            left@.len() as int,
        ),
{
    let mut out = String::new();
    let mut i = from;
    while i < to
        invariant
            from <= i <= to <= left@.len(),
            out@ == left@.subrange(from as int, i as int),
        decreases to - i,
    {
        push_char(&mut out, left[i]);
        i = i + 1;
        assert(out@ =~= left@.subrange(from as int, i as int));
    }
    let ghost head = out@;
    crate::text::push_str(&mut out, mid);
    let mut j = right_from;
    let n = left.len();
    while j < n
        invariant
            right_from <= j <= n,
            n == left@.len(),
            out@ == head + mid@ + left@.subrange(right_from as int, j as int),
        decreases n - j,
    {
        push_char(&mut out, left[j]);
        j = j + 1;
        assert(out@ =~= head + mid@ + left@.subrange(right_from as int, j as int));
    }
    out
}

/// Inserts the allowed characters of `text` (decimal commas as points for
/// numbers) at character `char_index` (at the end when past it), returning
/// how many characters were inserted.
pub fn insert_text(value: &mut String, unit: AxisUnit, text: &str, char_index: usize) -> (n: usize)
    ensures
        n == sanitized_axis(text@, unit).len(),
        final(value)@ == old(value)@.take(clamp_index(old(value)@.len(), char_index as int))
            + sanitized_axis(text@, unit) + old(value)@.skip(
            clamp_index(old(value)@.len(), char_index as int),
        ),
{
    let filtered = filter_axis_text(text, unit);
    let count = filtered.as_str().unicode_len();
    if count == 0 {
        assert(old(value)@ =~= old(value)@.take(clamp_index(old(value)@.len(), char_index as int))
            + sanitized_axis(text@, unit) + old(value)@.skip(
            clamp_index(old(value)@.len(), char_index as int),
        ));
        return 0;
    }
    let chars = chars_of(value.as_str());
    let k = if char_index < chars.len() { char_index } else { chars.len() };
    let joined = splice_chars(&chars, 0, k, filtered.as_str(), k);
    assert(chars@.subrange(0, k as int) =~= old(value)@.take(k as int));
    assert(chars@.subrange(k as int, chars@.len() as int) =~= old(value)@.skip(k as int));
    *value = joined;
    count
}

/// Removes the characters from `start` up to `end` (clamped to the text);
/// nothing when the range is empty.
pub fn delete_char_range(value: &mut String, start: usize, end: usize)
    ensures
        start >= end ==> final(value)@ == old(value)@,
        start < end ==> final(value)@ == old(value)@.take(clamp_index(old(value)@.len(), start as int))
            + old(value)@.skip(clamp_index(old(value)@.len(), end as int)),
{
    if start >= end {
        return;
    }
    let chars = chars_of(value.as_str());
    let a = if start < chars.len() { start } else { chars.len() };
    let b = if end < chars.len() { end } else { chars.len() };
    let joined = splice_chars(&chars, 0, a, "", b);
    proof {
        reveal_strlit("");
    }
    assert(chars@.subrange(0, a as int) =~= old(value)@.take(a as int));
    assert(chars@.subrange(b as int, chars@.len() as int) =~= old(value)@.skip(b as int));
    *value = joined;
}

/// A sanitised text holds only allowed characters, and never a comma when it
/// is a number.
pub proof fn lemma_sanitized_allowed(s: Seq<char>, unit: AxisUnit)
    ensures
        forall|i: int| 0 <= i < sanitized_axis(s, unit).len() ==> axis_char_allowed_spec(
            unit,
            #[trigger] sanitized_axis(s, unit)[i],
        ) && (unit == AxisUnit::Float ==> sanitized_axis(s, unit)[i] != ','),
    decreases s.len(),
{
    if s.len() > 0 {
        lemma_sanitized_allowed(s.drop_last(), unit);
        let prev = sanitized_axis(s.drop_last(), unit);
        assert forall|i: int| 0 <= i < sanitized_axis(s, unit).len() implies axis_char_allowed_spec(
            unit,
            #[trigger] sanitized_axis(s, unit)[i],
        ) && (unit == AxisUnit::Float ==> sanitized_axis(s, unit)[i] != ',') by {
            if i < prev.len() {
                assert(sanitized_axis(s, unit)[i] == prev[i]);
            }
        }
    }
}

/// Sanitising a sanitised text changes nothing.
pub proof fn lemma_sanitize_idempotent(s: Seq<char>, unit: AxisUnit)
    ensures
        sanitized_axis(sanitized_axis(s, unit), unit) == sanitized_axis(s, unit),
    decreases s.len(),
{
    if s.len() > 0 {
        let x = sanitized_axis(s.drop_last(), unit);
        lemma_sanitize_idempotent(s.drop_last(), unit);
        let c = axis_char_mapped(unit, s.last());
        if axis_char_allowed_spec(unit, c) {
            let t = x + seq![c];
            assert(t.drop_last() =~= x);
            assert(t.last() == c);
            assert(axis_char_mapped(unit, c) == c);
        } else {
            assert(sanitized_axis(s, unit) =~= x);
        }
    }
}

/// A character of a decimal number as it is written: a digit, a sign, the
/// decimal point or an exponent mark.
pub open spec fn decimal_literal_char(c: char) -> bool {
    ('0' <= c && c <= '9') || c == '+' || c == '-' || c == '.' || c == 'e' || c == 'E'
}

/// A character of a date and time as it is written: a digit, the date
/// separators `-` and `/`, the time separator `:`, a space or `T` between
/// date and time, the fraction point, and a `Z` or signed offset.
pub open spec fn date_time_char(c: char) -> bool {
    ('0' <= c && c <= '9') || c == '-' || c == '/' || c == ':' || c == ' ' || c == 'T' || c == '.'
        || c == 'Z' || c == '+'
}

proof fn lemma_kept_unchanged(s: Seq<char>, unit: AxisUnit)
    requires
        forall|i: int| 0 <= i < s.len() ==> axis_char_allowed_spec(unit, #[trigger] s[i]) && s[i] != ',',
    ensures
        sanitized_axis(s, unit) == s,
    decreases s.len(),
{
    if s.len() > 0 {
        let t = s.drop_last();
        assert forall|i: int| 0 <= i < t.len() implies axis_char_allowed_spec(unit, #[trigger] t[i]) && t[i] != ',' by {
            assert(t[i] == s[i]);
        }
        lemma_kept_unchanged(t, unit);
        assert(axis_char_allowed_spec(unit, s[s.len() - 1]) && s[s.len() - 1] != ',');
        assert(sanitized_axis(s, unit) =~= s);
    }
}

/// A number written with digits, signs (negative values included), a point
/// and an exponent is kept exactly as typed.
pub proof fn lemma_decimal_literal_kept(s: Seq<char>)
    requires
        forall|i: int| 0 <= i < s.len() ==> #[trigger] decimal_literal_char(s[i]),
    ensures
        sanitized_axis(s, AxisUnit::Float) == s,
{
    assert forall|i: int| 0 <= i < s.len() implies axis_char_allowed_spec(AxisUnit::Float, #[trigger] s[i])
        && s[i] != ',' by {
        assert(decimal_literal_char(s[i]));
    }
    lemma_kept_unchanged(s, AxisUnit::Float);
}

/// A date and time written with digits and the usual separators is kept
/// exactly as typed.
pub proof fn lemma_date_time_kept(s: Seq<char>)
    requires
        forall|i: int| 0 <= i < s.len() ==> #[trigger] date_time_char(s[i]),
    ensures
        sanitized_axis(s, AxisUnit::DateTime) == s,
{
    assert forall|i: int| 0 <= i < s.len() implies axis_char_allowed_spec(AxisUnit::DateTime, #[trigger] s[i])
        && s[i] != ',' by {
        assert(date_time_char(s[i]));
    }
    lemma_kept_unchanged(s, AxisUnit::DateTime);
}

} // verus!
