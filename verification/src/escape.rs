//! Escaping of text for the XML, HTML and Markdown exports.

use vstd::prelude::*;
use crate::text::{push_char, push_str};

verus! {

/// The output context that decides which characters must be replaced.
#[derive(Clone, Copy, PartialEq, Eq, Structural)]
pub enum Context {
    XmlText,
    XmlAttribute,
    HtmlText,
    MarkdownCell,
}

/// The text that stands for `ch` in `ctx`, if the character must be replaced.
pub open spec fn replacement_spec(ctx: Context, ch: char) -> Option<Seq<char>> {
    if ctx == Context::MarkdownCell {
        if ch == '\\' {
            Some("\\\\"@)
        } else if ch == '|' {
            Some("\\|"@)
        } else if ch == '\r' || ch == '\n' {
            Some("<br>"@)
        } else {
            None
        }
    } else if ch == '&' {
        Some("&amp;"@)
    } else if ch == '<' {
        Some("&lt;"@)
    } else if ch == '>' {
        Some("&gt;"@)
    } else if ch == '"' && (ctx == Context::XmlAttribute || ctx == Context::HtmlText) {
        Some("&quot;"@)
    } else if ctx == Context::XmlAttribute && ch == '\'' {
        Some("&apos;"@)
    } else if ctx == Context::XmlAttribute && ch == '\n' {
        Some("&#10;"@)
    } else if ctx == Context::XmlAttribute && ch == '\r' {
        Some("&#13;"@)
    } else if ctx == Context::XmlAttribute && ch == '\t' {
        Some("&#9;"@)
    } else {
        None
    }
}

impl Context {
    /// Replacement text for a character, or `None` when it is written as is.
    pub fn replacement(self, ch: char) -> (r: Option<&'static str>)
        ensures
            r is Some <==> replacement_spec(self, ch) is Some,
            r matches Some(s) ==> replacement_spec(self, ch) == Some(s@),
    {
        match self {
            Context::MarkdownCell => {
                if ch == '\\' {
                    Some("\\\\")
                } else if ch == '|' {
                    Some("\\|")
                } else if ch == '\r' || ch == '\n' {
                    Some("<br>")
                } else {
                    None
                }
            },
            _ => {
                if ch == '&' {
                    Some("&amp;")
                } else if ch == '<' {
                    Some("&lt;")
                } else if ch == '>' {
                    Some("&gt;")
                } else if ch == '"' && (self == Context::XmlAttribute || self == Context::HtmlText) {
                    Some("&quot;")
                } else if self == Context::XmlAttribute && ch == '\'' {
                    Some("&apos;")
                } else if self == Context::XmlAttribute && ch == '\n' {
                    Some("&#10;")
                } else if self == Context::XmlAttribute && ch == '\r' {
                    Some("&#13;")
                } else if self == Context::XmlAttribute && ch == '\t' {
                    Some("&#9;")
                } else {
                    None
                }
            },
        }
    }
}

/// What the character at `i` contributes to the escaped text: its replacement,
/// itself, or nothing for the line feed of a Markdown CRLF pair.
pub open spec fn escaped_piece(ctx: Context, s: Seq<char>, i: int) -> Seq<char> {
    if ctx == Context::MarkdownCell && s[i] == '\n' && i > 0 && s[i - 1] == '\r' {
        Seq::empty()
    } else {
        match replacement_spec(ctx, s[i]) {
            Some(r) => r,
            None => seq![s[i]],
        }
    }
}

/// The escaped form of `s` in context `ctx`.
pub open spec fn escaped(ctx: Context, s: Seq<char>) -> Seq<char>
    decreases s.len(),
{
    if s.len() == 0 {
        Seq::empty()
    } else {
        escaped(ctx, s.drop_last()) + escaped_piece(ctx, s, s.len() - 1)
    }
}

proof fn lemma_piece_prefix(ctx: Context, s: Seq<char>, n: int, i: int)
    requires
        0 <= i < n <= s.len(),
    ensures
        escaped_piece(ctx, s.take(n), i) == escaped_piece(ctx, s, i),
{
}

proof fn lemma_escaped_step(ctx: Context, s: Seq<char>, i: int)
    requires
        0 <= i < s.len(),
    ensures
        escaped(ctx, s.take(i + 1)) == escaped(ctx, s.take(i)) + escaped_piece(ctx, s, i),
{
    assert(s.take(i + 1).drop_last() =~= s.take(i));
    lemma_piece_prefix(ctx, s, i + 1, i);
}

fn escape_with(input: &str, ctx: Context) -> (r: String)
    ensures
        r@ == escaped(ctx, input@),
{
    let mut out = String::new();
    let mut prev: Option<char> = None;
    let ghost s = input@;
    assert(s.take(0) =~= Seq::<char>::empty());
    for ch in it: input.chars()
        invariant
            s == input@,
            it.seq() == s,
            it.index() <= s.len(),
            out@ == escaped(ctx, s.take(it.index() as int)),
            it.index() == 0 ==> prev is None,
            it.index() > 0 ==> prev == Some(s[it.index() - 1]),
    {
        proof {
            lemma_escaped_step(ctx, s, it.index() as int);
        }
        let skip = ctx == Context::MarkdownCell && ch == '\n' && prev == Some('\r');
        if !skip {
            match ctx.replacement(ch) {
                Some(rep) => push_str(&mut out, rep),
                None => push_char(&mut out, ch),
            }
        }
        prev = Some(ch);
    }
    assert(s.take(s.len() as int) =~= s);
    out
}

/// Escapes `&`, `<` and `>` for XML character data.
pub fn escape_xml_text(input: &str) -> (r: String)
    ensures
        r@ == escaped(Context::XmlText, input@),
{
    escape_with(input, Context::XmlText)
}

/// Escapes markup characters, quotes and whitespace controls for XML attributes.
pub fn escape_xml_attr(input: &str) -> (r: String)
    ensures
        r@ == escaped(Context::XmlAttribute, input@),
{
    escape_with(input, Context::XmlAttribute)
}

/// Escapes `&`, `<`, `>` and `"` for HTML text.
pub fn escape_html_text(input: &str) -> (r: String)
    ensures
        r@ == escaped(Context::HtmlText, input@),
{
    escape_with(input, Context::HtmlText)
}

/// Escapes backslashes and pipes and turns each line break (CR, LF or CRLF)
/// into `<br>` for a Markdown table cell.
pub fn escape_markdown_cell(input: &str) -> (r: String)
    ensures
        r@ == escaped(Context::MarkdownCell, input@),
{
    escape_with(input, Context::MarkdownCell)
}

// ---------------------------------------------------------------------------
// What escaping guarantees.

/// Characters that never appear as they are in text escaped for `ctx`: the
/// markup delimiters of XML and HTML (and, in attributes, quotes and the
/// whitespace that attribute normalisation would change), the line breaks
/// that would end a Markdown table row.
pub open spec fn forbidden_raw(ctx: Context, c: char) -> bool {
    match ctx {
        Context::XmlText => c == '<' || c == '>',
        Context::HtmlText => c == '<' || c == '>' || c == '"',
        Context::XmlAttribute => c == '<' || c == '>' || c == '"' || c == '\'' || c == '\n' || c == '\r'
            || c == '\t',
        Context::MarkdownCell => c == '\r' || c == '\n',
    }
}

pub open spec fn free_of_forbidden(ctx: Context, t: Seq<char>) -> bool {
    forall|j: int| 0 <= j < t.len() ==> !forbidden_raw(ctx, #[trigger] t[j])
}

proof fn lemma_piece_clean(ctx: Context, s: Seq<char>, i: int)
    requires
        0 <= i < s.len(),
    ensures
        free_of_forbidden(ctx, escaped_piece(ctx, s, i)),
{
    reveal_strlit("\\\\");
    reveal_strlit("\\|");
    reveal_strlit("<br>");
    reveal_strlit("&amp;");
    reveal_strlit("&lt;");
    reveal_strlit("&gt;");
    reveal_strlit("&quot;");
    reveal_strlit("&apos;");
    reveal_strlit("&#10;");
    reveal_strlit("&#13;");
    reveal_strlit("&#9;");
    let p = escaped_piece(ctx, s, i);
    assert(free_of_forbidden(ctx, p));
}

/// Escaped text holds none of the characters that its context forbids: no
/// raw `<` or `>` in XML or HTML, no raw quote or line break in an XML
/// attribute, no line break in a Markdown table cell.
pub proof fn lemma_escaped_free_of_forbidden(ctx: Context, s: Seq<char>)
    ensures
        free_of_forbidden(ctx, escaped(ctx, s)),
    decreases s.len(),
{
    if s.len() > 0 {
        lemma_escaped_free_of_forbidden(ctx, s.drop_last());
        lemma_piece_clean(ctx, s, s.len() - 1);
        let a = escaped(ctx, s.drop_last());
        let b = escaped_piece(ctx, s, s.len() - 1);
        assert forall|j: int| 0 <= j < (a + b).len() implies !forbidden_raw(ctx, #[trigger] (a + b)[j]) by {
            if j < a.len() {
                assert((a + b)[j] == a[j]);
            } else {
                assert((a + b)[j] == b[j - a.len()]);
            }
        }
    }
}

/// Text in which no character needs replacing is written unchanged.
pub proof fn lemma_escaped_plain_unchanged(ctx: Context, s: Seq<char>)
    requires
        forall|i: int| 0 <= i < s.len() ==> #[trigger] replacement_spec(ctx, s[i]) is None,
    ensures
        escaped(ctx, s) == s,
    decreases s.len(),
{
    if s.len() > 0 {
        let t = s.drop_last();
        assert forall|i: int| 0 <= i < t.len() implies #[trigger] replacement_spec(ctx, t[i]) is None by {
            assert(t[i] == s[i]);
        }
        lemma_escaped_plain_unchanged(ctx, t);
        let k = s.len() - 1;
        assert(replacement_spec(ctx, s[k]) is None);
        if k > 0 {
            assert(replacement_spec(ctx, s[k - 1]) is None);
        }
        assert(escaped_piece(ctx, s, k) == seq![s[k]]);
        assert(escaped(ctx, s) =~= s);
    }
}

// ---------------------------------------------------------------------------
// The escapers as character tables.

/// Each character of `s` written as `f` gives it.
pub open spec fn map_chars(s: Seq<char>, f: spec_fn(char) -> Seq<char>) -> Seq<char>
    decreases s.len(),
{
    if s.len() == 0 {
        Seq::empty()
    } else {
        map_chars(s.drop_last(), f) + f(s.last())
    }
}

/// How XML character data writes one character.
pub open spec fn xml_text_char(c: char) -> Seq<char> {
    if c == '&' {
        "&amp;"@
    } else if c == '<' {
        "&lt;"@
    } else if c == '>' {
        "&gt;"@
    } else {
        seq![c]
    }
}

/// How an XML attribute value writes one character.
pub open spec fn xml_attr_char(c: char) -> Seq<char> {
    if c == '&' {
        "&amp;"@
    } else if c == '<' {
        "&lt;"@
    } else if c == '>' {
        "&gt;"@
    } else if c == '"' {
        "&quot;"@
    } else if c == '\'' {
        "&apos;"@
    } else if c == '\n' {
        "&#10;"@
    } else if c == '\r' {
        "&#13;"@
    } else if c == '\t' {
        "&#9;"@
    } else {
        seq![c]
    }
}

/// How a Markdown cell writes one character of text whose line breaks are
/// all line feeds.
pub open spec fn markdown_char(c: char) -> Seq<char> {
    if c == '\\' {
        "\\\\"@
    } else if c == '|' {
        "\\|"@
    } else if c == '\n' {
        "<br>"@
    } else {
        seq![c]
    }
}

/// `s` with every CR LF pair turned into one LF (the pairs cannot overlap).
pub open spec fn crlf_to_lf(s: Seq<char>) -> Seq<char>
    decreases s.len(),
{
    if s.len() == 0 {
        Seq::empty()
    } else if s.len() >= 2 && s[s.len() - 2] == '\r' && s.last() == '\n' {
        crlf_to_lf(s.take(s.len() - 2)).push('\n')
    } else {
        crlf_to_lf(s.drop_last()).push(s.last())
    }
}

/// Line breaks made uniform: CR LF pairs, then the remaining lone CRs,
/// become LF.
pub open spec fn normalize_line_breaks(s: Seq<char>) -> Seq<char> {
    crlf_to_lf(s).map_values(|c: char| if c == '\r' { '\n' } else { c })
}

proof fn lemma_map_chars_push(t: Seq<char>, c: char, f: spec_fn(char) -> Seq<char>)
    ensures
        map_chars(t.push(c), f) == map_chars(t, f) + f(c),
{
    assert(t.push(c).drop_last() =~= t);
}

proof fn lemma_table_escape(ctx: Context, f: spec_fn(char) -> Seq<char>, s: Seq<char>)
    requires
        ctx != Context::MarkdownCell,
        forall|c: char| #[trigger] f(c) == match replacement_spec(ctx, c) {
            Some(r) => r,
            None => seq![c],
        },
    ensures
        escaped(ctx, s) == map_chars(s, f),
    decreases s.len(),
{
    if s.len() > 0 {
        lemma_table_escape(ctx, f, s.drop_last());
        let _ = f(s.last());
    }
}

proof fn lemma_markdown_escape(s: Seq<char>)
    ensures
        escaped(Context::MarkdownCell, s) == map_chars(
            normalize_line_breaks(s),
            |c: char| markdown_char(c),
        ),
    decreases s.len(),
{
    let ctx = Context::MarkdownCell;
    let f = |c: char| markdown_char(c);
    let cr = |c: char| if c == '\r' { '\n' } else { c };
    let n = s.len() as int;
    if n == 0 {
        assert(normalize_line_breaks(s) =~= Seq::<char>::empty());
    } else if n >= 2 && s[n - 2] == '\r' && s[n - 1] == '\n' {
        let t = s.take(n - 2);
        lemma_markdown_escape(t);
        assert(s.drop_last().drop_last() =~= t);
        assert(s.drop_last() =~= s.take(n - 1));
        lemma_piece_prefix(ctx, s, n - 1, n - 2);
        assert(escaped_piece(ctx, s, n - 1) == Seq::<char>::empty());
        assert(escaped_piece(ctx, s.drop_last(), n - 2) == "<br>"@);
        let u = s.drop_last();
        assert(escaped(ctx, s) == escaped(ctx, u) + escaped_piece(ctx, s, n - 1));
        assert(escaped(ctx, u) == escaped(ctx, u.drop_last()) + escaped_piece(ctx, u, n - 2));
        assert(u.drop_last() == t);
        assert(escaped(ctx, s) =~= escaped(ctx, t) + "<br>"@);
        assert(normalize_line_breaks(s) =~= normalize_line_breaks(t).push('\n'));
        lemma_map_chars_push(normalize_line_breaks(t), '\n', f);
    } else {
        let t = s.drop_last();
        let c = s[n - 1];
        lemma_markdown_escape(t);
        assert(normalize_line_breaks(s) =~= normalize_line_breaks(t).push(cr(c)));
        lemma_map_chars_push(normalize_line_breaks(t), cr(c), f);
        assert(escaped_piece(ctx, s, n - 1) == markdown_char(cr(c)));
    }
}

/// Escaping equals writing the text character by character from each
/// context's table: XML character data replaces `&`, `<`, `>`; an XML
/// attribute also quotes, apostrophes, LF, CR and tab; a Markdown cell first
/// turns CR LF pairs and then lone CRs into LF, and writes backslash, pipe
/// and LF as `\\`, `\|` and `<br>`.
pub proof fn lemma_escapers_follow_char_tables(s: Seq<char>)
    ensures
        escaped(Context::XmlText, s) == map_chars(s, |c: char| xml_text_char(c)),
        escaped(Context::XmlAttribute, s) == map_chars(s, |c: char| xml_attr_char(c)),
        escaped(Context::MarkdownCell, s) == map_chars(
            normalize_line_breaks(s),
            |c: char| markdown_char(c),
        ),
{
    lemma_table_escape(Context::XmlText, |c: char| xml_text_char(c), s);
    lemma_table_escape(Context::XmlAttribute, |c: char| xml_attr_char(c), s);
    lemma_markdown_escape(s);
}

} // verus!
