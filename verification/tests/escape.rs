use curcat::escape::{escape_html_text, escape_markdown_cell, escape_xml_attr, escape_xml_text};

#[test]
fn escapes_only_characters_required_by_each_context() {
    let input = "α<&>\"'\t\r\n|\\конец";
    assert_eq!(escape_xml_text(input), "α&lt;&amp;&gt;\"'\t\r\n|\\конец");
    assert_eq!(
        escape_xml_attr(input),
        "α&lt;&amp;&gt;&quot;&apos;&#9;&#13;&#10;|\\конец"
    );
    assert_eq!(escape_html_text(input), "α&lt;&amp;&gt;&quot;'\t\r\n|\\конец");
    assert_eq!(escape_markdown_cell(input), "α<&>\"'\t<br>\\|\\\\конец");
}

#[test]
fn markdown_normalizes_mixed_line_endings() {
    for (input, expected) in [
        ("\r\n", "<br>"),
        ("\r\r\n\n", "<br><br><br>"),
        ("\n\r", "<br><br>"),
        ("а\rб\nв\r\nг", "а<br>б<br>в<br>г"),
    ] {
        assert_eq!(escape_markdown_cell(input), expected);
    }
}

#[test]
fn preserves_empty_and_unescaped_unicode_text() {
    for input in ["", "123.456", "Ось θ 📈"] {
        for escaped in [
            escape_xml_text(input),
            escape_xml_attr(input),
            escape_html_text(input),
            escape_markdown_cell(input),
        ] {
            assert_eq!(escaped, input);
        }
    }
}

#[test]
fn markup_escapes_leave_no_raw_delimiters() {
    let input = "<a href=\"x\">'b'\n\r\t&</a>";
    let xml = escape_xml_text(input);
    let html = escape_html_text(input);
    let attr = escape_xml_attr(input);
    let md = escape_markdown_cell(input);
    assert!(!xml.contains('<') && !xml.contains('>'));
    assert!(!html.contains('<') && !html.contains('>') && !html.contains('"'));
    for forbidden in ['<', '>', '"', '\'', '\n', '\r', '\t'] {
        assert!(!attr.contains(forbidden));
    }
    assert!(!md.contains('\n') && !md.contains('\r'));
}

#[test]
fn markdown_escapes_pipes_and_backslashes() {
    assert_eq!(escape_markdown_cell("a|b\\c"), "a\\|b\\\\c");
    assert_eq!(escape_markdown_cell("x\r\ny"), "x<br>y");
}
