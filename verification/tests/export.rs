use curcat::export::{
    export_headers,
    clamp_sample_count, export_hint, export_shortcut, sample_count_hint,
    xlsx_sheets, XlsxSheet, metadata_pairs, render_csv, render_html, render_markdown, render_xml, validate_extra_columns,
    ExportFormat, ExtraColumnShape, TabularExport,
};
use curcat::i18n::UiLanguage;
use curcat::kinds::{AngleUnit, AxisUnit, CoordSystem};

fn s(v: &str) -> String {
    v.to_string()
}

#[test]
fn export_markdown_writes_table_and_escapes_special_symbols() {
    let table = TabularExport {
        headers: vec![s("x|\nhead"), s("y\\head"), s("c|d")],
        rows: vec![
            vec![Some(s("1")), Some(s("2")), None],
            vec![Some(s("3")), Some(s("4")), Some(s("5.100000"))],
        ],
    };
    let expected = "| x\\|<br>head | y\\\\head | c\\|d |\n| --- | --- | --- |\n| 1 | 2 |  |\n| 3 | 4 | 5.100000 |\n";
    assert_eq!(render_markdown(&table), expected);
}

#[test]
fn export_xml_contains_metadata_points_and_escaping() {
    let table = TabularExport {
        headers: vec![s("x\"line\nnext"), s("y"), s("<extra&name>")],
        rows: vec![vec![Some(s("1")), Some(s("2")), None]],
    };
    let metadata = metadata_pairs(
        CoordSystem::Cartesian,
        AxisUnit::Float,
        AxisUnit::Float,
        "x\"line\nnext",
        "y",
        None,
    );
    let text = render_xml(&metadata, &table);
    assert!(text.contains("<?xml version=\"1.0\" encoding=\"UTF-8\"?>"));
    assert!(text.contains(
        "<curcat_export coord_system=\"cartesian\" x_unit=\"float\" y_unit=\"float\" x_label=\"x&quot;line&#10;next\" y_label=\"y\">"
    ));
    assert!(text.contains("<points>"));
    assert!(text.contains("<point>"));
    assert!(text.contains("<field name=\"x&quot;line&#10;next\">1</field>"));
    assert!(text.contains("<field name=\"&lt;extra&amp;name&gt;\"/>"));
}

#[test]
fn export_html_contains_doctype_metadata_and_escaping() {
    let table = TabularExport {
        headers: vec![s("x<&\"'>"), s("y"), s("extra<&\"'>")],
        rows: vec![
            vec![Some(s("1")), Some(s("2")), None],
            vec![Some(s("3")), Some(s("4")), Some(s("7.500000"))],
        ],
    };
    let metadata = metadata_pairs(
        CoordSystem::Cartesian,
        AxisUnit::Float,
        AxisUnit::Float,
        "x<&\"'>",
        "y",
        None,
    );
    let text = render_html(&metadata, &table);
    assert!(text.to_ascii_lowercase().contains("<!doctype html>"));
    assert!(text.contains("<dl>"));
    assert!(text.contains("<dt>x_label</dt><dd>x&lt;&amp;&quot;'&gt;</dd>"));
    assert!(text.contains("<th>x&lt;&amp;&quot;'&gt;</th>"));
    assert!(text.contains("<th>extra&lt;&amp;&quot;'&gt;</th>"));
    assert!(text.contains("<td></td>"));
    assert!(text.contains("<td>7.500000</td>"));
}

#[test]
fn csv_quotes_fields_that_need_it() {
    let table = TabularExport {
        headers: vec![s("x"), s("y")],
        rows: vec![vec![Some(s("1")), Some(s("a,b"))], vec![None, Some(s("q\"r"))]],
    };
    let bytes = render_csv(&table).unwrap();
    assert_eq!(String::from_utf8(bytes).unwrap(), "x,y\n1,\"a,b\"\n,\"q\"\"r\"\n");
}

#[test]
fn export_rejects_mismatched_extra_column_lengths() {
    let columns = vec![ExtraColumnShape { header: s("extra"), row_count: 1 }];
    let err = validate_extra_columns(2, &columns).unwrap_err();
    assert!(err.contains("expected 2"));
    assert_eq!(err, "Extra column 'extra' (index 0) has 1 rows, expected 2.");
    assert!(validate_extra_columns(1, &columns).is_ok());
}

#[test]
fn metadata_lists_angle_unit_only_when_set() {
    let without = metadata_pairs(CoordSystem::Polar, AxisUnit::DateTime, AxisUnit::Float, "t", "r", None);
    assert_eq!(without.len(), 5);
    assert_eq!(without[0], ("coord_system", s("polar")));
    assert_eq!(without[1], ("x_unit", s("datetime")));
    let with = metadata_pairs(
        CoordSystem::Polar,
        AxisUnit::Float,
        AxisUnit::Float,
        "t",
        "r",
        Some(AngleUnit::Degrees),
    );
    assert_eq!(with[5], ("angle_unit", s("deg")));
}

#[test]
fn export_formats_name_their_files() {
    for f in [
        ExportFormat::Csv,
        ExportFormat::Xlsx,
        ExportFormat::Json,
        ExportFormat::Ron,
        ExportFormat::Html,
        ExportFormat::Xml,
        ExportFormat::Markdown,
    ] {
        assert_eq!(f.default_filename(), format!("curve.{}", f.extension()));
    }
    assert_eq!(ExportFormat::Xlsx.label(), "Excel");
    assert_eq!(ExportFormat::Markdown.extension(), "md");
}

#[test]
fn xlsx_rows_are_split_across_sheets() {
    let one = xlsx_sheets(0, 1).unwrap();
    assert_eq!(one, vec![XlsxSheet { name: s("Data"), start: 0, end: 0 }]);
    let many = xlsx_sheets(2_097_151, 0).unwrap();
    assert_eq!(
        many,
        vec![
            XlsxSheet { name: s("Data"), start: 0, end: 1_048_575 },
            XlsxSheet { name: s("Data 2"), start: 1_048_575, end: 2_097_150 },
            XlsxSheet { name: s("Data 3"), start: 2_097_150, end: 2_097_151 },
        ]
    );
    assert_eq!(
        xlsx_sheets(10, 16_383).unwrap_err(),
        "XLSX export has 16385 columns, exceeding Excel's 16384 column limit."
    );
    assert_eq!(xlsx_sheets(10, usize::MAX).unwrap_err(), "XLSX export exceeds column index range.");
    assert_eq!(xlsx_sheets(10, 16_382).unwrap().len(), 1);
}

#[test]
fn export_panel_hints_and_sample_counts() {
    assert_eq!(export_shortcut(ExportFormat::Markdown), "Ctrl+Shift+M");
    let ready = export_hint(UiLanguage::En, true, true, CoordSystem::Cartesian, "CSV", "Ctrl+Shift+C");
    assert!(ready.ends_with(" CSV (Ctrl+Shift+C)"));
    let empty = export_hint(UiLanguage::En, false, true, CoordSystem::Cartesian, "CSV", "Ctrl+Shift+C");
    assert!(empty.ends_with(" CSV") && !empty.contains("Ctrl"));
    let polar = export_hint(UiLanguage::Ru, true, false, CoordSystem::Polar, "JSON", "x");
    let cart = export_hint(UiLanguage::Ru, true, false, CoordSystem::Cartesian, "JSON", "x");
    assert_ne!(polar, cart);
    assert_eq!(clamp_sample_count(3, 10_000), 10);
    assert_eq!(clamp_sample_count(50_000, 10_000), 10_000);
    assert_eq!(clamp_sample_count(500, 0), 10);
    assert_eq!(clamp_sample_count(500, 2_000_000), 500);
    assert_eq!(
        sample_count_hint(UiLanguage::En, 10_000),
        "Higher values give a denser interpolated curve (max 10000)"
    );
}

#[test]
fn csv_writes_empty_records_and_line_breaks_in_quotes() {
    let single_empty = TabularExport { headers: vec![s("x")], rows: vec![vec![None]] };
    assert_eq!(String::from_utf8(render_csv(&single_empty).unwrap()).unwrap(), "x\n\"\"\n");
    let two_empty = TabularExport { headers: vec![s("x"), s("y")], rows: vec![vec![None, None]] };
    assert_eq!(String::from_utf8(render_csv(&two_empty).unwrap()).unwrap(), "x,y\n,\n");
    let breaks = TabularExport { headers: vec![s("a\rb"), s("ü\nv")], rows: vec![] };
    assert_eq!(String::from_utf8(render_csv(&breaks).unwrap()).unwrap(), "\"a\rb\",\"ü\nv\"\n");
}

#[test]
fn csv_refuses_rows_of_other_lengths() {
    let table = TabularExport { headers: vec![s("x"), s("y")], rows: vec![vec![Some(s("1"))]] };
    assert_eq!(render_csv(&table), None);
}

#[test]
fn export_headers_list_axes_then_extra_columns() {
    assert_eq!(
        export_headers("X", "Y", &vec![s("a"), s("b")]),
        vec![s("X"), s("Y"), s("a"), s("b")]
    );
    assert_eq!(export_headers("t", "v", &Vec::new()), vec![s("t"), s("v")]);
}
