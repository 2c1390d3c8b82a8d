//! Export formats, their labels, and the XML, HTML and Markdown documents
//! written for a table of formatted values.

use vstd::prelude::*;
use vstd::utf8::encode_utf8;
use crate::escape::{escape_html_text, escape_markdown_cell, escape_xml_attr, escape_xml_text, escaped, Context};
use crate::kinds::{AngleUnit, AxisUnit, CoordSystem, InterpAlgorithm};
use crate::i18n::{text_spec, TextKey, UiLanguage};
use crate::messages::I18n;
use crate::config::samples_max_sanitized;
use crate::text::{concat, decimal, lemma_concat_all, lemma_concat_empty, lemma_concat_step, push_decimal, push_str};

verus! {

/// A file format the points can be exported to.
#[derive(Debug, Clone, Copy, PartialEq, Eq, Structural)]
pub enum ExportFormat {
    Csv,
    Xlsx,
    Json,
    Ron,
    Html,
    Xml,
    Markdown,
}

pub open spec fn format_label_spec(f: ExportFormat) -> Seq<char> {
    match f {
        ExportFormat::Csv => "CSV"@,
        ExportFormat::Xlsx => "Excel"@,
        ExportFormat::Json => "JSON"@,
        ExportFormat::Ron => "RON"@,
        ExportFormat::Html => "HTML"@,
        ExportFormat::Xml => "XML"@,
        ExportFormat::Markdown => "Markdown"@,
    }
}

pub open spec fn format_filename_spec(f: ExportFormat) -> Seq<char> {
    match f {
        ExportFormat::Csv => "curve.csv"@,
        ExportFormat::Xlsx => "curve.xlsx"@,
        ExportFormat::Json => "curve.json"@,
        ExportFormat::Ron => "curve.ron"@,
        ExportFormat::Html => "curve.html"@,
        ExportFormat::Xml => "curve.xml"@,
        ExportFormat::Markdown => "curve.md"@,
    }
}

pub open spec fn format_extension_spec(f: ExportFormat) -> Seq<char> {
    match f {
        ExportFormat::Csv => "csv"@,
        ExportFormat::Xlsx => "xlsx"@,
        ExportFormat::Json => "json"@,
        ExportFormat::Ron => "ron"@,
        ExportFormat::Html => "html"@,
        ExportFormat::Xml => "xml"@,
        ExportFormat::Markdown => "md"@,
    }
}

/// The suggested file name of every format is "curve" with the format's
/// extension.
pub proof fn lemma_default_filename_has_extension(f: ExportFormat)
    ensures
        format_filename_spec(f) == "curve."@ + format_extension_spec(f),
{
    reveal_strlit("curve.");
    match f {
        ExportFormat::Csv => {
            reveal_strlit("curve.csv");
            reveal_strlit("csv");
        },
        ExportFormat::Xlsx => {
            reveal_strlit("curve.xlsx");
            reveal_strlit("xlsx");
        },
        ExportFormat::Json => {
            reveal_strlit("curve.json");
            reveal_strlit("json");
        },
        ExportFormat::Ron => {
            reveal_strlit("curve.ron");
            reveal_strlit("ron");
        },
        ExportFormat::Html => {
            reveal_strlit("curve.html");
            reveal_strlit("html");
        },
        ExportFormat::Xml => {
            reveal_strlit("curve.xml");
            reveal_strlit("xml");
        },
        ExportFormat::Markdown => {
            reveal_strlit("curve.md");
            reveal_strlit("md");
        },
    }
    assert(format_filename_spec(f) =~= "curve."@ + format_extension_spec(f));
}

impl ExportFormat {
    pub fn label(self) -> (r: &'static str)
        ensures
            r@ == format_label_spec(self),
    {
        match self {
            ExportFormat::Csv => "CSV",
            ExportFormat::Xlsx => "Excel",
            ExportFormat::Json => "JSON",
            ExportFormat::Ron => "RON",
            ExportFormat::Html => "HTML",
            ExportFormat::Xml => "XML",
            ExportFormat::Markdown => "Markdown",
        }
    }

    pub fn default_filename(self) -> (r: &'static str)
        ensures
            r@ == format_filename_spec(self),
    {
        match self {
            ExportFormat::Csv => "curve.csv",
            ExportFormat::Xlsx => "curve.xlsx",
            ExportFormat::Json => "curve.json",
            ExportFormat::Ron => "curve.ron",
            ExportFormat::Html => "curve.html",
            ExportFormat::Xml => "curve.xml",
            ExportFormat::Markdown => "curve.md",
        }
    }

    pub fn extension(self) -> (r: &'static str)
        ensures
            r@ == format_extension_spec(self),
    {
        match self {
            ExportFormat::Csv => "csv",
            ExportFormat::Xlsx => "xlsx",
            ExportFormat::Json => "json",
            ExportFormat::Ron => "ron",
            ExportFormat::Html => "html",
            ExportFormat::Xml => "xml",
            ExportFormat::Markdown => "md",
        }
    }
}

/// Whether the interpolated curve or the picked points are exported.
#[derive(Debug, Clone, Copy, PartialEq, Eq, Structural)]
pub enum ExportKind {
    Interpolated,
    RawPoints,
}

/// Smallest number of interpolated samples.
pub const SAMPLE_COUNT_MIN: usize = 10;

/// Export settings chosen in the side panel.
#[derive(Debug, Clone, Copy, PartialEq, Eq, Structural)]
pub struct ExportState {
    pub sample_count: usize,
    pub export_kind: ExportKind,
    pub interp_algorithm: InterpAlgorithm,
    pub raw_include_distances: bool,
    pub raw_include_angles: bool,
    pub polar_export_include_cartesian: bool,
}

impl Default for ExportState {
    /// The settings at start-up: 200 interpolated samples, linear
    /// interpolation, no extra columns.
    fn default() -> (s: ExportState)
        ensures
            s.sample_count == 200,
            s.export_kind == ExportKind::Interpolated,
            s.interp_algorithm == InterpAlgorithm::Linear,
            !s.raw_include_distances,
            !s.raw_include_angles,
            !s.polar_export_include_cartesian,
    {
        ExportState {
            sample_count: 200,
            export_kind: ExportKind::Interpolated,
            interp_algorithm: InterpAlgorithm::Linear,
            raw_include_distances: false,
            raw_include_angles: false,
            polar_export_include_cartesian: false,
        }
    }
}

pub open spec fn axis_unit_name(unit: AxisUnit) -> Seq<char> {
    match unit {
        AxisUnit::Float => "float"@,
        AxisUnit::DateTime => "datetime"@,
    }
}

pub open spec fn coord_system_name(system: CoordSystem) -> Seq<char> {
    match system {
        CoordSystem::Cartesian => "cartesian"@,
        CoordSystem::Polar => "polar"@,
    }
}

pub open spec fn angle_unit_name(unit: AngleUnit) -> Seq<char> {
    match unit {
        AngleUnit::Degrees => "deg"@,
        AngleUnit::Radians => "rad"@,
    }
}

/// Name of an axis unit in exported metadata.
pub fn axis_unit_label(unit: AxisUnit) -> (r: &'static str)
    ensures
        r@ == axis_unit_name(unit),
{
    match unit {
        AxisUnit::Float => "float",
        AxisUnit::DateTime => "datetime",
    }
}

/// Name of a coordinate system in exported metadata.
pub fn coord_system_label(system: CoordSystem) -> (r: &'static str)
    ensures
        r@ == coord_system_name(system),
{
    match system {
        CoordSystem::Cartesian => "cartesian",
        CoordSystem::Polar => "polar",
    }
}

/// Name of an angle unit in exported metadata.
pub fn angle_unit_label(unit: AngleUnit) -> (r: &'static str)
    ensures
        r@ == angle_unit_name(unit),
{
    match unit {
        AngleUnit::Degrees => "deg",
        AngleUnit::Radians => "rad",
    }
}

/// Headers and rows of formatted values; an empty cell is `None`.
#[derive(Debug, Clone)]
pub struct TabularExport {
    pub headers: Vec<String>,
    pub rows: Vec<Vec<Option<String>>>,
}

/// Escaped text of a cell, empty for a missing value.
pub open spec fn cell_text(c: Option<String>, ctx: Context) -> Seq<char> {
    match c {
        Some(s) => escaped(ctx, s@),
        None => Seq::empty(),
    }
}

// -- Markdown ---------------------------------------------------------------

pub open spec fn md_header_piece(h: String) -> Seq<char> {
    " "@ + escaped(Context::MarkdownCell, h@) + " |"@
}

pub open spec fn md_cell_piece(c: Option<String>) -> Seq<char> {
    " "@ + cell_text(c, Context::MarkdownCell) + " |"@
}

pub open spec fn md_row(cells: Seq<Option<String>>) -> Seq<char> {
    "|"@ + concat(Seq::new(cells.len(), |j: int| md_cell_piece(cells[j]))) + "\n"@
}

/// A Markdown table: the escaped headers, a `---` separator per column, then
/// one line per row with its escaped cells.
pub open spec fn markdown_doc(headers: Seq<String>, rows: Seq<Vec<Option<String>>>) -> Seq<char> {
    "|"@ + concat(Seq::new(headers.len(), |i: int| md_header_piece(headers[i]))) + "\n|"@ + concat(
        Seq::new(headers.len(), |i: int| " --- |"@),
    ) + "\n"@ + concat(Seq::new(rows.len(), |i: int| md_row(rows[i]@)))
}

fn render_markdown_row(cells: &Vec<Option<String>>) -> (r: String)
    ensures
        r@ == md_row(cells@),
{
    let ghost pieces = Seq::new(cells@.len(), |j: int| md_cell_piece(cells@[j]));
    let mut out = String::new();
    push_str(&mut out, "|");
    proof {
        lemma_concat_empty(pieces);
    }
    let mut j: usize = 0;
    while j < cells.len()
        invariant
            j <= cells@.len(),
            pieces == Seq::new(cells@.len(), |j: int| md_cell_piece(cells@[j])),
            out@ == "|"@ + concat(pieces.take(j as int)),
        decreases cells.len() - j,
    {
        proof {
            lemma_concat_step(pieces, j as int);
        }
        push_str(&mut out, " ");
        match &cells[j] {
            Some(v) => {
                let e = escape_markdown_cell(v.as_str());
                push_str(&mut out, e.as_str());
            },
            None => {},
        }
        push_str(&mut out, " |");
        j = j + 1;
    }
    proof {
        lemma_concat_all(pieces);
    }
    push_str(&mut out, "\n");
    out
}

/// The Markdown table of the export.
pub fn render_markdown(table: &TabularExport) -> (r: String)
    ensures
        r@ == markdown_doc(table.headers@, table.rows@),
{
    let headers = &table.headers;
    let rows = &table.rows;
    let ghost hp = Seq::new(headers@.len(), |i: int| md_header_piece(headers@[i]));
    let ghost sp = Seq::new(headers@.len(), |i: int| " --- |"@);
    let ghost rp = Seq::new(rows@.len(), |i: int| md_row(rows@[i]@));
    let mut out = String::new();
    push_str(&mut out, "|");
    proof {
        lemma_concat_empty(hp);
    }
    let mut i: usize = 0;
    while i < headers.len()
        invariant
            i <= headers@.len(),
            hp == Seq::new(headers@.len(), |i: int| md_header_piece(headers@[i])),
            out@ == "|"@ + concat(hp.take(i as int)),
        decreases headers.len() - i,
    {
        proof {
            lemma_concat_step(hp, i as int);
        }
        push_str(&mut out, " ");
        let e = escape_markdown_cell(headers[i].as_str());
        push_str(&mut out, e.as_str());
        push_str(&mut out, " |");
        i = i + 1;
    }
    proof {
        lemma_concat_all(hp);
    }
    push_str(&mut out, "\n|");
    let ghost head = out@;
    proof {
        lemma_concat_empty(sp);
    }
    let mut k: usize = 0;
    while k < headers.len()
        invariant
            k <= headers@.len(),
            sp == Seq::new(headers@.len(), |i: int| " --- |"@),
            out@ == head + concat(sp.take(k as int)),
        decreases headers.len() - k,
    {
        proof {
            lemma_concat_step(sp, k as int);
        }
        push_str(&mut out, " --- |");
        k = k + 1;
    }
    proof {
        lemma_concat_all(sp);
    }
    push_str(&mut out, "\n");
    let ghost body = out@;
    proof {
        lemma_concat_empty(rp);
    }
    let mut r: usize = 0;
    while r < rows.len()
        invariant
            r <= rows@.len(),
            rp == Seq::new(rows@.len(), |i: int| md_row(rows@[i]@)),
            out@ == body + concat(rp.take(r as int)),
        decreases rows.len() - r,
    {
        proof {
            lemma_concat_step(rp, r as int);
        }
        let line = render_markdown_row(&rows[r]);
        push_str(&mut out, line.as_str());
        r = r + 1;
    }
    proof {
        lemma_concat_all(rp);
    }
    out
}

// -- Metadata ---------------------------------------------------------------

/// The metadata written before the points: coordinate system, units, labels
/// and, for polar data, the angle unit.
pub open spec fn metadata_spec(
    coord_system: CoordSystem,
    x_unit: AxisUnit,
    y_unit: AxisUnit,
    x_label: Seq<char>,
    y_label: Seq<char>,
    angle_unit: Option<AngleUnit>,
) -> Seq<(Seq<char>, Seq<char>)> {
    let base = seq![
        ("coord_system"@, coord_system_name(coord_system)),
        ("x_unit"@, axis_unit_name(x_unit)),
        ("y_unit"@, axis_unit_name(y_unit)),
        ("x_label"@, x_label),
        ("y_label"@, y_label),
    ];
    match angle_unit {
        Some(u) => base.push(("angle_unit"@, angle_unit_name(u))),
        None => base,
    }
}

/// Names and values of the metadata as plain text.
pub open spec fn metadata_view(m: Seq<(&'static str, String)>) -> Seq<(Seq<char>, Seq<char>)> {
    Seq::new(m.len(), |i: int| (m[i].0@, m[i].1@))
}

fn owned(s: &str) -> (r: String)
    ensures
        r@ == s@,
{
    let mut r = String::new();
    push_str(&mut r, s);
    r
}

pub fn metadata_pairs(
    coord_system: CoordSystem,
    x_unit: AxisUnit,
    y_unit: AxisUnit,
    x_label: &str,
    y_label: &str,
    angle_unit: Option<AngleUnit>,
) -> (r: Vec<(&'static str, String)>)
    ensures
        metadata_view(r@) == metadata_spec(coord_system, x_unit, y_unit, x_label@, y_label@, angle_unit),
{
    let mut pairs: Vec<(&'static str, String)> = Vec::new();
    pairs.push(("coord_system", owned(coord_system_label(coord_system))));
    pairs.push(("x_unit", owned(axis_unit_label(x_unit))));
    pairs.push(("y_unit", owned(axis_unit_label(y_unit))));
    pairs.push(("x_label", owned(x_label)));
    pairs.push(("y_label", owned(y_label)));
    match angle_unit {
        Some(unit) => pairs.push(("angle_unit", owned(angle_unit_label(unit)))),
        None => {},
    }
    assert(metadata_view(pairs@) =~= metadata_spec(
        coord_system,
        x_unit,
        y_unit,
        x_label@,
        y_label@,
        angle_unit,
    ));
    pairs
}

// -- XML --------------------------------------------------------------------

pub open spec fn xml_attr_piece(m: (Seq<char>, Seq<char>)) -> Seq<char> {
    " "@ + escaped(Context::XmlAttribute, m.0) + "=\""@ + escaped(Context::XmlAttribute, m.1) + "\""@
}

pub open spec fn xml_field(header: String, cell: Option<String>) -> Seq<char> {
    match cell {
        Some(v) => "      <field name=\""@ + escaped(Context::XmlAttribute, header@) + "\">"@ + escaped(
            Context::XmlText,
            v@,
        ) + "</field>\n"@,
        None => "      <field name=\""@ + escaped(Context::XmlAttribute, header@) + "\"/>\n"@,
    }
}

pub open spec fn min_len(a: nat, b: nat) -> nat {
    if a <= b { a } else { b }
}

/// A `<point>` element with one field per header that has a cell.
pub open spec fn xml_point(headers: Seq<String>, cells: Seq<Option<String>>) -> Seq<char> {
    "    <point>\n"@ + concat(
        Seq::new(min_len(headers.len(), cells.len()), |j: int| xml_field(headers[j], cells[j])),
    ) + "    </point>\n"@
}

/// Every `<point>` element is closed: a point opens with `<point>` on its
/// own line and ends with the matching `</point>` line, whatever its fields.
pub proof fn lemma_xml_point_closed(headers: Seq<String>, cells: Seq<Option<String>>)
    ensures
        exists|fields: Seq<char>| xml_point(headers, cells) == "    <point>\n"@ + fields + "    </point>\n"@,
{
    let fields = concat(
        Seq::new(min_len(headers.len(), cells.len()), |j: int| xml_field(headers[j], cells[j])),
    );
    assert(xml_point(headers, cells) == "    <point>\n"@ + fields + "    </point>\n"@);
}

/// The XML document: declaration, a root element carrying the metadata as
/// attributes, and a `<points>` element with one `<point>` per row.
pub open spec fn xml_doc(
    metadata: Seq<(Seq<char>, Seq<char>)>,
    headers: Seq<String>,
    rows: Seq<Vec<Option<String>>>,
) -> Seq<char> {
    "<?xml version=\"1.0\" encoding=\"UTF-8\"?>\n<curcat_export"@ + concat(
        Seq::new(metadata.len(), |i: int| xml_attr_piece(metadata[i])),
    ) + ">\n  <points>\n"@ + concat(Seq::new(rows.len(), |i: int| xml_point(headers, rows[i]@)))
        + "  </points>\n</curcat_export>\n"@
}

fn render_xml_point(headers: &Vec<String>, cells: &Vec<Option<String>>) -> (r: String)
    ensures
        r@ == xml_point(headers@, cells@),
{
    let n = if headers.len() <= cells.len() { headers.len() } else { cells.len() };
    let ghost pieces = Seq::new(n as nat, |j: int| xml_field(headers@[j], cells@[j]));
    let mut out = String::new();
    push_str(&mut out, "    <point>\n");
    proof {
        lemma_concat_empty(pieces);
    }
    let mut j: usize = 0;
    while j < n
        invariant
            j <= n,
            n == min_len(headers@.len(), cells@.len()),
            pieces == Seq::new(n as nat, |j: int| xml_field(headers@[j], cells@[j])),
            out@ == "    <point>\n"@ + concat(pieces.take(j as int)),
        decreases n - j,
    {
        proof {
            lemma_concat_step(pieces, j as int);
        }
        let name = escape_xml_attr(headers[j].as_str());
        push_str(&mut out, "      <field name=\"");
        push_str(&mut out, name.as_str());
        match &cells[j] {
            Some(v) => {
                let value = escape_xml_text(v.as_str());
                push_str(&mut out, "\">");
                push_str(&mut out, value.as_str());
                push_str(&mut out, "</field>\n");
            },
            None => {
                push_str(&mut out, "\"/>\n");
            },
        }
        j = j + 1;
    }
    proof {
        lemma_concat_all(pieces);
    }
    push_str(&mut out, "    </point>\n");
    out
}

/// The XML document of the export.
pub fn render_xml(metadata: &Vec<(&'static str, String)>, table: &TabularExport) -> (r: String)
    ensures
        r@ == xml_doc(metadata_view(metadata@), table.headers@, table.rows@),
{
    let ghost mv = metadata_view(metadata@);
    let ghost mp = Seq::new(mv.len(), |i: int| xml_attr_piece(mv[i]));
    let ghost rp = Seq::new(table.rows@.len(), |i: int| xml_point(table.headers@, table.rows@[i]@));
    let mut out = String::new();
    push_str(&mut out, "<?xml version=\"1.0\" encoding=\"UTF-8\"?>\n<curcat_export");
    let ghost head = out@;
    proof {
        lemma_concat_empty(mp);
    }
    let mut i: usize = 0;
    while i < metadata.len()
        invariant
            i <= metadata@.len(),
            mv == metadata_view(metadata@),
            mp == Seq::new(mv.len(), |i: int| xml_attr_piece(mv[i])),
            out@ == head + concat(mp.take(i as int)),
        decreases metadata.len() - i,
    {
        proof {
            lemma_concat_step(mp, i as int);
        }
        let name = escape_xml_attr(metadata[i].0);
        let value = escape_xml_attr(metadata[i].1.as_str());
        push_str(&mut out, " ");
        push_str(&mut out, name.as_str());
        push_str(&mut out, "=\"");
        push_str(&mut out, value.as_str());
        push_str(&mut out, "\"");
        i = i + 1;
    }
    proof {
        lemma_concat_all(mp);
    }
    push_str(&mut out, ">\n  <points>\n");
    let ghost body = out@;
    proof {
        lemma_concat_empty(rp);
    }
    let mut r: usize = 0;
    while r < table.rows.len()
        invariant
            r <= table.rows@.len(),
            rp == Seq::new(table.rows@.len(), |i: int| xml_point(table.headers@, table.rows@[i]@)),
            out@ == body + concat(rp.take(r as int)),
        decreases table.rows.len() - r,
    {
        proof {
            lemma_concat_step(rp, r as int);
        }
        let point = render_xml_point(&table.headers, &table.rows[r]);
        push_str(&mut out, point.as_str());
        r = r + 1;
    }
    proof {
        lemma_concat_all(rp);
    }
    push_str(&mut out, "  </points>\n</curcat_export>\n");
    out
}

// -- HTML -------------------------------------------------------------------

pub open spec fn html_meta_piece(m: (Seq<char>, Seq<char>)) -> Seq<char> {
    "<dt>"@ + escaped(Context::HtmlText, m.0) + "</dt><dd>"@ + escaped(Context::HtmlText, m.1) + "</dd>"@
}

pub open spec fn html_head_piece(h: String) -> Seq<char> {
    "<th>"@ + escaped(Context::HtmlText, h@) + "</th>"@
}

pub open spec fn html_cell_piece(c: Option<String>) -> Seq<char> {
    "<td>"@ + cell_text(c, Context::HtmlText) + "</td>"@
}

pub open spec fn html_row(cells: Seq<Option<String>>) -> Seq<char> {
    "<tr>"@ + concat(Seq::new(cells.len(), |j: int| html_cell_piece(cells[j]))) + "</tr>"@
}

/// Every table row is closed: a row is `<tr>`, its cells, then `</tr>`,
/// whatever the cells.
pub proof fn lemma_html_row_closed(cells: Seq<Option<String>>)
    ensures
        exists|body: Seq<char>| html_row(cells) == "<tr>"@ + body + "</tr>"@,
{
    let body = concat(Seq::new(cells.len(), |j: int| html_cell_piece(cells[j])));
    assert(html_row(cells) == "<tr>"@ + body + "</tr>"@);
}

/// The HTML document: a title, the metadata as a definition list, and the
/// table with escaped headers and cells.
pub open spec fn html_doc(
    metadata: Seq<(Seq<char>, Seq<char>)>,
    headers: Seq<String>,
    rows: Seq<Vec<Option<String>>>,
) -> Seq<char> {
    "<!DOCTYPE html><html lang=\"en\"><head><meta charset=\"utf-8\"><title>Curcat export</title></head><body><h1>Curcat export</h1><dl>"@
        + concat(Seq::new(metadata.len(), |i: int| html_meta_piece(metadata[i])))
        + "</dl><table><thead><tr>"@ + concat(Seq::new(headers.len(), |i: int| html_head_piece(headers[i])))
        + "</tr></thead><tbody>"@ + concat(Seq::new(rows.len(), |i: int| html_row(rows[i]@)))
        + "</tbody></table></body></html>"@
}

fn render_html_row(cells: &Vec<Option<String>>) -> (r: String)
    ensures
        r@ == html_row(cells@),
{
    let ghost pieces = Seq::new(cells@.len(), |j: int| html_cell_piece(cells@[j]));
    let mut out = String::new();
    push_str(&mut out, "<tr>");
    proof {
        lemma_concat_empty(pieces);
    }
    let mut j: usize = 0;
    while j < cells.len()
        invariant
            j <= cells@.len(),
            pieces == Seq::new(cells@.len(), |j: int| html_cell_piece(cells@[j])),
            out@ == "<tr>"@ + concat(pieces.take(j as int)),
        decreases cells.len() - j,
    {
        proof {
            lemma_concat_step(pieces, j as int);
        }
        push_str(&mut out, "<td>");
        match &cells[j] {
            Some(v) => {
                let e = escape_html_text(v.as_str());
                push_str(&mut out, e.as_str());
            },
            None => {},
        }
        push_str(&mut out, "</td>");
        j = j + 1;
    }
    proof {
        lemma_concat_all(pieces);
    }
    push_str(&mut out, "</tr>");
    out
}

/// The HTML document of the export.
pub fn render_html(metadata: &Vec<(&'static str, String)>, table: &TabularExport) -> (r: String)
    ensures
        r@ == html_doc(metadata_view(metadata@), table.headers@, table.rows@),
{
    let ghost mv = metadata_view(metadata@);
    let ghost mp = Seq::new(mv.len(), |i: int| html_meta_piece(mv[i]));
    let ghost hp = Seq::new(table.headers@.len(), |i: int| html_head_piece(table.headers@[i]));
    let ghost rp = Seq::new(table.rows@.len(), |i: int| html_row(table.rows@[i]@));
    let mut out = String::new();
    push_str(
        &mut out,
        "<!DOCTYPE html><html lang=\"en\"><head><meta charset=\"utf-8\"><title>Curcat export</title></head><body><h1>Curcat export</h1><dl>",
    );
    let ghost start = out@;
    proof {
        lemma_concat_empty(mp);
    }
    let mut i: usize = 0;
    while i < metadata.len()
        invariant
            i <= metadata@.len(),
            mv == metadata_view(metadata@),
            mp == Seq::new(mv.len(), |i: int| html_meta_piece(mv[i])),
            out@ == start + concat(mp.take(i as int)),
        decreases metadata.len() - i,
    {
        proof {
            lemma_concat_step(mp, i as int);
        }
        let name = escape_html_text(metadata[i].0);
        let value = escape_html_text(metadata[i].1.as_str());
        push_str(&mut out, "<dt>");
        push_str(&mut out, name.as_str());
        push_str(&mut out, "</dt><dd>");
        push_str(&mut out, value.as_str());
        push_str(&mut out, "</dd>");
        i = i + 1;
    }
    proof {
        lemma_concat_all(mp);
    }
    push_str(&mut out, "</dl><table><thead><tr>");
    let ghost mid = out@;
    proof {
        lemma_concat_empty(hp);
    }
    let mut k: usize = 0;
    while k < table.headers.len()
        invariant
            k <= table.headers@.len(),
            hp == Seq::new(table.headers@.len(), |i: int| html_head_piece(table.headers@[i])),
            out@ == mid + concat(hp.take(k as int)),
        decreases table.headers.len() - k,
    {
        proof {
            lemma_concat_step(hp, k as int);
        }
        let e = escape_html_text(table.headers[k].as_str());
        push_str(&mut out, "<th>");
        push_str(&mut out, e.as_str());
        push_str(&mut out, "</th>");
        k = k + 1;
    }
    proof {
        lemma_concat_all(hp);
    }
    push_str(&mut out, "</tr></thead><tbody>");
    let ghost body = out@;
    proof {
        lemma_concat_empty(rp);
    }
    let mut r: usize = 0;
    while r < table.rows.len()
        invariant
            r <= table.rows@.len(),
            rp == Seq::new(table.rows@.len(), |i: int| html_row(table.rows@[i]@)),
            out@ == body + concat(rp.take(r as int)),
        decreases table.rows.len() - r,
    {
        proof {
            lemma_concat_step(rp, r as int);
        }
        let row = render_html_row(&table.rows[r]);
        push_str(&mut out, row.as_str());
        r = r + 1;
    }
    proof {
        lemma_concat_all(rp);
    }
    push_str(&mut out, "</tbody></table></body></html>");
    out
}

// -- Extra columns ----------------------------------------------------------

/// Header and length of an extra export column.
#[derive(Debug, Clone)]
pub struct ExtraColumnShape {
    pub header: String,
    pub row_count: usize,
}

/// Message for an extra column whose length differs from the point count.
pub open spec fn column_mismatch_message(header: Seq<char>, index: nat, len: nat, expected: nat) -> Seq<char> {
    "Extra column '"@ + header + "' (index "@ + decimal(index) + ") has "@ + decimal(len) + " rows, expected "@
        + decimal(expected) + "."@
}

/// Checks that every extra column has one value per exported point; the
/// first column that does not is named in the error.
pub fn validate_extra_columns(expected_rows: usize, columns: &Vec<ExtraColumnShape>) -> (r: Result<(), String>)
    ensures
        r is Ok <==> forall|i: int| 0 <= i < columns@.len() ==> #[trigger] columns@[i].row_count == expected_rows,
        r matches Err(msg) ==> exists|i: int|
            0 <= i < columns@.len() && columns@[i].row_count != expected_rows && (forall|j: int|
                0 <= j < i ==> #[trigger] columns@[j].row_count == expected_rows) && msg@
                == column_mismatch_message(
                #[trigger] columns@[i].header@,
                i as nat,
                columns@[i].row_count as nat,
                expected_rows as nat,
            ),
{
    let mut i: usize = 0;
    while i < columns.len()
        invariant
            i <= columns@.len(),
            forall|j: int| 0 <= j < i ==> #[trigger] columns@[j].row_count == expected_rows,
        decreases columns.len() - i,
    {
        if columns[i].row_count != expected_rows {
            let mut msg = String::new();
            push_str(&mut msg, "Extra column '");
            push_str(&mut msg, columns[i].header.as_str());
            push_str(&mut msg, "' (index ");
            push_decimal(&mut msg, i as u64);
            push_str(&mut msg, ") has ");
            push_decimal(&mut msg, columns[i].row_count as u64);
            push_str(&mut msg, " rows, expected ");
            push_decimal(&mut msg, expected_rows as u64);
            push_str(&mut msg, ".");
            return Err(msg);
        }
        i = i + 1;
    }
    Ok(())
}

// -- CSV --------------------------------------------------------------------

/// A field must be quoted when it holds a comma, a quote, CR or LF.
pub open spec fn csv_needs_quotes(f: Seq<char>) -> bool {
    exists|i: int| 0 <= i < f.len() && (f[i] == ',' || f[i] == '"' || f[i] == '\r' || f[i] == '\n')
}

/// The field with each quote doubled.
pub open spec fn csv_double_quotes(f: Seq<char>) -> Seq<char>
    decreases f.len(),
{
    if f.len() == 0 {
        Seq::empty()
    } else {
        csv_double_quotes(f.drop_last()) + if f.last() == '"' {
            seq!['"', '"']
        } else {
            seq![f.last()]
        }
    }
}

/// How one field is written: as it is, or in quotes with its quotes doubled.
pub open spec fn csv_field_text(f: Seq<char>) -> Seq<char> {
    if csv_needs_quotes(f) {
        seq!['"'] + csv_double_quotes(f) + seq!['"']
    } else {
        f
    }
}

/// The fields of a record joined by commas.
pub open spec fn csv_join(fields: Seq<Seq<char>>) -> Seq<char>
    decreases fields.len(),
{
    if fields.len() == 0 {
        Seq::empty()
    } else if fields.len() == 1 {
        csv_field_text(fields[0])
    } else {
        csv_join(fields.drop_last()) + seq![','] + csv_field_text(fields.last())
    }
}

/// One record and its line feed; a record that would write nothing (no
/// fields, or a single empty one) is written as `""`.
pub open spec fn csv_line(fields: Seq<Seq<char>>) -> Seq<char> {
    let body = csv_join(fields);
    (if body.len() == 0 {
        seq!['"', '"']
    } else {
        body
    }) + seq!['\n']
}

/// The records, one line each.
pub open spec fn csv_text(records: Seq<Seq<Seq<char>>>) -> Seq<char>
    decreases records.len(),
{
    if records.len() == 0 {
        Seq::empty()
    } else {
        csv_text(records.drop_last()) + csv_line(records.last())
    }
}

/// Every record has as many fields as the first.
pub open spec fn csv_lengths_agree(records: Seq<Seq<Seq<char>>>) -> bool {
    forall|i: int| 0 <= i < records.len() ==> #[trigger] records[i].len() == records[0].len()
}

/// What a `csv::Writer` with default settings writes for these records: the
/// UTF-8 bytes of their lines, or nothing when a record's length differs
/// from the first one's.
pub open spec fn csv_encoding(records: Seq<Seq<Seq<char>>>) -> Option<Seq<u8>> {
    if csv_lengths_agree(records) {
        Some(encode_utf8(csv_text(records)))
    } else {
        None
    }
}

/// The text of each field of each record.
pub open spec fn records_view(records: Seq<Vec<String>>) -> Seq<Seq<Seq<char>>> {
    records.map_values(|r: Vec<String>| r@.map_values(|f: String| f@))
}

/// Writes the records with a `csv::Writer` over a byte buffer (`from_writer`,
/// `write_record` for each, `into_inner`). With the default settings the
/// writer quotes only fields holding a delimiter, quote, CR or LF, doubles the
/// quotes inside, separates fields by commas, ends each record with LF, writes
/// `""` for a record that would otherwise be empty, and refuses a record
/// whose length differs from the first record's (`UnequalLengths`); writing
/// into a `Vec` cannot fail otherwise.
#[verifier::external_body]
fn csv_encode(records: &Vec<Vec<String>>) -> (r: Option<Vec<u8>>)
    ensures
        match r {
            Some(b) => csv_encoding(records_view(records@)) == Some(b@),
            None => csv_encoding(records_view(records@)) is None,
        },
{
    let mut writer = csv::Writer::from_writer(Vec::new());
    for record in records {
        if writer.write_record(record).is_err() {
            return None;
        }
    }
    writer.into_inner().ok()
}

/// The column headers of an export: the x label, the y label, then the
/// header of each extra column.
pub fn export_headers(x_label: &str, y_label: &str, extra: &Vec<String>) -> (r: Vec<String>)
    ensures
        r@.map_values(|h: String| h@) == seq![x_label@, y_label@] + extra@.map_values(|h: String| h@),
{
    let mut headers: Vec<String> = Vec::new();
    headers.push(x_label.to_string());
    headers.push(y_label.to_string());
    let mut i: usize = 0;
    while i < extra.len()
        invariant
            i <= extra@.len(),
            headers@.len() == i + 2,
            headers@[0]@ == x_label@,
            headers@[1]@ == y_label@,
            forall|m: int| 0 <= m < i ==> (#[trigger] headers@[m + 2])@ == extra@[m]@,
        decreases extra.len() - i,
    {
        headers.push(extra[i].clone());
        i = i + 1;
    }
    let ghost lhs = headers@.map_values(|h: String| h@);
    let ghost rhs = seq![x_label@, y_label@] + extra@.map_values(|h: String| h@);
    assert forall|j: int| 0 <= j < lhs.len() implies lhs[j] == rhs[j] by {
        if j >= 2 {
            assert(headers@[(j - 2) + 2]@ == extra@[j - 2]@);
        }
    }
    assert(lhs =~= rhs);
    headers
}

/// Text of a CSV field: the value, or nothing for a missing one.
pub open spec fn csv_field(c: Option<String>) -> Seq<char> {
    match c {
        Some(s) => s@,
        None => Seq::empty(),
    }
}

/// The records of the CSV file: the headers, then each row.
pub open spec fn csv_records(headers: Seq<String>, rows: Seq<Vec<Option<String>>>) -> Seq<Seq<Seq<char>>> {
    seq![headers.map_values(|h: String| h@)] + rows.map_values(
        |row: Vec<Option<String>>| row@.map_values(|c: Option<String>| csv_field(c)),
    )
}

fn csv_row(cells: &Vec<Option<String>>) -> (r: Vec<String>)
    ensures
        r@.map_values(|f: String| f@) == cells@.map_values(|c: Option<String>| csv_field(c)),
{
    let mut out: Vec<String> = Vec::new();
    let mut j: usize = 0;
    while j < cells.len()
        invariant
            j <= cells@.len(),
            out@.len() == j,
            forall|m: int| 0 <= m < j ==> (#[trigger] out@[m])@ == csv_field(cells@[m]),
        decreases cells.len() - j,
    {
        let field = match &cells[j] {
            Some(v) => v.clone(),
            None => String::new(),
        };
        out.push(field);
        j = j + 1;
    }
    assert(out@.map_values(|f: String| f@) =~= cells@.map_values(|c: Option<String>| csv_field(c)));
    out
}

/// The CSV file of the export: the headers, then each row with missing
/// values left empty.
pub fn render_csv(table: &TabularExport) -> (r: Option<Vec<u8>>)
    ensures
        match r {
            Some(b) => csv_encoding(csv_records(table.headers@, table.rows@)) == Some(b@),
            None => csv_encoding(csv_records(table.headers@, table.rows@)) is None,
        },
{
    let mut records: Vec<Vec<String>> = Vec::new();
    let mut header: Vec<String> = Vec::new();
    let mut i: usize = 0;
    while i < table.headers.len()
        invariant
            i <= table.headers@.len(),
            header@.len() == i,
            forall|m: int| 0 <= m < i ==> (#[trigger] header@[m])@ == table.headers@[m]@,
        decreases table.headers.len() - i,
    {
        header.push(table.headers[i].clone());
        i = i + 1;
    }
    let ghost want = csv_records(table.headers@, table.rows@);
    assert(header@.map_values(|f: String| f@) =~= want[0]);
    records.push(header);
    let mut k: usize = 0;
    while k < table.rows.len()
        invariant
            k <= table.rows@.len(),
            want == csv_records(table.headers@, table.rows@),
            records@.len() == k + 1,
            forall|m: int| 0 <= m <= k ==> (#[trigger] records@[m])@.map_values(|f: String| f@) == want[m],
        decreases table.rows.len() - k,
    {
        let row = csv_row(&table.rows[k]);
        assert(row@.map_values(|f: String| f@) == want[k + 1]);
        records.push(row);
        k = k + 1;
    }
    assert(records_view(records@) =~= want);
    csv_encode(&records)
}

// -- XLSX sheets -------------------------------------------------------------

/// Rows of an Excel worksheet.
pub const XLSX_MAX_ROWS: u32 = 1_048_576;
/// Columns of an Excel worksheet.
pub const XLSX_MAX_COLS: u16 = 16_384;
/// Data rows per worksheet: all rows but the header.
pub const XLSX_ROWS_PER_SHEET: usize = 1_048_575;

/// A worksheet of the workbook and the data rows `start..end` it holds.
#[derive(Debug, Clone, PartialEq, Eq)]
pub struct XlsxSheet {
    pub name: String,
    pub start: usize,
    pub end: usize,
}

/// Name of worksheet `i`: "Data", then "Data 2", "Data 3", ...
pub open spec fn sheet_name(i: nat) -> Seq<char> {
    if i == 0 {
        "Data"@
    } else {
        "Data "@ + decimal(i + 1)
    }
}

/// Number of worksheets for `rows` data rows: one even when there are none.
pub open spec fn sheet_count(rows: nat) -> nat {
    if rows == 0 {
        1
    } else {
        ((rows + XLSX_ROWS_PER_SHEET - 1) / (XLSX_ROWS_PER_SHEET as int)) as nat
    }
}

pub open spec fn xlsx_columns_message(total: nat) -> Seq<char> {
    "XLSX export has "@ + decimal(total) + " columns, exceeding Excel's 16384 column limit."@
}

/// The worksheets for `total_rows` points and `extra_columns` extra columns
/// (plus the x and y columns): an error when the columns do not fit a sheet;
/// otherwise consecutive sheets of at most `XLSX_ROWS_PER_SHEET` rows that
/// together hold every row once, in order.
pub fn xlsx_sheets(total_rows: usize, extra_columns: usize) -> (r: Result<Vec<XlsxSheet>, String>)
    ensures
        extra_columns + 2 > u16::MAX ==> (r matches Err(m) && m@ == "XLSX export exceeds column index range."@),
        extra_columns + 2 <= u16::MAX && extra_columns + 2 > XLSX_MAX_COLS ==> (r matches Err(m) && m@
            == xlsx_columns_message((extra_columns + 2) as nat)),
        extra_columns + 2 <= XLSX_MAX_COLS ==> (r matches Ok(sheets) && {
            &&& sheets@.len() == sheet_count(total_rows as nat)
            &&& forall|i: int|
                0 <= i < sheets@.len() ==> {
                    &&& (#[trigger] sheets@[i]).start == i * XLSX_ROWS_PER_SHEET
                    &&& sheets@[i].end == if (i + 1) * XLSX_ROWS_PER_SHEET <= total_rows {
                        (i + 1) * XLSX_ROWS_PER_SHEET
                    } else {
                        total_rows as int
                    }
                    &&& sheets@[i].name@ == sheet_name(i as nat)
                }
        }),
{
    let total_columns = if extra_columns > usize::MAX - 2 { usize::MAX } else { extra_columns + 2 };
    if total_columns > u16::MAX as usize {
        let mut m = String::new();
        push_str(&mut m, "XLSX export exceeds column index range.");
        return Err(m);
    }
    if total_columns > XLSX_MAX_COLS as usize {
        let mut m = String::new();
        push_str(&mut m, "XLSX export has ");
        push_decimal(&mut m, total_columns as u64);
        push_str(&mut m, " columns, exceeding Excel's 16384 column limit.");
        return Err(m);
    }
    let per = XLSX_ROWS_PER_SHEET;
    let count = if total_rows == 0 {
        1
    } else {
        total_rows / per + if total_rows % per == 0 { 0 } else { 1 }
    };
    assert(count == sheet_count(total_rows as nat)) by {
        if total_rows > 0 {
            lemma_ceil_div(total_rows as int, per as int);
        }
    }
    let mut sheets: Vec<XlsxSheet> = Vec::new();
    let mut i: usize = 0;
    while i < count
        invariant
            per == XLSX_ROWS_PER_SHEET,
            count == sheet_count(total_rows as nat),
            count <= total_rows / per + 1,
            i <= count,
            sheets@.len() == i,
            forall|k: int|
                0 <= k < i ==> {
                    &&& (#[trigger] sheets@[k]).start == k * XLSX_ROWS_PER_SHEET
                    &&& sheets@[k].end == if (k + 1) * XLSX_ROWS_PER_SHEET <= total_rows {
                        (k + 1) * XLSX_ROWS_PER_SHEET
                    } else {
                        total_rows as int
                    }
                    &&& sheets@[k].name@ == sheet_name(k as nat)
                },
        decreases count - i,
    {
        assert(i * per <= total_rows) by (nonlinear_arith)
            requires
                i < count,
                count <= total_rows / per + 1,
                per > 0,
        ;
        let start = i * per;
        let end = if total_rows - start >= per { start + per } else { total_rows };
        let mut name = String::new();
        push_str(&mut name, "Data");
        if i > 0 {
            push_str(&mut name, " ");
            push_decimal(&mut name, (i + 1) as u64);
        }
        proof {
            reveal_strlit("Data");
            reveal_strlit("Data ");
            reveal_strlit(" ");
            assert(name@ =~= sheet_name(i as nat));
            assert((i + 1) * per == start + per) by (nonlinear_arith)
                requires
                    start == i * per,
            ;
        }
        sheets.push(XlsxSheet { name, start, end });
        i = i + 1;
    }
    Ok(sheets)
}

proof fn lemma_ceil_div(n: int, d: int)
    requires
        n > 0,
        d > 0,
    ensures
        (n + d - 1) / d == n / d + if n % d == 0 { 0int } else { 1int },
{
    vstd::arithmetic::div_mod::lemma_fundamental_div_mod(n, d);
    vstd::arithmetic::div_mod::lemma_mod_pos_bound(n, d);
    let q = n / d;
    let r = n % d;
    assert(n + d - 1 == q * d + (r + d - 1) && n + d - 1 == (q + 1) * d + (r - 1)) by (nonlinear_arith)
        requires
            n == d * q + r,
    ;
    if r == 0 {
        vstd::arithmetic::div_mod::lemma_fundamental_div_mod_converse(n + d - 1, d, q, d - 1);
    } else {
        vstd::arithmetic::div_mod::lemma_fundamental_div_mod_converse(n + d - 1, d, q + 1, r - 1);
    }
}

// -- The export panel -------------------------------------------------------

pub open spec fn export_shortcut_spec(f: ExportFormat) -> Seq<char> {
    match f {
        ExportFormat::Csv => "Ctrl+Shift+C"@,
        ExportFormat::Json => "Ctrl+Shift+J"@,
        ExportFormat::Ron => "Ctrl+Shift+R"@,
        ExportFormat::Xlsx => "Ctrl+Shift+E"@,
        ExportFormat::Html => "Ctrl+Shift+H"@,
        ExportFormat::Xml => "Ctrl+Shift+X"@,
        ExportFormat::Markdown => "Ctrl+Shift+M"@,
    }
}

/// Keyboard shortcut that exports in a format.
pub fn export_shortcut(f: ExportFormat) -> (r: &'static str)
    ensures
        r@ == export_shortcut_spec(f),
{
    match f {
        ExportFormat::Csv => "Ctrl+Shift+C",
        ExportFormat::Json => "Ctrl+Shift+J",
        ExportFormat::Ron => "Ctrl+Shift+R",
        ExportFormat::Xlsx => "Ctrl+Shift+E",
        ExportFormat::Html => "Ctrl+Shift+H",
        ExportFormat::Xml => "Ctrl+Shift+X",
        ExportFormat::Markdown => "Ctrl+Shift+M",
    }
}

/// Hover text of an export button: what is missing before exporting, or the
/// format and its shortcut.
pub open spec fn export_hint_spec(
    lang: UiLanguage,
    has_points: bool,
    calibrated: bool,
    coord_system: CoordSystem,
    format_name: Seq<char>,
    shortcut: Seq<char>,
) -> Seq<char> {
    if !has_points {
        text_spec(lang, TextKey::AddPointsBeforeExport) + " "@ + format_name
    } else if !calibrated {
        match coord_system {
            CoordSystem::Cartesian => text_spec(lang, TextKey::CompleteCalibrationBeforeExportCartesian)
                + " "@ + format_name,
            CoordSystem::Polar => text_spec(lang, TextKey::CompleteCalibrationBeforeExportPolar) + " "@
                + format_name,
        }
    } else {
        text_spec(lang, TextKey::ExportToFormat) + " "@ + format_name + " ("@ + shortcut + ")"@
    }
}

pub fn export_hint(
    lang: UiLanguage,
    has_points: bool,
    calibrated: bool,
    coord_system: CoordSystem,
    format_name: &str,
    shortcut: &str,
) -> (r: String)
    ensures
        r@ == export_hint_spec(lang, has_points, calibrated, coord_system, format_name@, shortcut@),
{
    let i18n = I18n::new(lang);
    let mut s = String::new();
    if !has_points {
        push_str(&mut s, i18n.text(TextKey::AddPointsBeforeExport));
        push_str(&mut s, " ");
        push_str(&mut s, format_name);
    } else if !calibrated {
        match coord_system {
            CoordSystem::Cartesian => push_str(&mut s, i18n.text(TextKey::CompleteCalibrationBeforeExportCartesian)),
            CoordSystem::Polar => push_str(&mut s, i18n.text(TextKey::CompleteCalibrationBeforeExportPolar)),
        }
        push_str(&mut s, " ");
        push_str(&mut s, format_name);
    } else {
        push_str(&mut s, i18n.text(TextKey::ExportToFormat));
        push_str(&mut s, " ");
        push_str(&mut s, format_name);
        push_str(&mut s, " (");
        push_str(&mut s, shortcut);
        push_str(&mut s, ")");
    }
    s
}

/// The sample count kept within `SAMPLE_COUNT_MIN` and the configured
/// maximum (itself clamped to 10..=1000000).
pub fn clamp_sample_count(count: usize, samples_max: u32) -> (r: usize)
    ensures
        r == crate::config::clamp_int(
            count as int,
            SAMPLE_COUNT_MIN as int,
            crate::config::clamp_int(samples_max as int, 10int, 1_000_000int),
        ),
{
    let max = samples_max_sanitized(samples_max);
    if count < SAMPLE_COUNT_MIN {
        SAMPLE_COUNT_MIN
    } else if count > max {
        max
    } else {
        count
    }
}

pub open spec fn sample_count_hint_spec(lang: UiLanguage, max: nat) -> Seq<char> {
    match lang {
        UiLanguage::En => "Higher values give a denser interpolated curve (max "@ + decimal(max) + ")"@,
        UiLanguage::Ru => "Чем больше значение, тем плотнее интерполированная кривая (макс "@ + decimal(max)
            + ")"@,
    }
}

/// Hover text of the sample-count slider.
pub fn sample_count_hint(lang: UiLanguage, max: usize) -> (r: String)
    ensures
        r@ == sample_count_hint_spec(lang, max as nat),
{
    let mut s = String::new();
    match lang {
        UiLanguage::En => push_str(&mut s, "Higher values give a denser interpolated curve (max "),
        UiLanguage::Ru => push_str(&mut s, "Чем больше значение, тем плотнее интерполированная кривая (макс "),
    }
    push_decimal(&mut s, max as u64);
    push_str(&mut s, ")");
    s
}

} // verus!
