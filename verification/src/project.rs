//! Status texts and decisions of saving and loading a project: where the
//! image was found, checksum warnings, and what a finished save reports.

use vstd::prelude::*;
use crate::text::{push_char, push_decimal, push_str, decimal, digit_char};

verus! {

/// Which stored path the project image was resolved from.
#[derive(Debug, Clone, Copy, PartialEq, Eq, Structural)]
pub enum ImagePathSource {
    Absolute,
    Relative,
}

pub open spec fn source_phrase(source: ImagePathSource) -> Seq<char> {
    match source {
        ImagePathSource::Absolute => "absolute path"@,
        ImagePathSource::Relative => "relative path"@,
    }
}

pub open spec fn source_title(source: ImagePathSource) -> Seq<char> {
    match source {
        ImagePathSource::Absolute => "Absolute path"@,
        ImagePathSource::Relative => "Relative path"@,
    }
}

impl ImagePathSource {
    /// Lower-case phrase used inside status lines.
    pub fn phrase(self) -> (r: &'static str)
        ensures
            r@ == source_phrase(self),
    {
        match self {
            ImagePathSource::Absolute => "absolute path",
            ImagePathSource::Relative => "relative path",
        }
    }

    /// Capitalised label used at the head of a warning.
    pub fn title(self) -> (r: &'static str)
        ensures
            r@ == source_title(self),
    {
        match self {
            ImagePathSource::Absolute => "Absolute path",
            ImagePathSource::Relative => "Relative path",
        }
    }
}

/// The lower-case hexadecimal digit of `d` (`0 <= d < 16`).
pub open spec fn hex_digit(d: int) -> char {
    if d < 10 {
        digit_char(d)
    } else if d == 10 {
        'a'
    } else if d == 11 {
        'b'
    } else if d == 12 {
        'c'
    } else if d == 13 {
        'd'
    } else if d == 14 {
        'e'
    } else {
        'f'
    }
}

/// The last `n` hexadecimal digits of `v`, most significant first.
pub open spec fn hex_digits(v: nat, n: nat) -> Seq<char>
    decreases n,
{
    if n == 0 {
        Seq::empty()
    } else {
        hex_digits(v / 16, (n - 1) as nat).push(hex_digit((v % 16) as int))
    }
}

/// A checksum as `{:#010x}` prints it: `0x` and eight lower-case digits.
pub open spec fn checksum_text(v: u32) -> Seq<char> {
    "0x"@ + hex_digits(v as nat, 8)
}

fn hex_char(d: u64) -> (c: char)
    requires
        d < 16,
    ensures
        c == hex_digit(d as int),
{
    match d {
        0 => '0',
        1 => '1',
        2 => '2',
        3 => '3',
        4 => '4',
        5 => '5',
        6 => '6',
        7 => '7',
        8 => '8',
        9 => '9',
        10 => 'a',
        11 => 'b',
        12 => 'c',
        13 => 'd',
        14 => 'e',
        _ => 'f',
    }
}

fn push_hex_digits(s: &mut String, v: u64, n: u64)
    ensures
        final(s)@ == old(s)@ + hex_digits(v as nat, n as nat),
    decreases n,
{
    if n == 0 {
        assert(final(s)@ =~= old(s)@ + hex_digits(v as nat, 0));
        return;
    }
    push_hex_digits(s, v / 16, n - 1);
    push_char(s, hex_char(v % 16));
    assert(final(s)@ =~= old(s)@ + hex_digits(v as nat, n as nat));
}

/// Appends a checksum in the form `0x0000abcd`.
pub fn push_checksum(s: &mut String, v: u32)
    ensures
        final(s)@ == old(s)@ + checksum_text(v),
{
    push_str(s, "0x");
    push_hex_digits(s, v as u64, 8);
    assert(final(s)@ =~= old(s)@ + checksum_text(v));
}

/// What the checksum found on disk reads as in a status line.
pub open spec fn actual_checksum_text(actual: Option<u32>) -> Seq<char> {
    match actual {
        Some(v) => checksum_text(v),
        None => "unknown"@,
    }
}

fn push_actual_checksum(s: &mut String, actual: Option<u32>)
    ensures
        final(s)@ == old(s)@ + actual_checksum_text(actual),
{
    match actual {
        Some(v) => push_checksum(s, v),
        None => push_str(s, "unknown"),
    }
}

/// The image a project names, as found when the project was opened.
#[derive(Debug, Clone, Copy, PartialEq, Eq)]
pub struct ResolvedImageCheck {
    pub source: ImagePathSource,
    pub checksum_matches: bool,
    pub expected: u32,
    pub actual: Option<u32>,
}

pub open spec fn loading_status_spec(version: u32, image: ResolvedImageCheck) -> Seq<char> {
    if image.checksum_matches {
        "Loading project v"@ + decimal(version as nat) + " image from "@
            + source_phrase(image.source) + "…"@
    } else {
        "Image checksum mismatch (expected "@ + checksum_text(image.expected) + ", got "@
            + actual_checksum_text(image.actual) + "). Loading from "@
            + source_phrase(image.source) + "…"@
    }
}

/// Status shown when the image of an opened project starts loading.
pub fn loading_status(version: u32, image: ResolvedImageCheck) -> (r: String)
    ensures
        r@ == loading_status_spec(version, image),
{
    let mut s = String::new();
    if image.checksum_matches {
        push_str(&mut s, "Loading project v");
        push_decimal(&mut s, version as u64);
        push_str(&mut s, " image from ");
        push_str(&mut s, image.source.phrase());
        push_str(&mut s, "…");
    } else {
        push_str(&mut s, "Image checksum mismatch (expected ");
        push_checksum(&mut s, image.expected);
        push_str(&mut s, ", got ");
        push_actual_checksum(&mut s, image.actual);
        push_str(&mut s, "). Loading from ");
        push_str(&mut s, image.source.phrase());
        push_str(&mut s, "…");
    }
    s
}

pub open spec fn loaded_status_spec(version: u32, image: ResolvedImageCheck) -> Seq<char> {
    if image.checksum_matches {
        "Project v"@ + decimal(version as nat) + " loaded ("@ + source_phrase(image.source)
            + ")."@
    } else {
        "Project v"@ + decimal(version as nat) + " loaded with checksum warning (expected "@
            + checksum_text(image.expected) + ", got "@ + actual_checksum_text(image.actual)
            + ")."@
    }
}

/// Status shown once the project state has been applied to the loaded image.
pub fn loaded_status(version: u32, image: ResolvedImageCheck) -> (r: String)
    ensures
        r@ == loaded_status_spec(version, image),
{
    let mut s = String::new();
    push_str(&mut s, "Project v");
    push_decimal(&mut s, version as u64);
    if image.checksum_matches {
        push_str(&mut s, " loaded (");
        push_str(&mut s, image.source.phrase());
        push_str(&mut s, ").");
    } else {
        push_str(&mut s, " loaded with checksum warning (expected ");
        push_checksum(&mut s, image.expected);
        push_str(&mut s, ", got ");
        push_actual_checksum(&mut s, image.actual);
        push_str(&mut s, ").");
    }
    s
}

/// A problem found with the image a project names; `path` is the path as
/// displayed.
#[derive(Debug, Clone, PartialEq, Eq)]
pub enum ProjectWarning {
    MissingImage { path: String, source: ImagePathSource, reason: String },
    ChecksumMismatch { path: String, source: ImagePathSource, expected: u32, actual: u32 },
}

pub open spec fn warning_text_spec(w: ProjectWarning) -> Seq<char> {
    match w {
        ProjectWarning::MissingImage { path, source, reason } => "Missing image ("@
            + source_title(source) + ") at "@ + path@ + ": "@ + reason@,
        ProjectWarning::ChecksumMismatch { path, source, expected, actual } => "Checksum mismatch ("@
            + source_title(source) + ") at "@ + path@ + ": expected "@ + checksum_text(expected)
            + ", got "@ + checksum_text(actual),
    }
}

/// One line of the warning list shown before a project with problems is opened.
pub fn warning_text(w: &ProjectWarning) -> (r: String)
    ensures
        r@ == warning_text_spec(*w),
{
    let mut s = String::new();
    match w {
        ProjectWarning::MissingImage { path, source, reason } => {
            push_str(&mut s, "Missing image (");
            push_str(&mut s, source.title());
            push_str(&mut s, ") at ");
            push_str(&mut s, path.as_str());
            push_str(&mut s, ": ");
            push_str(&mut s, reason.as_str());
        },
        ProjectWarning::ChecksumMismatch { path, source, expected, actual } => {
            push_str(&mut s, "Checksum mismatch (");
            push_str(&mut s, source.title());
            push_str(&mut s, ") at ");
            push_str(&mut s, path.as_str());
            push_str(&mut s, ": expected ");
            push_checksum(&mut s, *expected);
            push_str(&mut s, ", got ");
            push_checksum(&mut s, *actual);
        },
    }
    s
}

/// What opening a project file leads to.
#[derive(Debug, Clone, PartialEq, Eq)]
pub enum OpenedProjectStep {
    /// No warnings: the image starts loading at once.
    ApplyNow,
    /// Warnings: they are shown and the user confirms; the status says so.
    Confirm { status: String },
}

/// Opening a project applies it at once unless it came with warnings.
pub fn opened_project_step(warning_count: usize) -> (r: OpenedProjectStep)
    ensures
        warning_count == 0 ==> r == OpenedProjectStep::ApplyNow,
        warning_count > 0 ==> (r matches OpenedProjectStep::Confirm { status }
            && status@ == "Project has warnings. Confirm to continue loading."@),
{
    if warning_count == 0 {
        OpenedProjectStep::ApplyNow
    } else {
        OpenedProjectStep::Confirm {
            status: String::from_str("Project has warnings. Confirm to continue loading."),
        }
    }
}

/// What the background project save reported when polled.
#[derive(Debug, Clone, PartialEq, Eq)]
pub enum SaveEvent {
    Saved,
    Failed(String),
    Pending,
    Disconnected,
}

pub open spec fn save_status_spec(event: SaveEvent) -> Option<Seq<char>> {
    match event {
        SaveEvent::Saved => Some("Project saved."@),
        SaveEvent::Failed(err) => Some("Project save failed: "@ + err@),
        SaveEvent::Pending => None,
        SaveEvent::Disconnected => Some("Project save failed: worker disconnected."@),
    }
}

/// The status a polled save produces, if it has finished; `None` means it
/// is still running and stays pending.
pub fn save_status(event: &SaveEvent) -> (r: Option<String>)
    ensures
        match (r, save_status_spec(*event)) {
            (Some(t), Some(u)) => t@ == u,
            (None, None) => true,
            _ => false,
        },
{
    match event {
        SaveEvent::Saved => Some(String::from_str("Project saved.")),
        SaveEvent::Failed(err) => {
            let mut s = String::new();
            push_str(&mut s, "Project save failed: ");
            push_str(&mut s, err.as_str());
            Some(s)
        },
        SaveEvent::Pending => None,
        SaveEvent::Disconnected => Some(String::from_str("Project save failed: worker disconnected.")),
    }
}

pub open spec fn save_request_status_spec(already_running: bool, build_error: Option<String>) -> Option<Seq<char>> {
    if already_running {
        Some("Project save already in progress."@)
    } else {
        match build_error {
            Some(err) => Some("Project save failed: "@ + err@),
            None => None,
        }
    }
}

/// A save request is refused while another save runs, and reports a failure
/// to gather what it saves; `None` means the save starts.
pub fn save_request_status(already_running: bool, build_error: &Option<String>) -> (r: Option<String>)
    ensures
        match (r, save_request_status_spec(already_running, *build_error)) {
            (Some(t), Some(u)) => t@ == u,
            (None, None) => true,
            _ => false,
        },
{
    if already_running {
        return Some(String::from_str("Project save already in progress."));
    }
    match build_error {
        Some(err) => {
            let mut s = String::new();
            push_str(&mut s, "Project save failed: ");
            push_str(&mut s, err.as_str());
            Some(s)
        },
        None => None,
    }
}

} // verus!
