//! Checking an image taken from the system clipboard before it is decoded.

use vstd::prelude::*;
use crate::text::push_str;

verus! {

/// Why the clipboard gave no image, as the clipboard service reports it.
#[derive(Debug, Clone, PartialEq, Eq)]
pub enum ClipboardFailure {
    ContentNotAvailable,
    ClipboardNotSupported,
    ClipboardOccupied,
    ConversionFailure,
    /// A failure the service describes in words.
    Unknown { description: String },
    /// Any other failure, with the service's own message.
    Other { message: String },
}

pub open spec fn clipboard_failure_message(e: ClipboardFailure) -> Seq<char> {
    match e {
        ClipboardFailure::ContentNotAvailable => "Paste failed: clipboard does not contain an image."@,
        ClipboardFailure::ClipboardNotSupported =>
            "Paste failed: clipboard access is not supported in this environment."@,
        ClipboardFailure::ClipboardOccupied => "Paste failed: clipboard is busy; try again in a moment."@,
        ClipboardFailure::ConversionFailure => "Paste failed: clipboard image could not be converted."@,
        ClipboardFailure::Unknown { description } => "Paste failed: "@ + description@,
        ClipboardFailure::Other { message } => "Paste failed: "@ + message@,
    }
}

impl ClipboardFailure {
    /// The status message shown for the failure.
    pub fn message(&self) -> (s: String)
        ensures
            s@ == clipboard_failure_message(*self),
    {
        let mut s = String::new();
        match self {
            ClipboardFailure::ContentNotAvailable => push_str(
                &mut s,
                "Paste failed: clipboard does not contain an image.",
            ),
            ClipboardFailure::ClipboardNotSupported => push_str(
                &mut s,
                "Paste failed: clipboard access is not supported in this environment.",
            ),
            ClipboardFailure::ClipboardOccupied => push_str(
                &mut s,
                "Paste failed: clipboard is busy; try again in a moment.",
            ),
            ClipboardFailure::ConversionFailure => push_str(
                &mut s,
                "Paste failed: clipboard image could not be converted.",
            ),
            ClipboardFailure::Unknown { description } => {
                push_str(&mut s, "Paste failed: ");
                push_str(&mut s, description.as_str());
            },
            ClipboardFailure::Other { message } => {
                push_str(&mut s, "Paste failed: ");
                push_str(&mut s, message.as_str());
            },
        }
        s
    }
}

/// An image taken from the clipboard: `width` x `height` pixels, four bytes each.
pub struct ClipboardCapture {
    pub width: usize,
    pub height: usize,
    pub rgba: Vec<u8>,
}

/// Why clipboard pixels were refused.
#[derive(Debug, Clone, Copy, PartialEq, Eq, Structural)]
pub enum CaptureError {
    Empty,
    TooLarge,
    Truncated,
}

pub open spec fn capture_error_message(e: CaptureError) -> Seq<char> {
    match e {
        CaptureError::Empty => "Paste failed: clipboard image is empty."@,
        CaptureError::TooLarge => "Paste failed: clipboard image dimensions are too large."@,
        CaptureError::Truncated => "Paste failed: clipboard image data is truncated."@,
    }
}

impl CaptureError {
    pub fn message(&self) -> (s: String)
        ensures
            s@ == capture_error_message(*self),
    {
        let mut s = String::new();
        match self {
            CaptureError::Empty => push_str(&mut s, "Paste failed: clipboard image is empty."),
            CaptureError::TooLarge => push_str(
                &mut s,
                "Paste failed: clipboard image dimensions are too large.",
            ),
            CaptureError::Truncated => push_str(&mut s, "Paste failed: clipboard image data is truncated."),
        }
        s
    }
}

/// Checks the pixels the clipboard gave: a side of zero is refused, so is a
/// byte count that does not fit `usize` or more than the data holds; the
/// image keeps exactly the first `4 * width * height` bytes.
pub fn capture_from_image_data(width: usize, height: usize, bytes: Vec<u8>) -> (r: Result<
    ClipboardCapture,
    CaptureError,
>)
    ensures
        width == 0 || height == 0 ==> r == Err::<ClipboardCapture, CaptureError>(CaptureError::Empty),
        width > 0 && height > 0 && width * height * 4 > usize::MAX ==> r == Err::<
            ClipboardCapture,
            CaptureError,
        >(CaptureError::TooLarge),
        width > 0 && height > 0 && width * height * 4 <= usize::MAX && bytes.len() < width * height * 4
            ==> r == Err::<ClipboardCapture, CaptureError>(CaptureError::Truncated),
        r matches Ok(c) ==> c.width == width && c.height == height && c.rgba@ == bytes@.take(
            width * height * 4,
        ),
        width > 0 && height > 0 && width * height * 4 <= bytes.len() ==> r is Ok,
{
    if width == 0 || height == 0 {
        return Err(CaptureError::Empty);
    }
    let expected_len = match width.checked_mul(height) {
        Some(px) => match px.checked_mul(4) {
            Some(n) => n,
            None => return Err(CaptureError::TooLarge),
        },
        None => {
            assert(width * height * 4 > usize::MAX) by (nonlinear_arith)
                requires
                    width * height > usize::MAX,
            ;
            return Err(CaptureError::TooLarge);
        },
    };
    if bytes.len() < expected_len {
        return Err(CaptureError::Truncated);
    }
    let mut rgba: Vec<u8> = Vec::with_capacity(expected_len);
    let mut i: usize = 0;
    while i < expected_len
        invariant
            i <= expected_len <= bytes.len(),
            rgba@ == bytes@.take(i as int),
        decreases expected_len - i,
    {
        rgba.push(bytes[i]);
        i = i + 1;
        assert(rgba@ =~= bytes@.take(i as int));
    }
    Ok(ClipboardCapture { width, height, rgba })
}

} // verus!
