use curcat::clipboard::{capture_from_image_data, CaptureError, ClipboardFailure};

#[test]
fn capture_keeps_exact_pixel_bytes() {
    let mut bytes: Vec<u8> = (0..24).collect();
    bytes.extend_from_slice(&[1, 2, 3]);
    let c = capture_from_image_data(3, 2, bytes).unwrap();
    assert_eq!((c.width, c.height), (3, 2));
    assert_eq!(c.rgba, (0..24).collect::<Vec<u8>>());
}

#[test]
fn capture_refuses_empty_huge_and_short_images() {
    assert_eq!(capture_from_image_data(0, 2, vec![]).err(), Some(CaptureError::Empty));
    assert_eq!(capture_from_image_data(usize::MAX, 2, vec![]).err(), Some(CaptureError::TooLarge));
    assert_eq!(capture_from_image_data(2, 2, vec![0; 15]).err(), Some(CaptureError::Truncated));
    assert_eq!(CaptureError::Empty.message(), "Paste failed: clipboard image is empty.");
    assert_eq!(
        CaptureError::TooLarge.message(),
        "Paste failed: clipboard image dimensions are too large."
    );
}

#[test]
fn clipboard_failures_have_messages() {
    assert_eq!(
        ClipboardFailure::ContentNotAvailable.message(),
        "Paste failed: clipboard does not contain an image."
    );
    assert_eq!(
        ClipboardFailure::Unknown { description: "no X server".to_string() }.message(),
        "Paste failed: no X server"
    );
    assert_eq!(
        ClipboardFailure::ClipboardOccupied.message(),
        "Paste failed: clipboard is busy; try again in a moment."
    );
}
