use curcat::axis_input::{axis_char_allowed, delete_char_range, insert_text, sanitize_axis_text};
use curcat::kinds::AxisUnit;

#[test]
fn sanitizing_float_text() {
    let mut v = "1,5e3 kg".to_string();
    sanitize_axis_text(&mut v, AxisUnit::Float);
    assert_eq!(v, "1.5e3 ");
    let again = v.clone();
    sanitize_axis_text(&mut v, AxisUnit::Float);
    assert_eq!(v, again);
}

#[test]
fn sanitizing_datetime_text() {
    let mut v = "2024-01-02T03:04Zx!".to_string();
    sanitize_axis_text(&mut v, AxisUnit::DateTime);
    assert_eq!(v, "2024-01-02T03:04Z");
    assert!(axis_char_allowed(AxisUnit::DateTime, '/'));
    assert!(!axis_char_allowed(AxisUnit::DateTime, 'e'));
    assert!(axis_char_allowed(AxisUnit::Float, 'N'));
}

#[test]
fn inserting_and_deleting_characters() {
    let mut v = "12".to_string();
    let n = insert_text(&mut v, AxisUnit::Float, "a,5", 1);
    assert_eq!(n, 3);
    assert_eq!(v, "1a.52");
    let n = insert_text(&mut v, AxisUnit::Float, "?", 0);
    assert_eq!(n, 0);
    assert_eq!(v, "1a.52");
    insert_text(&mut v, AxisUnit::Float, "9", 99);
    assert_eq!(v, "1a.529");
    delete_char_range(&mut v, 1, 3);
    assert_eq!(v, "1529");
    delete_char_range(&mut v, 3, 2);
    assert_eq!(v, "1529");
}
