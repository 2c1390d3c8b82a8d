use curcat::config::{HexColor, ImageLimits};

fn color_from_toml(text: &str) -> Result<HexColor, String> {
    let table: toml::Table = toml::from_str(text).map_err(|e| e.to_string())?;
    match table.get("color").and_then(|v| v.as_str()) {
        Some(s) => HexColor::parse_hex(s),
        None => Err("expected a hex color string".to_string()),
    }
}

#[test]
fn parses_hex_without_alpha_defaults_to_opaque() {
    let color = color_from_toml(r##"color = "#50C878""##).unwrap();
    assert_eq!(color.rgba(), [0x50, 0xC8, 0x78, 0xFF]);
}

#[test]
fn parses_hex_with_alpha() {
    let color = color_from_toml(r##"color = "#C85050CC""##).unwrap();
    assert_eq!(color.rgba(), [0xC8, 0x50, 0x50, 0xCC]);
}

#[test]
fn serializes_back_to_hex() {
    let mut table = toml::Table::new();
    table.insert(
        "color".to_string(),
        toml::Value::String(HexColor::from_rgba(0x01, 0x02, 0x03, 0x04).fmt_hex()),
    );
    let serialized = toml::to_string(&table).unwrap();
    assert!(serialized.trim().eq_ignore_ascii_case(r##"color = "#01020304""##));
}

#[test]
fn keeps_alpha_in_color32() {
    let color = HexColor::from_rgba(255, 0, 0, 128);
    assert_eq!(color.rgba(), [255, 0, 0, 128]);
}

#[test]
fn rejects_legacy_rgb_arrays() {
    let parsed = color_from_toml("color = [1, 2, 3]");
    assert!(parsed.is_err());
}

#[test]
fn accepts_lowercase_hex() {
    let color = color_from_toml(r##"color = "#c85050ff""##).unwrap();
    assert_eq!(color.rgba(), [0xC8, 0x50, 0x50, 0xFF]);
}

#[test]
fn hex_text_round_trips() {
    for (r, g, b, a) in [(0, 0, 0, 0), (255, 255, 255, 255), (0x12, 0xAB, 0x0F, 0x80)] {
        let c = HexColor::from_rgba(r, g, b, a);
        let text = c.fmt_hex();
        assert_eq!(HexColor::parse_hex(&text).unwrap().rgba(), [r, g, b, a]);
    }
    assert_eq!(HexColor::from_rgba(0x12, 0xAB, 0x0F, 0x80).fmt_hex(), "#12AB0F80");
    assert_eq!(HexColor::from_rgb(1, 2, 3).rgba(), [1, 2, 3, 255]);
}

#[test]
fn parse_hex_accepts_prefixes_and_whitespace() {
    assert_eq!(HexColor::parse_hex("  0x102030 ").unwrap().rgba(), [0x10, 0x20, 0x30, 0xFF]);
    assert_eq!(HexColor::parse_hex("a0b0c0").unwrap().rgba(), [0xA0, 0xB0, 0xC0, 0xFF]);
}

#[test]
fn parse_hex_reports_length_and_digit_errors() {
    assert_eq!(
        HexColor::parse_hex("#12345").unwrap_err(),
        "expected a hex color like #RRGGBB or #RRGGBBAA, got \"#12345\""
    );
    assert_eq!(
        HexColor::parse_hex("#12345G").unwrap_err(),
        "invalid hex color \"#12345G\""
    );
}

#[test]
fn sanitized_limits_are_clamped_and_stable() {
    let raw = ImageLimits { image_dim: 1, total_pixels: 10_000_000_000, alloc_bytes: 1 };
    let s = raw.sanitized();
    assert_eq!(s.image_dim, 64);
    assert_eq!(s.total_pixels, 5_000_000_000);
    assert_eq!(s.alloc_bytes, 8 * 1024 * 1024);
    assert_eq!(s.sanitized(), s);
    let d = ImageLimits::default();
    assert_eq!(d.sanitized(), d);
}
