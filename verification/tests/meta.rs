use curcat::meta::{
    describe_aspect_ratio, human_readable_bytes, simplified_aspect_ratio, total_pixel_count, ImageMeta, ImageOrigin,
    PendingImageMeta,
};
use std::path::PathBuf;

fn reference_bytes_text(bytes: u64) -> String {
    const UNITS: [&str; 5] = ["B", "KiB", "MiB", "GiB", "TiB"];
    let mut value = bytes as f64;
    let mut unit_idx = 0;
    while value >= 1024.0 && unit_idx < UNITS.len() - 1 {
        value /= 1024.0;
        unit_idx += 1;
    }
    if unit_idx == 0 {
        format!("{bytes} {}", UNITS[unit_idx])
    } else {
        format!("{value:.2} {}", UNITS[unit_idx])
    }
}

#[test]
fn byte_counts_in_binary_units() {
    assert_eq!(human_readable_bytes(0), "0 B");
    assert_eq!(human_readable_bytes(1023), "1023 B");
    assert_eq!(human_readable_bytes(1024), "1.00 KiB");
    assert_eq!(human_readable_bytes(1536), "1.50 KiB");
    assert_eq!(human_readable_bytes(10 * 1024 * 1024), "10.00 MiB");
    assert_eq!(human_readable_bytes(u64::MAX), "16777216.00 TiB");
}

#[test]
fn byte_counts_match_float_formatting() {
    let mut samples: Vec<u64> = vec![
        1152,
        1408,
        1664,
        1920,
        1_048_575,
        1_048_576,
        1_073_741_823,
        1_099_511_627_775,
        1_099_511_627_776,
        9_007_199_254_740_993,
        18_014_398_509_481_985,
        u64::MAX - 1,
    ];
    let mut x: u64 = 0x9E37_79B9_7F4A_7C15;
    for _ in 0..20_000 {
        x ^= x << 13;
        x ^= x >> 7;
        x ^= x << 17;
        samples.push(x >> (x % 64));
    }
    for k in 1..5u32 {
        let unit = 1u64 << (10 * k);
        for frac in [125u64, 375, 625, 875, 5, 995, 999] {
            samples.push(unit + unit * frac / 1000);
            samples.push(unit * 3 + unit * frac / 1000 + 1);
        }
    }
    for b in samples {
        assert_eq!(human_readable_bytes(b), reference_bytes_text(b), "bytes = {b}");
    }
}

#[test]
fn pixel_counts_saturate() {
    assert_eq!(total_pixel_count([640, 480]), 307_200);
    assert_eq!(total_pixel_count([0, 480]), 0);
    assert_eq!(total_pixel_count([usize::MAX, 2]), u64::MAX);
}

#[test]
fn aspect_ratio_in_lowest_terms() {
    assert_eq!(simplified_aspect_ratio([1920, 1080]), Some([16, 9]));
    assert_eq!(simplified_aspect_ratio([1000, 1000]), Some([1, 1]));
    assert_eq!(simplified_aspect_ratio([7, 5]), Some([7, 5]));
    assert_eq!(simplified_aspect_ratio([0, 5]), None);
}

#[test]
fn image_meta_names_and_labels() {
    let dropped = ImageMeta::from_dropped_bytes(Some("plot.png"), 10, None);
    assert_eq!(dropped.display_name(), "plot.png");
    assert_eq!(dropped.source_label(), "Dropped bytes");
    assert_eq!(dropped.byte_len(), Some(10));
    assert!(dropped.path().is_none());

    let unnamed = ImageMeta::from_dropped_bytes(Some(""), 3, None);
    assert_eq!(unnamed.display_name(), "Unnamed drop");

    let clip = ImageMeta::from_clipboard(Some(64));
    assert_eq!(clip.display_name(), "Clipboard image");
    assert_eq!(clip.source_label(), "Clipboard");
    assert!(clip.last_modified().is_none());

    let file = ImageMeta::from_file_metadata(PathBuf::from("/tmp/dir/chart.jpg"), Some(5), None);
    assert_eq!(file.display_name(), "chart.jpg");
    assert_eq!(file.source_label(), "File on disk");
    assert_eq!(file.path(), Some(&PathBuf::from("/tmp/dir/chart.jpg")));
    assert_eq!(ImageOrigin::Clipboard.label(), "Clipboard");
}

#[test]
fn pending_meta_description_and_conversion() {
    let pending = PendingImageMeta::DroppedBytes { name: None, byte_len: 12, last_modified: None };
    assert_eq!(pending.description(), "dropped bytes");
    let meta = pending.into_image_meta(None, None);
    assert_eq!(meta.byte_len(), Some(12));
    assert_eq!(meta.display_name(), "Unnamed drop");

    let path = PendingImageMeta::Path { path: PathBuf::from("a/b/curve.png") };
    assert_eq!(path.description(), "curve.png");
    let meta = path.into_image_meta(Some(99), None);
    assert_eq!(meta.byte_len(), Some(99));
    assert_eq!(meta.display_name(), "curve.png");
}

#[test]
fn aspect_ratio_description_matches_double_formatting() {
    assert_eq!(describe_aspect_ratio([1920, 1080]).as_deref(), Some("16:9 (~1.778:1)"));
    assert_eq!(describe_aspect_ratio([0, 5]), None);
    assert_eq!(describe_aspect_ratio([17, 16]).as_deref(), Some(format!("17:16 (~{:.3}:1)", 17.0_f64 / 16.0).as_str()));
    let mut state: u64 = 0x1234_5678_9abc_def1;
    let mut next = move || {
        state ^= state << 13;
        state ^= state >> 7;
        state ^= state << 17;
        state
    };
    let mut sizes: Vec<[usize; 2]> = vec![
        [usize::MAX, 1],
        [1, usize::MAX],
        [usize::MAX, usize::MAX - 1],
        [1 << 53, 3],
        [(1 << 53) + 1, 1],
        [1, 2000],
        [2001, 2000],
        [9, 8],
        [3, 8],
        [1, 16],
    ];
    for _ in 0..50_000 {
        let bits_w = 1 + next() % 64;
        let bits_h = 1 + next() % 64;
        let w = (next() >> (64 - bits_w)) as usize;
        let h = (next() >> (64 - bits_h)) as usize;
        sizes.push([w.max(1), h.max(1)]);
        sizes.push([(next() % 5000) as usize + 1, (next() % 5000) as usize + 1]);
    }
    for [w, h] in sizes {
        let g = {
            let (mut a, mut b) = (w, h);
            while b != 0 {
                let t = a % b;
                a = b;
                b = t;
            }
            a
        };
        let expected = format!("{}:{} (~{:.3}:1)", w / g, h / g, w as f64 / h as f64);
        assert_eq!(describe_aspect_ratio([w, h]), Some(expected), "{w}x{h}");
    }
}
