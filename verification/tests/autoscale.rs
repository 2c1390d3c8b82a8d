use curcat::config::ImageLimits;
use curcat::limits::{compute_autoscale_size, SourceMetrics};

/// The autoscaling of the image loader, written with `f64` as the loader
/// computes it.
#[allow(clippy::cast_precision_loss, clippy::cast_possible_truncation, clippy::cast_sign_loss)]
fn reference(width: u32, height: u32, limits: &ImageLimits) -> Option<[u32; 2]> {
    let total = u64::from(width) * u64::from(height);
    let alloc_pixels = limits.alloc_bytes / 4;
    let pixel_limit = limits.total_pixels.min(alloc_pixels);
    if pixel_limit == 0 {
        return None;
    }
    let mut scale = 1.0_f64;
    scale = scale.min(f64::from(limits.image_dim) / f64::from(width));
    scale = scale.min(f64::from(limits.image_dim) / f64::from(height));
    scale = scale.min((pixel_limit as f64 / total as f64).sqrt());
    if !scale.is_finite() || scale <= 0.0 {
        return None;
    }
    let mut w = (f64::from(width) * scale).floor().max(1.0) as u32;
    let mut h = (f64::from(height) * scale).floor().max(1.0) as u32;
    while (w > limits.image_dim
        || h > limits.image_dim
        || u64::from(w) * u64::from(h) > limits.total_pixels
        || u64::from(w) * u64::from(h) * 4 > limits.alloc_bytes)
        && (w > 1 || h > 1)
    {
        if w >= h && w > 1 {
            w -= 1;
            h = ((u64::from(height) * u64::from(w)) / u64::from(width)).max(1).try_into().ok()?;
        } else if h > 1 {
            h -= 1;
            w = ((u64::from(width) * u64::from(h)) / u64::from(height)).max(1).try_into().ok()?;
        } else {
            break;
        }
    }
    if w == 0
        || h == 0
        || w > limits.image_dim
        || h > limits.image_dim
        || u64::from(w) * u64::from(h) > limits.total_pixels
        || u64::from(w) * u64::from(h) * 4 > limits.alloc_bytes
    {
        None
    } else {
        Some([w, h])
    }
}

fn metrics(width: u32, height: u32) -> SourceMetrics {
    let total_pixels = u64::from(width) * u64::from(height);
    SourceMetrics { width, height, total_pixels, rgba_bytes: total_pixels * 4 }
}

#[test]
fn autoscale_follows_double_precision_when_side_limit_binds() {
    let limits = ImageLimits { image_dim: 28_584, total_pixels: 2_450_336_412, alloc_bytes: 5_040_016_198 };
    assert_eq!(compute_autoscale_size(metrics(9_940, 154_819), &limits), Some([1_835, 28_583]));
    assert_eq!(reference(9_940, 154_819, &limits), Some([1_835, 28_583]));
}

#[test]
fn autoscale_matches_double_precision_reference() {
    let mut state: u64 = 0x9e37_79b9_7f4a_7c15;
    let mut next = move || {
        state ^= state << 13;
        state ^= state >> 7;
        state ^= state << 17;
        state
    };
    for round in 0..200_000u32 {
        let side_bits = 1 + (next() % 31) as u32;
        let width = 1 + (next() % (1u64 << side_bits)) as u32;
        let height = 1 + (next() % (1u64 << (1 + (next() % 31) as u32))) as u32;
        if u128::from(width) * u128::from(height) * 4 > u128::from(u64::MAX) {
            continue;
        }
        let limits = ImageLimits {
            image_dim: 1 + (next() % 100_000) as u32,
            total_pixels: next() % 6_000_000_000,
            alloc_bytes: next() % 9_000_000_000,
        };
        assert_eq!(
            compute_autoscale_size(metrics(width, height), &limits),
            reference(width, height, &limits),
            "round {round}: {width}x{height} under {limits:?}"
        );
    }
}
