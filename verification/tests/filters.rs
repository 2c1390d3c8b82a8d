use curcat::filters::{box_blur, filter_stages, is_fully_opaque, FilterStages};

fn mod_u8(value: usize) -> u8 {
    u8::try_from(value % 256).unwrap_or(0)
}

fn test_image(width: usize, height: usize) -> Vec<[u8; 4]> {
    (0..width * height)
        .map(|i| [mod_u8(i * 37 + 13), mod_u8(i * 19 + 97), mod_u8(i * 53 + 41), mod_u8(i * 29 + 73)])
        .collect()
}

fn avg_channel_scalar(sum: u32, base: u32, count: u32) -> u8 {
    let value = (sum - base + count / 2) / count;
    u8::try_from(value.min(u32::from(u8::MAX))).unwrap_or(u8::MAX)
}

fn box_blur_scalar_reference(pixels: &[[u8; 4]], width: usize, height: usize, radius: u32) -> Vec<[u8; 4]> {
    if radius == 0 || width == 0 || height == 0 {
        return pixels.to_vec();
    }
    let radius = radius as usize;
    let mut horiz = vec![[0u8; 4]; width * height];
    let mut row_prefix = vec![[0u32; 4]; width + 1];
    for y in 0..height {
        let row_start = y * width;
        for x in 0..width {
            let p = pixels[row_start + x];
            let prev = row_prefix[x];
            row_prefix[x + 1] = [
                prev[0] + u32::from(p[0]),
                prev[1] + u32::from(p[1]),
                prev[2] + u32::from(p[2]),
                prev[3] + u32::from(p[3]),
            ];
        }
        for x in 0..width {
            let x0 = x.saturating_sub(radius);
            let x1 = (x + radius).min(width - 1);
            let count = u32::try_from(x1 - x0 + 1).unwrap_or(u32::MAX);
            let (sum, base) = (row_prefix[x1 + 1], row_prefix[x0]);
            horiz[row_start + x] = [0, 1, 2, 3].map(|c| avg_channel_scalar(sum[c], base[c], count));
        }
    }
    let mut out = vec![[0u8; 4]; width * height];
    let mut col_prefix = vec![[0u32; 4]; height + 1];
    for x in 0..width {
        for y in 0..height {
            let p = horiz[y * width + x];
            let prev = col_prefix[y];
            col_prefix[y + 1] = [
                prev[0] + u32::from(p[0]),
                prev[1] + u32::from(p[1]),
                prev[2] + u32::from(p[2]),
                prev[3] + u32::from(p[3]),
            ];
        }
        for y in 0..height {
            let y0 = y.saturating_sub(radius);
            let y1 = (y + radius).min(height - 1);
            let count = u32::try_from(y1 - y0 + 1).unwrap_or(u32::MAX);
            let (sum, base) = (col_prefix[y1 + 1], col_prefix[y0]);
            out[y * width + x] = [0, 1, 2, 3].map(|c| avg_channel_scalar(sum[c], base[c], count));
        }
    }
    out
}

#[test]
fn box_blur_simd_channels_match_scalar_reference() {
    for [width, height] in [[1, 1], [1, 17], [17, 1], [2, 3], [13, 9], [49, 3]] {
        let image = test_image(width, height);
        for radius in [0_u32, 1, 2, 3, 4, 24] {
            let blurred = box_blur(&image, width, height, radius);
            let scalar = box_blur_scalar_reference(&image, width, height, radius);
            assert_eq!(blurred, scalar, "size: {width}x{height}, radius: {radius}");
        }
    }
}

#[test]
fn parallel_box_blur_matches_scalar_reference() {
    let image = test_image(513, 513);
    assert_eq!(box_blur(&image, 513, 513, 4), box_blur_scalar_reference(&image, 513, 513, 4));
}

#[test]
fn blur_radius_is_capped_and_flat_images_stay_flat() {
    let image = test_image(60, 7);
    assert_eq!(box_blur(&image, 60, 7, 1_000), box_blur(&image, 60, 7, 24));
    let flat = vec![[10, 20, 30, 255]; 12];
    assert_eq!(box_blur(&flat, 4, 3, 2), flat);
    assert_eq!(box_blur(&Vec::new(), 0, 5, 3), Vec::<[u8; 4]>::new());
    let row = vec![[0, 0, 0, 0], [3, 0, 0, 0], [0, 0, 0, 0]];
    assert_eq!(box_blur(&row, 3, 1, 1)[1], [1, 0, 0, 0]);
    assert_eq!(box_blur(&row, 3, 1, 1)[0], [2, 0, 0, 0]);
}

#[test]
fn filter_stages_skip_work_that_changes_nothing() {
    let opaque = vec![[10u8, 20, 30, 255], [1, 2, 3, 255]];
    let translucent = vec![[10u8, 20, 30, 255], [1, 2, 3, 128]];
    assert!(is_fully_opaque(&opaque));
    assert!(!is_fully_opaque(&translucent));
    assert_eq!(
        filter_stages(&Vec::new(), 5, false),
        FilterStages { unchanged: true, blur_radius: 5, color_pass: false }
    );
    assert_eq!(
        filter_stages(&opaque, 0, true),
        FilterStages { unchanged: true, blur_radius: 0, color_pass: false }
    );
    assert_eq!(
        filter_stages(&opaque, 100, true),
        FilterStages { unchanged: false, blur_radius: 24, color_pass: false }
    );
    assert_eq!(
        filter_stages(&translucent, 3, true),
        FilterStages { unchanged: false, blur_radius: 3, color_pass: true }
    );
    assert_eq!(
        filter_stages(&opaque, 0, false),
        FilterStages { unchanged: false, blur_radius: 0, color_pass: true }
    );
}
