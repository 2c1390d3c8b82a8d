use curcat::transform::{
    flip_color_image_horizontal, flip_color_image_vertical, rotate_color_image_ccw,
    rotate_color_image_cw, ImageTransformOp, ImageTransformRecord, PixelImage,
};

fn test_image() -> PixelImage {
    PixelImage { size: [3, 2], pixels: vec![1, 2, 3, 4, 5, 6] }
}

#[test]
fn rotate_90_cw_maps_pixels() {
    let mut image = test_image();
    rotate_color_image_cw(&mut image);
    assert_eq!(image.size, [2, 3]);
    assert_eq!(image.pixels, vec![4, 1, 5, 2, 6, 3]);
}

#[test]
fn rotate_90_ccw_maps_pixels() {
    let mut image = test_image();
    rotate_color_image_ccw(&mut image);
    assert_eq!(image.size, [2, 3]);
    assert_eq!(image.pixels, vec![3, 6, 2, 5, 1, 4]);
}

#[test]
fn flip_horizontal_maps_pixels() {
    let mut image = test_image();
    flip_color_image_horizontal(&mut image);
    assert_eq!(image.size, [3, 2]);
    assert_eq!(image.pixels, vec![3, 2, 1, 6, 5, 4]);
}

#[test]
fn flip_vertical_maps_pixels() {
    let mut image = test_image();
    flip_color_image_vertical(&mut image);
    assert_eq!(image.size, [3, 2]);
    assert_eq!(image.pixels, vec![4, 5, 6, 1, 2, 3]);
}

#[test]
fn flips_match_pixel_mapping_and_reuse_storage() {
    for [width, height] in [[1, 1], [1, 7], [7, 1], [3, 5], [4, 6], [513, 513], [512, 512]] {
        let original = PixelImage {
            size: [width, height],
            pixels: (0..width * height).map(|index| u32::try_from(index % 251).unwrap()).collect(),
        };
        for horizontal in [false, true] {
            let mut image = original.clone();
            let storage = image.pixels.as_ptr();
            let flip = if horizontal {
                flip_color_image_horizontal
            } else {
                flip_color_image_vertical
            };
            flip(&mut image);
            assert_eq!(image.pixels.as_ptr(), storage);
            assert_eq!(image.size, original.size);
            for (index, pixel) in image.pixels.iter().enumerate() {
                let (x, y) = (index % width, index / width);
                let source = if horizontal {
                    y * width + width - 1 - x
                } else {
                    (height - 1 - y) * width + x
                };
                assert_eq!(*pixel, original.pixels[source]);
            }
            flip(&mut image);
            assert_eq!(image.pixels, original.pixels);
        }
    }
}

#[test]
fn rotations_cancel_on_pixels() {
    let mut image = test_image();
    rotate_color_image_cw(&mut image);
    rotate_color_image_ccw(&mut image);
    assert_eq!(image, test_image());
    let mut empty = PixelImage { size: [0, 4], pixels: vec![] };
    rotate_color_image_cw(&mut empty);
    assert_eq!(empty.size, [0, 4]);
}

#[test]
fn record_keeps_quarter_turns_modulo_four() {
    let mut r = ImageTransformRecord::identity();
    for _ in 0..5 {
        r.apply(ImageTransformOp::RotateCw);
    }
    assert_eq!(r.rotation_quarters, 1);
    assert!(!r.reflected);
    r.apply(ImageTransformOp::RotateCcw);
    assert_eq!(r, ImageTransformRecord::identity());
    r.apply(ImageTransformOp::FlipHorizontal);
    r.apply(ImageTransformOp::FlipHorizontal);
    assert_eq!(r, ImageTransformRecord::identity());
}

#[test]
fn replay_reproduces_every_record() {
    for quarters in 0..4u8 {
        for reflected in [false, true] {
            let target = ImageTransformRecord { rotation_quarters: quarters, reflected };
            let mut r = ImageTransformRecord::identity();
            for op in target.replay_operations() {
                r.apply(op);
            }
            assert_eq!(r, target);
        }
    }
}

#[test]
fn replay_of_reflected_quarter_turn_flips_first() {
    let target = ImageTransformRecord { rotation_quarters: 1, reflected: true };
    assert_eq!(
        target.replay_operations(),
        vec![ImageTransformOp::FlipHorizontal, ImageTransformOp::RotateCw]
    );
    let mut r = ImageTransformRecord::identity();
    for op in target.replay_operations() {
        r.apply(op);
    }
    assert_eq!(r, target);
}
