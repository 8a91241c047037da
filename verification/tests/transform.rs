use webcam_sharedtexture_core::frame::Frame;
use webcam_sharedtexture_core::transform::crop::crop;
use webcam_sharedtexture_core::transform::flip::flip;
use webcam_sharedtexture_core::transform::rotate::rotate;
use webcam_sharedtexture_core::transform::scale::{nearest_index, scale};
use webcam_sharedtexture_core::transform::{
    apply, unscaled_dims, CropRect, Flip, Rotation, ScaleSize, TransformConfig, TransformError,
};

fn sample_frame() -> Frame {
    let data = vec![
        10, 20, 30, 255, // (0,0)
        11, 21, 31, 255, // (1,0)
        12, 22, 32, 255, // (0,1)
        13, 23, 33, 255, // (1,1)
        14, 24, 34, 255, // (0,2)
        15, 25, 35, 255, // (1,2)
    ];
    Frame::new(2, 3, data).unwrap()
}

#[test]
fn rotation_defaults_to_r0() {
    assert_eq!(Rotation::default(), Rotation::R0);
}

#[test]
fn flip_defaults_to_keep() {
    assert_eq!(Flip::default(), Flip::Keep);
}

#[test]
fn transform_config_defaults_to_no_op() {
    let config = TransformConfig::default();
    assert_eq!(config.crop, None);
    assert_eq!(config.rotation, Rotation::R0);
    assert_eq!(config.flip, Flip::Keep);
    assert_eq!(config.scale, None);
}

#[test]
fn crops_the_requested_rect() {
    let frame = sample_frame();
    let rect = CropRect { width: 1, height: 2, x: 1, y: 1 };
    let result = crop(&frame, rect).unwrap();
    let expected = Frame::new(
        1,
        2,
        vec![
            13, 23, 33, 255, // (0,0) <- input (1,1)
            15, 25, 35, 255, // (0,1) <- input (1,2)
        ],
    )
    .unwrap();
    assert_eq!(result, expected);
}

#[test]
fn rejects_zero_size() {
    let frame = sample_frame();
    let rect = CropRect { width: 0, height: 1, x: 0, y: 0 };
    assert_eq!(crop(&frame, rect), Err(TransformError::CropZeroSize));
}

#[test]
fn rejects_rect_exceeding_bounds() {
    let frame = sample_frame();
    let rect = CropRect { width: 2, height: 1, x: 1, y: 2 };
    assert_eq!(
        crop(&frame, rect),
        Err(TransformError::CropOutOfBounds {
            width: 2,
            height: 1,
            x: 1,
            y: 2,
            frame_width: 2,
            frame_height: 3,
        })
    );
}

#[test]
fn keep_is_identity() {
    let frame = sample_frame();
    assert_eq!(flip(&frame, Flip::Keep), frame);
}

#[test]
fn horizontal_mirrors_columns() {
    let frame = sample_frame();
    let flipped = flip(&frame, Flip::Horizontal);
    let expected = Frame::new(
        2,
        3,
        vec![
            11, 21, 31, 255, // (0,0) <- input (1,0)
            10, 20, 30, 255, // (1,0) <- input (0,0)
            13, 23, 33, 255, // (0,1) <- input (1,1)
            12, 22, 32, 255, // (1,1) <- input (0,1)
            15, 25, 35, 255, // (0,2) <- input (1,2)
            14, 24, 34, 255, // (1,2) <- input (0,2)
        ],
    )
    .unwrap();
    assert_eq!(flipped, expected);
}

#[test]
fn vertical_mirrors_rows() {
    let frame = sample_frame();
    let flipped = flip(&frame, Flip::Vertical);
    let expected = Frame::new(
        2,
        3,
        vec![
            14, 24, 34, 255, // (0,0) <- input (0,2)
            15, 25, 35, 255, // (1,0) <- input (1,2)
            12, 22, 32, 255, // (0,1) <- input (0,1)
            13, 23, 33, 255, // (1,1) <- input (1,1)
            10, 20, 30, 255, // (0,2) <- input (0,0)
            11, 21, 31, 255, // (1,2) <- input (1,0)
        ],
    )
    .unwrap();
    assert_eq!(flipped, expected);
}

#[test]
fn both_mirrors_rows_and_columns() {
    let frame = sample_frame();
    let flipped = flip(&frame, Flip::Both);
    let expected = Frame::new(
        2,
        3,
        vec![
            15, 25, 35, 255, // (0,0) <- input (1,2)
            14, 24, 34, 255, // (1,0) <- input (0,2)
            13, 23, 33, 255, // (0,1) <- input (1,1)
            12, 22, 32, 255, // (1,1) <- input (0,1)
            11, 21, 31, 255, // (0,2) <- input (1,0)
            10, 20, 30, 255, // (1,2) <- input (0,0)
        ],
    )
    .unwrap();
    assert_eq!(flipped, expected);
}

#[test]
fn r0_is_identity() {
    let frame = sample_frame();
    assert_eq!(rotate(&frame, Rotation::R0), frame);
}

#[test]
fn r90_rotates_clockwise_and_swaps_dimensions() {
    let frame = sample_frame();
    let rotated = rotate(&frame, Rotation::R90);
    let expected = Frame::new(
        3,
        2,
        vec![
            14, 24, 34, 255, // (0,0) <- input (0,2)
            12, 22, 32, 255, // (1,0) <- input (0,1)
            10, 20, 30, 255, // (2,0) <- input (0,0)
            15, 25, 35, 255, // (0,1) <- input (1,2)
            13, 23, 33, 255, // (1,1) <- input (1,1)
            11, 21, 31, 255, // (2,1) <- input (1,0)
        ],
    )
    .unwrap();
    assert_eq!(rotated, expected);
    assert_eq!(rotated.width(), frame.height());
    assert_eq!(rotated.height(), frame.width());
}

#[test]
fn r180_reverses_both_axes() {
    let frame = sample_frame();
    let rotated = rotate(&frame, Rotation::R180);
    let expected = Frame::new(
        2,
        3,
        vec![
            15, 25, 35, 255, // (0,0) <- input (1,2)
            14, 24, 34, 255, // (1,0) <- input (0,2)
            13, 23, 33, 255, // (0,1) <- input (1,1)
            12, 22, 32, 255, // (1,1) <- input (0,1)
            11, 21, 31, 255, // (0,2) <- input (1,0)
            10, 20, 30, 255, // (1,2) <- input (0,0)
        ],
    )
    .unwrap();
    assert_eq!(rotated, expected);
}

#[test]
fn r270_rotates_counterclockwise_and_swaps_dimensions() {
    let frame = sample_frame();
    let rotated = rotate(&frame, Rotation::R270);
    let expected = Frame::new(
        3,
        2,
        vec![
            11, 21, 31, 255, // (0,0) <- input (1,0)
            13, 23, 33, 255, // (1,0) <- input (1,1)
            15, 25, 35, 255, // (2,0) <- input (1,2)
            10, 20, 30, 255, // (0,1) <- input (0,0)
            12, 22, 32, 255, // (1,1) <- input (0,1)
            14, 24, 34, 255, // (2,1) <- input (0,2)
        ],
    )
    .unwrap();
    assert_eq!(rotated, expected);
    assert_eq!(rotated.width(), frame.height());
    assert_eq!(rotated.height(), frame.width());
}

#[test]
fn exact_upscale_duplicates_pixels() {
    let frame = sample_frame();
    let result = scale(&frame, ScaleSize { width: 4, height: 6 }).unwrap();
    let a = [10, 20, 30, 255];
    let b = [11, 21, 31, 255];
    let c = [12, 22, 32, 255];
    let d = [13, 23, 33, 255];
    let e = [14, 24, 34, 255];
    let f = [15, 25, 35, 255];
    let expected_data = [
        a, a, b, b, // row0
        a, a, b, b, // row1
        c, c, d, d, // row2
        c, c, d, d, // row3
        e, e, f, f, // row4
        e, e, f, f, // row5
    ]
    .concat();
    let expected = Frame::new(4, 6, expected_data).unwrap();
    assert_eq!(result, expected);
}

#[test]
fn exact_downscale_picks_nearest_source_pixel() {
    let frame = sample_frame();
    let result = scale(&frame, ScaleSize { width: 1, height: 2 }).unwrap();
    let expected = Frame::new(1, 2, vec![10, 20, 30, 255, 12, 22, 32, 255]).unwrap();
    assert_eq!(result, expected);
}

#[test]
fn scale_to_zero_size_is_refused() {
    let frame = sample_frame();
    assert_eq!(
        scale(&frame, ScaleSize { width: 0, height: 3 }),
        Err(TransformError::ScaleToZero { width: 0, height: 3 })
    );
}

#[test]
fn nearest_index_maps_destination_to_source() {
    assert_eq!(nearest_index(0, 4, 2), 0);
    assert_eq!(nearest_index(1, 4, 2), 0);
    assert_eq!(nearest_index(2, 4, 2), 1);
    assert_eq!(nearest_index(3, 4, 2), 1);
    assert_eq!(nearest_index(1, 2, 3), 1);
}

#[test]
fn apply_crops_then_rotates_then_flips_then_scales() {
    let frame = sample_frame();
    let config = TransformConfig {
        crop: Some(CropRect { width: 2, height: 2, x: 0, y: 1 }),
        rotation: Rotation::R90,
        flip: Flip::Horizontal,
        scale: Some(ScaleSize { width: 4, height: 2 }),
    };
    let result = apply(&frame, &config).unwrap();
    // crop -> [C D / E F]; rotate 90 -> [E C / F D]; mirror -> [C E / D F];
    // scale to 4x2 doubles each column.
    let c = [12, 22, 32, 255];
    let d = [13, 23, 33, 255];
    let e = [14, 24, 34, 255];
    let f = [15, 25, 35, 255];
    let expected = Frame::new(4, 2, [c, c, e, e, d, d, f, f].concat()).unwrap();
    assert_eq!(result, expected);
}

#[test]
fn apply_default_config_keeps_the_frame() {
    let frame = sample_frame();
    assert_eq!(apply(&frame, &TransformConfig::default()).unwrap(), frame);
}

#[test]
fn apply_reports_a_crop_error() {
    let frame = sample_frame();
    let config = TransformConfig {
        crop: Some(CropRect { width: 3, height: 1, x: 0, y: 0 }),
        ..TransformConfig::default()
    };
    assert_eq!(
        apply(&frame, &config),
        Err(TransformError::CropOutOfBounds {
            width: 3,
            height: 1,
            x: 0,
            y: 0,
            frame_width: 2,
            frame_height: 3,
        })
    );
}

#[test]
fn rotating_four_quarter_turns_restores_the_frame() {
    let frame = sample_frame();
    let mut turned = frame.clone();
    for _ in 0..4 {
        turned = rotate(&turned, Rotation::R90);
    }
    assert_eq!(turned, frame);
}

#[test]
fn flipping_twice_restores_the_frame() {
    let frame = sample_frame();
    for direction in [Flip::Keep, Flip::Horizontal, Flip::Vertical, Flip::Both] {
        assert_eq!(flip(&flip(&frame, direction), direction), frame);
    }
}

#[test]
fn transform_error_messages_have_exact_text() {
    assert_eq!(TransformError::CropZeroSize.message(), "crop dimensions must be non-zero");
    assert_eq!(
        TransformError::CropOutOfBounds {
            width: 2,
            height: 1,
            x: 1,
            y: 2,
            frame_width: 2,
            frame_height: 3
        }
        .message(),
        "crop rect 2x1+1+2 exceeds frame bounds 2x3"
    );
    assert_eq!(
        TransformError::ScaleToZero { width: 0, height: 5 }.message(),
        "scale result must be non-zero (got 0x5)"
    );
}

#[test]
fn unscaled_dims_follow_crop_and_rotation() {
    let config = TransformConfig {
        crop: Some(CropRect { width: 4, height: 2, x: 0, y: 0 }),
        rotation: Rotation::R90,
        ..TransformConfig::default()
    };
    assert_eq!(unscaled_dims(10, 20, &config), (2, 4));
    assert_eq!(
        unscaled_dims(10, 20, &TransformConfig::default()),
        (10, 20)
    );
}

#[test]
fn quarter_turns_either_way_cancel() {
    let frame = sample_frame();
    assert_eq!(rotate(&rotate(&frame, Rotation::R90), Rotation::R270), frame);
    assert_eq!(rotate(&rotate(&frame, Rotation::R270), Rotation::R90), frame);
}

#[test]
fn half_turn_is_two_quarter_turns_and_a_double_flip() {
    let frame = sample_frame();
    let half = rotate(&frame, Rotation::R180);
    assert_eq!(rotate(&rotate(&frame, Rotation::R90), Rotation::R90), half);
    assert_eq!(flip(&frame, Flip::Both), half);
}

#[test]
fn cropping_the_whole_frame_keeps_it() {
    let frame = sample_frame();
    assert_eq!(crop(&frame, CropRect { width: 2, height: 3, x: 0, y: 0 }).unwrap(), frame);
}

#[test]
fn scaling_to_the_same_size_keeps_the_frame() {
    let frame = sample_frame();
    assert_eq!(scale(&frame, ScaleSize { width: 2, height: 3 }).unwrap(), frame);
}
