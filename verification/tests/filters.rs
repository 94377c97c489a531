//! Tests for the geometric and tonal transforms: flips, rotations, crop and
//! brightness, including the boundary-dimension cases for non-square images.

use pixlab::brightness;
use pixlab::crop;
use pixlab::errors::TransformError;
use pixlab::flip;
use pixlab::rotate;

#[test]
fn test_horizontal_flip() {
    // 2x1 RGBA image: [Red][Blue]
    let data = vec![
        255, 0, 0, 255, // Red
        0, 0, 255, 255, // Blue
    ];

    let result = flip::apply_horizontal(&data, 2, 1);
    assert!(result.is_ok());

    let output = result.unwrap();
    // Should be: [Blue][Red]
    assert_eq!(&output[0..4], &[0, 0, 255, 255]); // Blue
    assert_eq!(&output[4..8], &[255, 0, 0, 255]); // Red
}

#[test]
fn test_vertical_flip() {
    // 1x2 RGBA image: [Red] on top, [Blue] on bottom
    let data = vec![
        255, 0, 0, 255, // Red
        0, 0, 255, 255, // Blue
    ];

    let result = flip::apply_vertical(&data, 1, 2);
    assert!(result.is_ok());

    let output = result.unwrap();
    // Should be: [Blue] on top, [Red] on bottom
    assert_eq!(&output[0..4], &[0, 0, 255, 255]); // Blue
    assert_eq!(&output[4..8], &[255, 0, 0, 255]); // Red
}

#[test]
fn test_horizontal_flip_2x2() {
    // 2x2 RGBA image:
    // [R][G]
    // [B][Y]
    let data = vec![
        255, 0, 0, 255, // R
        0, 255, 0, 255, // G
        0, 0, 255, 255, // B
        255, 255, 0, 255, // Y (yellow)
    ];

    let result = flip::apply_horizontal(&data, 2, 2);
    assert!(result.is_ok());

    let output = result.unwrap();
    // Should be:
    // [G][R]
    // [Y][B]
    assert_eq!(&output[0..4], &[0, 255, 0, 255]); // G
    assert_eq!(&output[4..8], &[255, 0, 0, 255]); // R
    assert_eq!(&output[8..12], &[255, 255, 0, 255]); // Y
    assert_eq!(&output[12..16], &[0, 0, 255, 255]); // B
}

#[test]
fn flip_test_invalid_dimensions() {
    let data = vec![255, 0, 0, 255];
    let result = flip::apply_horizontal(&data, 2, 2); // Wrong dimensions
    assert!(result.is_err());

    let result = flip::apply_vertical(&data, 2, 2); // Wrong dimensions
    assert!(result.is_err());
}

#[test]
fn test_rotate_90_cw() {
    // 2x1 RGBA image: [Red][Blue]
    let data = vec![
        255, 0, 0, 255, // Red
        0, 0, 255, 255, // Blue
    ];

    let result = rotate::rotate_90_cw(&data, 2, 1);
    assert!(result.is_ok());

    let output = result.unwrap();
    // After 90 CW rotation, becomes 1x2 (height x width):
    // [Blue]
    // [Red]
    assert_eq!(&output[0..4], &[0, 0, 255, 255]); // Blue
    assert_eq!(&output[4..8], &[255, 0, 0, 255]); // Red
}

#[test]
fn test_rotate_180() {
    // 2x1 RGBA image: [Red][Blue]
    let data = vec![
        255, 0, 0, 255, // Red
        0, 0, 255, 255, // Blue
    ];

    let result = rotate::rotate_180(&data, 2, 1);
    assert!(result.is_ok());

    let output = result.unwrap();
    // After 180 rotation: [Blue][Red]
    assert_eq!(&output[0..4], &[0, 0, 255, 255]); // Blue
    assert_eq!(&output[4..8], &[255, 0, 0, 255]); // Red
}

#[test]
fn test_rotate_270_cw() {
    // 2x1 RGBA image: [Red][Blue]
    let data = vec![
        255, 0, 0, 255, // Red
        0, 0, 255, 255, // Blue
    ];

    let result = rotate::rotate_270_cw(&data, 2, 1);
    assert!(result.is_ok());

    let output = result.unwrap();
    // After 270 CW (= 90 CCW), becomes 1x2:
    // [Red]
    // [Blue]
    assert_eq!(&output[0..4], &[255, 0, 0, 255]); // Red
    assert_eq!(&output[4..8], &[0, 0, 255, 255]); // Blue
}

#[test]
fn test_rotate_2x2() {
    // 2x2 RGBA image:
    // [R][G]
    // [B][Y]
    let data = vec![
        255, 0, 0, 255, // R (0,0)
        0, 255, 0, 255, // G (1,0)
        0, 0, 255, 255, // B (0,1)
        255, 255, 0, 255, // Y (1,1)
    ];

    // 90 CW, per the engine's mapping (x, y) -> (y, width - 1 - x):
    // [G][Y]
    // [R][B]
    let result = rotate::rotate_90_cw(&data, 2, 2);
    assert!(result.is_ok());
    let output = result.unwrap();
    assert_eq!(&output[0..4], &[0, 255, 0, 255]); // G
    assert_eq!(&output[4..8], &[255, 255, 0, 255]); // Y
    assert_eq!(&output[8..12], &[255, 0, 0, 255]); // R
    assert_eq!(&output[12..16], &[0, 0, 255, 255]); // B

    // 180:
    // [Y][B]
    // [G][R]
    let result = rotate::rotate_180(&data, 2, 2);
    assert!(result.is_ok());
    let output = result.unwrap();
    assert_eq!(&output[0..4], &[255, 255, 0, 255]); // Y
    assert_eq!(&output[4..8], &[0, 0, 255, 255]); // B
    assert_eq!(&output[8..12], &[0, 255, 0, 255]); // G
    assert_eq!(&output[12..16], &[255, 0, 0, 255]); // R
}

#[test]
fn rotate_test_invalid_dimensions() {
    let data = vec![255, 0, 0, 255];
    let result = rotate::rotate_90_cw(&data, 2, 2); // Wrong dimensions
    assert!(result.is_err());

    let result = rotate::rotate_180(&data, 2, 2);
    assert!(result.is_err());

    let result = rotate::rotate_270_cw(&data, 2, 2);
    assert!(result.is_err());
}

#[test]
fn test_crop_basic() {
    // 4x4 image, crop to 2x2 at (1, 1)
    // R G B W
    // Y M C K
    // r g b w
    // y m c k
    let data = vec![
        255, 0, 0, 255, 0, 255, 0, 255, 0, 0, 255, 255, 255, 255, 255, 255, // Row 0
        255, 255, 0, 255, 255, 0, 255, 255, 0, 255, 255, 255, 0, 0, 0, 255, // Row 1
        128, 0, 0, 255, 0, 128, 0, 255, 0, 0, 128, 255, 128, 128, 128, 255, // Row 2
        128, 128, 0, 255, 128, 0, 128, 255, 0, 128, 128, 255, 0, 0, 0, 255, // Row 3
    ];

    let result = crop::apply(&data, 4, 4, 1, 1, 2, 2);
    assert!(result.is_ok());

    let output = result.unwrap();
    // Should extract:
    // M C
    // g b
    assert_eq!(output.len(), 2 * 2 * 4);

    // M (Magenta)
    assert_eq!(&output[0..4], &[255, 0, 255, 255]);
    // C (Cyan)
    assert_eq!(&output[4..8], &[0, 255, 255, 255]);
    // g (dark green)
    assert_eq!(&output[8..12], &[0, 128, 0, 255]);
    // b (dark blue)
    assert_eq!(&output[12..16], &[0, 0, 128, 255]);
}

#[test]
fn test_crop_full_image() {
    // Crop entire image (should be identity operation)
    let data = vec![
        255, 0, 0, 255, 0, 255, 0, 255, 0, 0, 255, 255, 255, 255, 255, 255,
    ];

    let result = crop::apply(&data, 2, 2, 0, 0, 2, 2);
    assert!(result.is_ok());

    let output = result.unwrap();
    assert_eq!(output, data);
}

#[test]
fn test_crop_single_pixel() {
    let data = vec![
        255, 0, 0, 255, 0, 255, 0, 255, 0, 0, 255, 255, 255, 255, 255, 255,
    ];

    let result = crop::apply(&data, 2, 2, 1, 1, 1, 1);
    assert!(result.is_ok());

    let output = result.unwrap();
    assert_eq!(output.len(), 4);
    assert_eq!(&output[..], &[255, 255, 255, 255]); // White pixel
}

#[test]
fn test_crop_out_of_bounds_x() {
    let data = vec![255, 0, 0, 255, 0, 255, 0, 255];
    let result = crop::apply(&data, 2, 1, 1, 0, 2, 1); // x=1, width=2 exceeds 2
    assert!(result.is_err());
    assert!(result.unwrap_err().message().contains("exceeds image width"));
}

#[test]
fn test_crop_out_of_bounds_y() {
    let data = vec![255, 0, 0, 255, 0, 255, 0, 255];
    let result = crop::apply(&data, 1, 2, 0, 1, 1, 2); // y=1, height=2 exceeds 2
    assert!(result.is_err());
    assert!(result.unwrap_err().message().contains("exceeds image height"));
}

#[test]
fn test_crop_zero_dimensions() {
    let data = vec![255, 0, 0, 255];
    let result = crop::apply(&data, 1, 1, 0, 0, 0, 1);
    assert!(result.is_err());
    assert!(result.unwrap_err().message().contains("must be non-zero"));
}

#[test]
fn test_invalid_data_length() {
    let data = vec![255, 0, 0]; // Only 3 bytes instead of 4
    let result = crop::apply(&data, 1, 1, 0, 0, 1, 1);
    assert!(result.is_err());
    assert!(result
        .unwrap_err()
        .message()
        .contains("Invalid image data length"));
}

#[test]
fn test_brightness_increase() {
    // 2x2 RGBA image with dark pixels
    let data = vec![
        50, 50, 50, 255, // Dark gray
        100, 100, 100, 255, // Medium gray
        150, 150, 150, 255, // Light gray
        200, 200, 200, 255, // Very light gray
    ];

    let result = brightness::apply(&data, 2, 2, 50);
    assert!(result.is_ok());

    let output = result.unwrap();
    assert_eq!(output.len(), data.len());

    // First pixel should be brighter (50 + 50 = 100)
    assert_eq!(output[0], 100);
    assert_eq!(output[1], 100);
    assert_eq!(output[2], 100);
    assert_eq!(output[3], 255); // Alpha unchanged
}

#[test]
fn test_brightness_decrease() {
    let data = vec![200, 200, 200, 255];
    let result = brightness::apply(&data, 1, 1, -100);

    assert!(result.is_ok());
    let output = result.unwrap();

    // Should be darker (200 - 100 = 100)
    assert_eq!(output[0], 100);
    assert_eq!(output[1], 100);
    assert_eq!(output[2], 100);
}

#[test]
fn test_brightness_clamping() {
    // Test upper clamp
    let bright = vec![250, 250, 250, 255];
    let result = brightness::apply(&bright, 1, 1, 100);
    assert!(result.is_ok());
    let output = result.unwrap();
    assert_eq!(output[0], 255); // Clamped to 255

    // Test lower clamp
    let dark = vec![10, 10, 10, 255];
    let result = brightness::apply(&dark, 1, 1, -100);
    assert!(result.is_ok());
    let output = result.unwrap();
    assert_eq!(output[0], 0); // Clamped to 0
}

#[test]
fn brightness_test_invalid_dimensions() {
    let data = vec![255, 0, 0, 255];
    let result = brightness::apply(&data, 2, 2, 0); // Wrong dimensions
    assert!(result.is_err());
}

#[test]
fn test_flip_single_row_and_column() {
    // Boundary dimensions: a horizontal flip mirrors a single row and
    // leaves a single column untouched; a vertical flip does the converse.
    let a = [1, 2, 3, 4];
    let b = [5, 6, 7, 8];
    let row: Vec<u8> = [a, b].concat();
    assert_eq!(flip::apply_horizontal(&row, 2, 1).unwrap(), [b, a].concat());
    assert_eq!(flip::apply_vertical(&row, 2, 1).unwrap(), row);

    let column: Vec<u8> = [a, b].concat();
    assert_eq!(flip::apply_horizontal(&column, 1, 2).unwrap(), column);
    assert_eq!(
        flip::apply_vertical(&column, 1, 2).unwrap(),
        [b, a].concat()
    );
}

#[test]
fn test_rotate_column_all_angles() {
    // 1x3 column [A][B][C]: boundary-dimension case for every angle.
    let a = [10, 11, 12, 255];
    let b = [20, 21, 22, 255];
    let c = [30, 31, 32, 255];
    let data: Vec<u8> = [a, b, c].concat();

    // 90 CW: input (0, y) lands at output column y of a 3x1 row.
    let out = rotate::rotate_90_cw(&data, 1, 3).unwrap();
    assert_eq!(out, [a, b, c].concat());

    // 180: the column reversed.
    let out = rotate::rotate_180(&data, 1, 3).unwrap();
    assert_eq!(out, [c, b, a].concat());

    // 270 CW: input (0, y) lands at output column 2 - y of a 3x1 row.
    let out = rotate::rotate_270_cw(&data, 1, 3).unwrap();
    assert_eq!(out, [c, b, a].concat());
}

#[test]
fn test_rotate_row_all_angles() {
    // 3x1 row [A][B][C]: boundary-dimension case for every angle.
    let a = [10, 11, 12, 255];
    let b = [20, 21, 22, 255];
    let c = [30, 31, 32, 255];
    let data: Vec<u8> = [a, b, c].concat();

    // 90 CW: input (x, 0) lands at output row 2 - x of a 1x3 column.
    let out = rotate::rotate_90_cw(&data, 3, 1).unwrap();
    assert_eq!(out, [c, b, a].concat());

    // 180: the row reversed.
    let out = rotate::rotate_180(&data, 3, 1).unwrap();
    assert_eq!(out, [c, b, a].concat());

    // 270 CW: input (x, 0) lands at output row x of a 1x3 column.
    let out = rotate::rotate_270_cw(&data, 3, 1).unwrap();
    assert_eq!(out, [a, b, c].concat());
}

#[test]
fn test_flip_round_trips() {
    // Flipping twice, either way, returns the original bytes.
    let data = vec![
        1, 2, 3, 4, 5, 6, 7, 8, 9, 10, 11, 12, // Row 0
        13, 14, 15, 16, 17, 18, 19, 20, 21, 22, 23, 24, // Row 1
    ];
    let once = flip::apply_horizontal(&data, 3, 2).unwrap();
    let twice = flip::apply_horizontal(&once, 3, 2).unwrap();
    assert_eq!(twice, data);

    let once = flip::apply_vertical(&data, 3, 2).unwrap();
    let twice = flip::apply_vertical(&once, 3, 2).unwrap();
    assert_eq!(twice, data);
}

#[test]
fn test_rotation_group() {
    // Four 90-degree rotations return the original; 180 equals two 90s;
    // 270 equals three 90s. 3x2, so dimensions swap along the way.
    let data: Vec<u8> = (0u8..24).collect();
    let r1 = rotate::rotate_90_cw(&data, 3, 2).unwrap();
    let r2 = rotate::rotate_90_cw(&r1, 2, 3).unwrap();
    let r3 = rotate::rotate_90_cw(&r2, 3, 2).unwrap();
    let r4 = rotate::rotate_90_cw(&r3, 2, 3).unwrap();
    assert_eq!(r4, data);

    assert_eq!(rotate::rotate_180(&data, 3, 2).unwrap(), r2);
    assert_eq!(rotate::rotate_270_cw(&data, 3, 2).unwrap(), r3);
}

#[test]
fn test_crop_composes() {
    // Cropping twice equals one crop of the composed rectangle.
    let data: Vec<u8> = (0u8..64).collect(); // 4x4 image
    let inner = crop::apply(&data, 4, 4, 1, 1, 3, 3).unwrap();
    let twice = crop::apply(&inner, 3, 3, 0, 1, 2, 2).unwrap();
    let once = crop::apply(&data, 4, 4, 1, 2, 2, 2).unwrap();
    assert_eq!(twice, once);
}

#[test]
fn test_brightness_monotone_and_alpha() {
    let data = vec![0, 7, 128, 3, 254, 255, 1, 200];
    let up = brightness::apply(&data, 2, 1, 9).unwrap();
    let down = brightness::apply(&data, 2, 1, -9).unwrap();
    for i in 0..data.len() {
        if i % 4 == 3 {
            assert_eq!(up[i], data[i]); // Alpha preserved
            assert_eq!(down[i], data[i]);
        } else {
            assert!(up[i] >= data[i]);
            assert!(down[i] <= data[i]);
        }
    }
}

#[test]
fn test_brightness_out_of_range_adjustment_clamped() {
    // Adjustments outside -255..=255 are silently clamped, not rejected.
    let data = vec![100, 100, 100, 42];
    let out = brightness::apply(&data, 1, 1, 1000).unwrap();
    assert_eq!(out, vec![255, 255, 255, 42]);
    let out = brightness::apply(&data, 1, 1, -1000).unwrap();
    assert_eq!(out, vec![0, 0, 0, 42]);
}

#[test]
fn test_length_mismatch_exact_pair() {
    // Every operation that declares dimensions reports the exact
    // (expected, actual) pair on a length mismatch.
    let data = vec![255, 0, 0, 255];
    let expected_err = TransformError::LengthMismatch {
        expected: 16,
        actual: 4,
    };
    assert_eq!(
        flip::apply_horizontal(&data, 2, 2).unwrap_err(),
        expected_err
    );
    assert_eq!(flip::apply_vertical(&data, 2, 2).unwrap_err(), expected_err);
    assert_eq!(rotate::rotate_90_cw(&data, 2, 2).unwrap_err(), expected_err);
    assert_eq!(rotate::rotate_180(&data, 2, 2).unwrap_err(), expected_err);
    assert_eq!(
        rotate::rotate_270_cw(&data, 2, 2).unwrap_err(),
        expected_err
    );
    assert_eq!(
        crop::apply(&data, 2, 2, 0, 0, 1, 1).unwrap_err(),
        expected_err
    );
    assert_eq!(brightness::apply(&data, 2, 2, 1).unwrap_err(), expected_err);
}

#[test]
fn test_crop_error_variants() {
    let data = vec![255, 0, 0, 255, 0, 255, 0, 255];
    assert_eq!(
        crop::apply(&data, 2, 1, 1, 0, 2, 1).unwrap_err(),
        TransformError::OutOfBoundsWidth
    );
    assert_eq!(
        crop::apply(&data, 2, 1, 0, 1, 1, 1).unwrap_err(),
        TransformError::OutOfBoundsHeight
    );
    assert_eq!(
        crop::apply(&data, 2, 1, 0, 0, 0, 1).unwrap_err(),
        TransformError::ZeroDimension
    );
    // The width check is reported first when several violations coexist.
    assert_eq!(
        crop::apply(&data, 2, 1, 2, 1, 1, 0).unwrap_err(),
        TransformError::OutOfBoundsWidth
    );
}
