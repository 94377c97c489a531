//! Tests for the operations that delegate to the external image-processing
//! and image-decoding libraries: blur, grayscale, and the metadata probe.

use pixlab::blur;
use pixlab::errors::TransformError;
use pixlab::grayscale;
use pixlab::metadata;

#[test]
fn test_blur() {
    // Simple 2x2 RGBA image
    let data = vec![
        255, 0, 0, 255, 0, 0, 255, 255, 0, 255, 0, 255, 255, 255, 255, 255,
    ];

    let result = blur::apply(&data, 2, 2, 2);
    assert!(result.is_ok());
    assert_eq!(result.unwrap().len(), data.len());
}

#[test]
fn test_blur_invalid_radius() {
    let data = vec![255, 0, 0, 255];
    let result = blur::apply(&data, 1, 1, -1);
    assert!(result.is_err());
}

#[test]
fn test_blur_zero_radius() {
    // A radius of zero is rejected before the delegate is invoked.
    let data = vec![255, 0, 0, 255];
    assert_eq!(
        blur::apply(&data, 1, 1, 0).unwrap_err(),
        TransformError::InvalidRadius
    );
}

#[test]
fn test_blur_length_mismatch() {
    let data = vec![255, 0, 0, 255];
    assert_eq!(
        blur::apply(&data, 2, 2, 1).unwrap_err(),
        TransformError::LengthMismatch {
            expected: 16,
            actual: 4
        }
    );
}

#[test]
fn test_blur_rejects_single_pixel_image() {
    // The delegate indexes rows two pixels deep; a 1x1 image is refused as
    // a delegate failure instead of being handed over.
    let data = vec![255, 0, 0, 255];
    let err = blur::apply(&data, 1, 1, 1).unwrap_err();
    assert!(matches!(err, TransformError::DelegateFailure(_)));
    assert_eq!(
        err.message(),
        "Image dimensions not supported by the blur delegate"
    );
}

#[test]
fn test_blur_spreads_values() {
    // A single bright pixel on black must leak into its neighbourhood:
    // the output differs from the input but keeps its length.
    let mut data = vec![0u8; 6 * 6 * 4];
    let center = (2 * 6 + 2) * 4;
    data[center] = 255;
    data[center + 1] = 255;
    data[center + 2] = 255;
    for p in 0..36 {
        data[p * 4 + 3] = 255;
    }
    let out = blur::apply(&data, 6, 6, 2).unwrap();
    assert_eq!(out.len(), data.len());
    assert_ne!(out, data);
}

#[test]
fn test_grayscale() {
    // Simple 2x2 RGBA image (red and blue pixels)
    let data = vec![
        255, 0, 0, 255, // Red
        0, 0, 255, 255, // Blue
        0, 255, 0, 255, // Green
        255, 255, 255, 255, // White
    ];

    let result = grayscale::apply(&data, 2, 2);
    assert!(result.is_ok());
    assert_eq!(result.unwrap().len(), data.len());
}

#[test]
fn test_grayscale_values() {
    // The delegate averages the colour channels: a pure red pixel becomes
    // the gray (85, 85, 85); alpha is untouched.
    let data = vec![255, 0, 0, 200];
    let out = grayscale::apply(&data, 1, 1).unwrap();
    assert_eq!(out, vec![85, 85, 85, 200]);
}

#[test]
fn test_grayscale_length_mismatch() {
    let data = vec![255, 0, 0, 255];
    assert_eq!(
        grayscale::apply(&data, 2, 2).unwrap_err(),
        TransformError::LengthMismatch {
            expected: 16,
            actual: 4
        }
    );
}

#[test]
fn test_metadata_empty_body() {
    let m = metadata::inspect_image(&[], "GET", "/");
    assert_eq!(m.size_bytes, 0);
    assert_eq!(m.format, "none");
    assert_eq!(m.width, None);
    assert_eq!(m.height, None);
    assert_eq!(m.message, "Received 0 bytes - Method: GET, Path: /");
}

#[test]
fn test_metadata_unknown_bytes() {
    // Arbitrary bytes are still answered, with an unknown format and no
    // dimensions; decode failure is not an error.
    let body = vec![1, 2, 3, 4, 5];
    let m = metadata::inspect_image(&body, "POST", "/analyze");
    assert_eq!(m.size_bytes, 5);
    assert_eq!(m.format, "unknown");
    assert_eq!(m.width, None);
    assert_eq!(m.height, None);
    assert_eq!(m.message, "Received 5 bytes - Method: POST, Path: /analyze");
}

#[test]
fn test_metadata_png_body() {
    // A real PNG is recognised and its dimensions reported.
    let img = image::RgbaImage::from_raw(2, 3, vec![9u8; 2 * 3 * 4]).unwrap();
    let mut cursor = std::io::Cursor::new(Vec::new());
    img.write_to(&mut cursor, image::ImageFormat::Png).unwrap();
    let body = cursor.into_inner();

    let m = metadata::inspect_image(&body, "POST", "/analyze");
    assert_eq!(m.size_bytes, body.len());
    assert_eq!(m.format, "png");
    assert_eq!(m.width, Some(2));
    assert_eq!(m.height, Some(3));
}

#[test]
fn test_metadata_truncated_png() {
    // The PNG magic alone names the format, but decoding fails, so the
    // dimensions stay empty.
    let body = vec![0x89, b'P', b'N', b'G', 0x0D, 0x0A, 0x1A, 0x0A];
    let m = metadata::inspect_image(&body, "PUT", "/x");
    assert_eq!(m.format, "png");
    assert_eq!(m.width, None);
    assert_eq!(m.height, None);
}
