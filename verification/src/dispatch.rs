//! The single entry surface each operation is exposed through. Every
//! internal error becomes one tagged boundary error carrying the original
//! message behind an operation-specific prefix; nothing here ever panics
//! past the boundary.

use vstd::prelude::*;
use vstd::string::StringExecFns;
use crate::blur;
use crate::brightness;
use crate::errors::TransformError;
use crate::flip;
use crate::grayscale;
use crate::pixel::{
    clamp_adjustment, expected_len, is_brightness, is_flip_horizontal, is_flip_vertical,
    is_rotate_180, is_rotate_270, is_rotate_90,
};
use crate::rotate;
use crate::validate::length_error;

verus! {

/// The one tagged error type that crosses the host boundary: a
/// human-readable message naming the operation and the violated
/// precondition.
#[derive(Debug)]
pub struct BoundaryError {
    pub message: String,
}

/// Wraps an internal error for the host, prefixing the operation's name.
fn boundary(prefix: &str, e: &TransformError) -> (b: BoundaryError)
    ensures
        b.message@ == prefix@ + e.message_spec(),
{
    let mut message = String::new();
    message.append(prefix);
    let m = e.message();
    message.append(m.as_str());
    BoundaryError { message }
}

/// Converts the image to grayscale; errors are tagged for the host.
pub fn apply_grayscale(image_data: &[u8], width: u32, height: u32) -> (r: Result<
    Vec<u8>,
    BoundaryError,
>)
    ensures
        r is Ok <==> image_data@.len() == expected_len(width as nat, height as nat),
        r matches Ok(out) ==> out@.len() == image_data@.len(),
        r matches Err(b) ==> b.message@ == "Grayscale error: "@ + length_error(
            width as nat,
            height as nat,
            image_data@.len(),
        ).message_spec(),
{
    match grayscale::apply(image_data, width, height) {
        Ok(v) => Ok(v),
        Err(e) => Err(boundary("Grayscale error: ", &e)),
    }
}

/// Applies a Gaussian blur; errors are tagged for the host.
pub fn apply_blur(image_data: &[u8], width: u32, height: u32, radius: i32) -> (r: Result<
    Vec<u8>,
    BoundaryError,
>)
    ensures
        r is Ok <==> (radius >= 1 && image_data@.len() == expected_len(
            width as nat,
            height as nat,
        ) && blur::blur_supported(width as nat, height as nat)),
        r matches Ok(out) ==> out@.len() == image_data@.len(),
        radius <= 0 ==> (r matches Err(b) && b.message@ == "Blur error: "@
            + TransformError::InvalidRadius.message_spec()),
        radius >= 1 && image_data@.len() != expected_len(width as nat, height as nat) ==> (
        r matches Err(b) && b.message@ == "Blur error: "@ + length_error(
            width as nat,
            height as nat,
            image_data@.len(),
        ).message_spec()),
{
    match blur::apply(image_data, width, height, radius) {
        Ok(v) => Ok(v),
        Err(e) => Err(boundary("Blur error: ", &e)),
    }
}

/// Adjusts brightness; errors are tagged for the host.
pub fn apply_brightness(image_data: &[u8], width: u32, height: u32, adjustment: i32) -> (r: Result<
    Vec<u8>,
    BoundaryError,
>)
    ensures
        r is Ok <==> image_data@.len() == expected_len(width as nat, height as nat),
        r matches Ok(out) ==> is_brightness(
            image_data@,
            out@,
            clamp_adjustment(adjustment as int),
        ),
        r matches Err(b) ==> b.message@ == "Brightness error: "@ + length_error(
            width as nat,
            height as nat,
            image_data@.len(),
        ).message_spec(),
{
    match brightness::apply(image_data, width, height, adjustment) {
        Ok(v) => Ok(v),
        Err(e) => Err(boundary("Brightness error: ", &e)),
    }
}

/// Flips the image left-right; errors are tagged for the host.
pub fn apply_flip_horizontal(image_data: &[u8], width: u32, height: u32) -> (r: Result<
    Vec<u8>,
    BoundaryError,
>)
    ensures
        r is Ok <==> image_data@.len() == expected_len(width as nat, height as nat),
        r matches Ok(out) ==> is_flip_horizontal(image_data@, out@, width as nat, height as nat),
        r matches Err(b) ==> b.message@ == "Horizontal flip error: "@ + length_error(
            width as nat,
            height as nat,
            image_data@.len(),
        ).message_spec(),
{
    match flip::apply_horizontal(image_data, width, height) {
        Ok(v) => Ok(v),
        Err(e) => Err(boundary("Horizontal flip error: ", &e)),
    }
}

/// Flips the image top-bottom; errors are tagged for the host.
pub fn apply_flip_vertical(image_data: &[u8], width: u32, height: u32) -> (r: Result<
    Vec<u8>,
    BoundaryError,
>)
    ensures
        r is Ok <==> image_data@.len() == expected_len(width as nat, height as nat),
        r matches Ok(out) ==> is_flip_vertical(image_data@, out@, width as nat, height as nat),
        r matches Err(b) ==> b.message@ == "Vertical flip error: "@ + length_error(
            width as nat,
            height as nat,
            image_data@.len(),
        ).message_spec(),
{
    match flip::apply_vertical(image_data, width, height) {
        Ok(v) => Ok(v),
        Err(e) => Err(boundary("Vertical flip error: ", &e)),
    }
}

/// Rotates the image 90 degrees clockwise; errors are tagged for the host.
pub fn apply_rotate_90_cw(image_data: &[u8], width: u32, height: u32) -> (r: Result<
    Vec<u8>,
    BoundaryError,
>)
    ensures
        r is Ok <==> image_data@.len() == expected_len(width as nat, height as nat),
        r matches Ok(out) ==> is_rotate_90(image_data@, out@, width as nat, height as nat),
        r matches Err(b) ==> b.message@ == "Rotate 90 error: "@ + length_error(
            width as nat,
            height as nat,
            image_data@.len(),
        ).message_spec(),
{
    match rotate::rotate_90_cw(image_data, width, height) {
        Ok(v) => Ok(v),
        Err(e) => Err(boundary("Rotate 90 error: ", &e)),
    }
}

/// Rotates the image 180 degrees; errors are tagged for the host.
pub fn apply_rotate_180(image_data: &[u8], width: u32, height: u32) -> (r: Result<
    Vec<u8>,
    BoundaryError,
>)
    ensures
        r is Ok <==> image_data@.len() == expected_len(width as nat, height as nat),
        r matches Ok(out) ==> is_rotate_180(image_data@, out@, width as nat, height as nat),
        r matches Err(b) ==> b.message@ == "Rotate 180 error: "@ + length_error(
            width as nat,
            height as nat,
            image_data@.len(),
        ).message_spec(),
{
    match rotate::rotate_180(image_data, width, height) {
        Ok(v) => Ok(v),
        Err(e) => Err(boundary("Rotate 180 error: ", &e)),
    }
}

/// Rotates the image 270 degrees clockwise; errors are tagged for the host.
pub fn apply_rotate_270_cw(image_data: &[u8], width: u32, height: u32) -> (r: Result<
    Vec<u8>,
    BoundaryError,
>)
    ensures
        r is Ok <==> image_data@.len() == expected_len(width as nat, height as nat),
        r matches Ok(out) ==> is_rotate_270(image_data@, out@, width as nat, height as nat),
        r matches Err(b) ==> b.message@ == "Rotate 270 error: "@ + length_error(
            width as nat,
            height as nat,
            image_data@.len(),
        ).message_spec(),
{
    match rotate::rotate_270_cw(image_data, width, height) {
        Ok(v) => Ok(v),
        Err(e) => Err(boundary("Rotate 270 error: ", &e)),
    }
}

} // verus!
