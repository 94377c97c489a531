//! Gaussian blur, delegated to the external image-processing library. The
//! engine validates the radius and the buffer locally, refuses what the
//! delegate cannot process, and promises nothing about the delegate's
//! output beyond its byte length.

use vstd::prelude::*;
use vstd::string::StringExecFns;
use crate::errors::TransformError;
use crate::pixel::expected_len;
use crate::validate::{check_length, length_error};

verus! {

/// Dimensions on which the blur delegate operates safely: it clamps the
/// radius to half the image's extent minus one and indexes rows without
/// further checks, so each extent must be at least two, and it recomputes
/// the pixel size in 32-bit arithmetic, so that size must fit a `u32`.
pub open spec fn blur_supported(w: nat, h: nat) -> bool {
    2 <= w && 2 <= h && expected_len(w, h) <= u32::MAX
}

/// Relies on `photon_rs::conv::gaussian_blur` (with
/// `photon_rs::PhotonImage::new` and `PhotonImage::get_raw_pixels`
/// converting between plain bytes and the delegate's image type): the blur
/// runs three in-place box-blur passes over a clone of the pixel buffer and
/// stores a buffer of the original length back. Its internal radius clamp
/// `min(width / 2 - 1, height / 2 - 1, radius)` must stay non-negative and
/// its `width * height * 4` stays in `u32`, which the preconditions
/// guarantee.
#[verifier::external_body]
fn photon_gaussian_blur(image_data: &[u8], width: u32, height: u32, radius: i32) -> (r: Vec<u8>)
    requires
        image_data@.len() == expected_len(width as nat, height as nat),
        blur_supported(width as nat, height as nat),
        radius >= 1,
    ensures
        r@.len() == image_data@.len(),
{
    let mut img = photon_rs::PhotonImage::new(image_data.to_vec(), width, height);
    photon_rs::conv::gaussian_blur(&mut img, radius);
    img.get_raw_pixels()
}

/// Blurs the image through the external delegate. A radius of zero or less
/// is rejected locally, before the delegate is ever invoked; then the
/// buffer is validated against the declared dimensions; then dimensions the
/// delegate cannot process are refused as a delegate failure. On success
/// the output has the same byte length and dimensions as the input.
pub fn apply(image_data: &[u8], width: u32, height: u32, radius: i32) -> (r: Result<
    Vec<u8>,
    TransformError,
>)
    ensures
        r is Ok <==> (radius >= 1 && image_data@.len() == expected_len(
            width as nat,
            height as nat,
        ) && blur_supported(width as nat, height as nat)),
        r matches Ok(out) ==> out@.len() == image_data@.len(),
        radius <= 0 ==> r == Err::<Vec<u8>, TransformError>(TransformError::InvalidRadius),
        radius >= 1 && image_data@.len() != expected_len(width as nat, height as nat) ==> r
            == Err::<Vec<u8>, TransformError>(
            length_error(width as nat, height as nat, image_data@.len()),
        ),
        radius >= 1 && image_data@.len() == expected_len(width as nat, height as nat)
            && !blur_supported(width as nat, height as nat) ==> (r matches Err(e) && e matches
        TransformError::DelegateFailure(m) && m@
            == "Image dimensions not supported by the blur delegate"@),
{
    if radius <= 0 {
        return Err(TransformError::InvalidRadius);
    }
    match check_length(image_data, width, height) {
        Err(e) => {
            return Err(e);
        },
        Ok(()) => {},
    }
    if width < 2 || height < 2 || image_data.len() > u32::MAX as usize {
        return Err(
            TransformError::DelegateFailure(
                "Image dimensions not supported by the blur delegate".to_owned(),
            ),
        );
    }
    Ok(photon_gaussian_blur(image_data, width, height, radius))
}

} // verus!
