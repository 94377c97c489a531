//! Grayscale conversion, delegated to the external image-processing
//! library. The engine validates the buffer against the declared dimensions
//! and promises nothing about the delegate's output beyond its byte length.

use vstd::prelude::*;
use vstd::arithmetic::div_mod::lemma_mod_multiples_basic;
use crate::errors::TransformError;
use crate::pixel::expected_len;
use crate::validate::{check_length, length_error};

verus! {

/// Relies on `photon_rs::monochrome::grayscale` (with
/// `photon_rs::PhotonImage::new` and `PhotonImage::get_raw_pixels`
/// converting between plain bytes and the delegate's image type): the
/// grayscale pass rewrites the R, G and B byte of each four-byte pixel in
/// place and never changes the buffer's length. It indexes three bytes into
/// every fourth position, so the length must be a multiple of four.
#[verifier::external_body]
fn photon_grayscale(image_data: &[u8], width: u32, height: u32) -> (r: Vec<u8>)
    requires
        image_data@.len() % 4 == 0,
    ensures
        r@.len() == image_data@.len(),
{
    let mut img = photon_rs::PhotonImage::new(image_data.to_vec(), width, height);
    photon_rs::monochrome::grayscale(&mut img);
    img.get_raw_pixels()
}

/// Converts the image to grayscale through the external delegate. The
/// output buffer has the same byte length and dimensions as the input.
/// Rejects a buffer whose length does not match the declared dimensions.
pub fn apply(image_data: &[u8], width: u32, height: u32) -> (r: Result<Vec<u8>, TransformError>)
    ensures
        r is Ok <==> image_data@.len() == expected_len(width as nat, height as nat),
        r matches Ok(out) ==> out@.len() == image_data@.len(),
        r is Err ==> r == Err::<Vec<u8>, TransformError>(
            length_error(width as nat, height as nat, image_data@.len()),
        ),
{
    match check_length(image_data, width, height) {
        Err(e) => {
            return Err(e);
        },
        Ok(()) => {},
    }
    proof {
        lemma_mod_multiples_basic((width as int) * (height as int), 4);
        assert(image_data@.len() % 4 == 0) by (nonlinear_arith)
            requires
                image_data@.len() == (width as int) * (height as int) * 4,
                ((width as int) * (height as int)) * 4 % 4 == 0,
        ;
    }
    Ok(photon_grayscale(image_data, width, height))
}

} // verus!
