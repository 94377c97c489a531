//! Brightness adjustment: an elementwise shift of the R, G and B bytes,
//! saturating at 0 and 255, with every alpha byte copied unchanged.

use vstd::prelude::*;
use vstd::arithmetic::div_mod::lemma_fundamental_div_mod_converse;
use crate::errors::TransformError;
use crate::pixel::{adjust_channel, clamp_adjustment, expected_len, is_brightness};
use crate::validate::{check_length, length_error};

verus! {

/// One colour channel shifted by a clamped adjustment, saturating at the
/// byte range's ends.
fn adjust_byte(b: u8, adj: i32) -> (r: u8)
    requires
        -255 <= adj <= 255,
    ensures
        r == adjust_channel(b, adj as int),
{
    let v: i32 = b as i32 + adj;
    if v < 0 {
        0
    } else if v > 255 {
        255
    } else {
        v as u8
    }
}

/// Shifts every R, G and B byte by `adjustment` (first clamped to the
/// accepted range of -255 to 255), saturating at 0 and 255; alpha bytes are
/// copied unchanged. Dimensions are unchanged. Rejects a buffer whose
/// length does not match the declared dimensions.
pub fn apply(image_data: &[u8], width: u32, height: u32, adjustment: i32) -> (r: Result<
    Vec<u8>,
    TransformError,
>)
    ensures
        r is Ok <==> image_data@.len() == expected_len(width as nat, height as nat),
        r matches Ok(out) ==> is_brightness(
            image_data@,
            out@,
            clamp_adjustment(adjustment as int),
        ),
        r is Err ==> r == Err::<Vec<u8>, TransformError>(
            length_error(width as nat, height as nat, image_data@.len()),
        ),
{
    match check_length(image_data, width, height) {
        Err(e) => {
            return Err(e);
        },
        Ok(()) => {},
    }
    let adj: i32 = if adjustment < -255 {
        -255
    } else if adjustment > 255 {
        255
    } else {
        adjustment
    };
    let w = width as usize;
    let h = height as usize;
    let n_pixels = w * h;
    let mut out: Vec<u8> = Vec::new();
    let mut p: usize = 0;
    while p < n_pixels
        invariant
            image_data@.len() == (n_pixels * 4),
            image_data@.len() <= usize::MAX,
            adj == clamp_adjustment(adjustment as int),
            -255 <= adj <= 255,
            p <= n_pixels,
            out@.len() == p * 4,
            forall|i: int|
                0 <= i < p * 4 ==> #[trigger] out@[i] == if i % 4 == 3 {
                    image_data@[i]
                } else {
                    adjust_channel(image_data@[i], adj as int)
                },
        decreases n_pixels - p,
    {
        let base = p * 4;
        let b0 = adjust_byte(image_data[base], adj);
        let b1 = adjust_byte(image_data[base + 1], adj);
        let b2 = adjust_byte(image_data[base + 2], adj);
        let b3 = image_data[base + 3];
        let ghost len0 = out@.len();
        out.push(b0);
        out.push(b1);
        out.push(b2);
        out.push(b3);
        proof {
            assert forall|i: int| 0 <= i < (p + 1) * 4 implies #[trigger] out@[i] == (if i % 4 == 3 {
                image_data@[i]
            } else {
                adjust_channel(image_data@[i], adj as int)
            }) by {
                if len0 <= i {
                    lemma_fundamental_div_mod_converse(i, 4, p as int, i - len0);
                }
            }
        }
        p = p + 1;
    }
    Ok(out)
}

} // verus!
