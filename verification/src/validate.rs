//! The shared precondition checks: buffer length against declared
//! dimensions, and crop-rectangle bounds. Every transform runs these before
//! indexing anything; they are the single source of bounds safety.

use vstd::prelude::*;
use crate::errors::TransformError;
use crate::pixel::expected_len;

verus! {

/// The error a buffer of length `actual` earns against dimensions `w` x `h`.
pub open spec fn length_error(w: nat, h: nat, actual: nat) -> TransformError {
    TransformError::LengthMismatch {
        expected: expected_len(w, h) as u128,
        actual: actual as usize,
    }
}

/// Checks that the buffer's length equals `width * height * 4`; on a
/// mismatch reports exactly the expected and actual lengths.
pub fn check_length(data: &[u8], width: u32, height: u32) -> (r: Result<(), TransformError>)
    ensures
        r is Ok <==> data@.len() == expected_len(width as nat, height as nat),
        r is Err ==> r == Err::<(), TransformError>(
            length_error(width as nat, height as nat, data@.len()),
        ),
        data@.len() <= usize::MAX,
{
    proof {
        assert((width as int) * (height as int) * 4 < u128::MAX) by (nonlinear_arith)
            requires
                width <= u32::MAX,
                height <= u32::MAX,
        ;
    }
    let expected: u128 = (width as u128) * (height as u128) * 4;
    let actual: usize = data.len();
    if actual as u128 == expected {
        Ok(())
    } else {
        Err(TransformError::LengthMismatch { expected, actual })
    }
}

/// A crop rectangle lies inside the image and selects at least one pixel.
pub open spec fn rect_in_bounds(ow: nat, oh: nat, x: nat, y: nat, cw: nat, ch: nat) -> bool {
    x + cw <= ow && y + ch <= oh && cw > 0 && ch > 0
}

/// Checks a crop rectangle against the image bounds. When several
/// violations coexist the first reported wins, in this fixed order: the
/// width check, then the height check, then the zero-dimension check.
pub fn check_crop_rect(
    orig_width: u32,
    orig_height: u32,
    x: u32,
    y: u32,
    crop_width: u32,
    crop_height: u32,
) -> (r: Result<(), TransformError>)
    ensures
        r is Ok <==> rect_in_bounds(
            orig_width as nat,
            orig_height as nat,
            x as nat,
            y as nat,
            crop_width as nat,
            crop_height as nat,
        ),
        x + crop_width > orig_width ==> r == Err::<(), TransformError>(
            TransformError::OutOfBoundsWidth,
        ),
        x + crop_width <= orig_width && y + crop_height > orig_height ==> r == Err::<
            (),
            TransformError,
        >(TransformError::OutOfBoundsHeight),
        x + crop_width <= orig_width && y + crop_height <= orig_height && (crop_width == 0
            || crop_height == 0) ==> r == Err::<(), TransformError>(TransformError::ZeroDimension),
{
    if x as u64 + crop_width as u64 > orig_width as u64 {
        Err(TransformError::OutOfBoundsWidth)
    } else if y as u64 + crop_height as u64 > orig_height as u64 {
        Err(TransformError::OutOfBoundsHeight)
    } else if crop_width == 0 || crop_height == 0 {
        Err(TransformError::ZeroDimension)
    } else {
        Ok(())
    }
}

} // verus!
