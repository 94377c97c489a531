//! Rotation of an RGBA buffer by 90, 180 or 270 degrees clockwise.
//!
//! Each function walks the output buffer in row-major order and gathers the
//! source pixel that the rotation maps onto that position, so every output
//! byte is written exactly once and the coordinate mapping of the contract
//! is mirrored directly in the loop.

use vstd::prelude::*;
use crate::errors::TransformError;
use crate::pixel::{
    expected_len, idx, is_rotate_180, is_rotate_270, is_rotate_90, lemma_idx_before,
    lemma_idx_bounds,
};
use crate::validate::{check_length, length_error};

verus! {

/// Rotates the image 90 degrees clockwise. The output has swapped
/// dimensions `height` x `width`: the input pixel at `(x, y)` lands at
/// output position `(y, width - 1 - x)`. Rejects a buffer whose length does
/// not match the declared dimensions.
pub fn rotate_90_cw(image_data: &[u8], width: u32, height: u32) -> (r: Result<
    Vec<u8>,
    TransformError,
>)
    ensures
        r is Ok <==> image_data@.len() == expected_len(width as nat, height as nat),
        r matches Ok(out) ==> is_rotate_90(image_data@, out@, width as nat, height as nat),
        r is Err ==> r == Err::<Vec<u8>, TransformError>(
            length_error(width as nat, height as nat, image_data@.len()),
        ),
{
    match check_length(image_data, width, height) {
        Err(e) => {
            return Err(e);
        },
        Ok(()) => {},
    }
    let w = width as usize;
    let h = height as usize;
    let mut out: Vec<u8> = Vec::new();
    let mut oy: usize = 0;
    while oy < w
        invariant
            w == width as usize,
            h == height as usize,
            image_data@.len() == expected_len(w as nat, h as nat),
            image_data@.len() <= usize::MAX,
            oy <= w,
            out@.len() == (oy * h) * 4,
            forall|ox2: int, oy2: int, k: int|
                0 <= ox2 < h && 0 <= oy2 < oy && 0 <= k < 4 ==> out@[#[trigger] idx(
                    h as nat,
                    ox2,
                    oy2,
                    k,
                )] == image_data@[idx(w as nat, w - 1 - oy2, ox2, k)],
        decreases w - oy,
    {
        let mut ox: usize = 0;
        while ox < h
            invariant
                w == width as usize,
                h == height as usize,
                image_data@.len() == expected_len(w as nat, h as nat),
                image_data@.len() <= usize::MAX,
                oy < w,
                ox <= h,
                out@.len() == (oy * h + ox) * 4,
                forall|ox2: int, oy2: int, k: int|
                    0 <= ox2 < h && 0 <= oy2 < oy && 0 <= k < 4 ==> out@[#[trigger] idx(
                        h as nat,
                        ox2,
                        oy2,
                        k,
                    )] == image_data@[idx(w as nat, w - 1 - oy2, ox2, k)],
                forall|ox2: int, k: int|
                    0 <= ox2 < ox && 0 <= k < 4 ==> out@[#[trigger] idx(h as nat, ox2, oy as int, k)]
                        == image_data@[idx(w as nat, w - 1 - oy, ox2, k)],
            decreases h - ox,
        {
            proof {
                lemma_idx_bounds(w as nat, h as nat, w - 1 - oy, ox as int, 3);
                lemma_idx_bounds(h as nat, w as nat, ox as int, oy as int, 3);
                assert(expected_len(h as nat, w as nat) == expected_len(w as nat, h as nat))
                    by (nonlinear_arith);
            }
            let src = (ox * w + (w - 1 - oy)) * 4;
            let ghost len0 = out@.len();
            out.push(image_data[src]);
            out.push(image_data[src + 1]);
            out.push(image_data[src + 2]);
            out.push(image_data[src + 3]);
            proof {
                assert forall|ox2: int, oy2: int, k: int|
                    0 <= ox2 < h && 0 <= oy2 < oy && 0 <= k < 4 implies out@[#[trigger] idx(
                    h as nat,
                    ox2,
                    oy2,
                    k,
                )] == image_data@[idx(w as nat, w - 1 - oy2, ox2, k)] by {
                    lemma_idx_before(h as nat, ox2, oy2, k, ox as int, oy as int);
                }
                assert forall|ox2: int, k: int| 0 <= ox2 < ox + 1 && 0 <= k < 4 implies out@[
                    #[trigger] idx(h as nat, ox2, oy as int, k)] == image_data@[idx(
                    w as nat,
                    w - 1 - oy,
                    ox2,
                    k,
                )] by {
                    lemma_idx_before(h as nat, ox2, oy as int, k, ox + 1, oy as int);
                    if ox2 == ox {
                        assert(idx(h as nat, ox2, oy as int, k) == len0 + k);
                        assert(idx(w as nat, w - 1 - oy, ox2, k) == src + k);
                    }
                }
            }
            ox = ox + 1;
        }
        proof {
            assert((oy * h + h) * 4 == ((oy + 1) * h) * 4) by (nonlinear_arith);
            assert forall|ox2: int, oy2: int, k: int|
                0 <= ox2 < h && 0 <= oy2 < oy + 1 && 0 <= k < 4 implies out@[#[trigger] idx(
                h as nat,
                ox2,
                oy2,
                k,
            )] == image_data@[idx(w as nat, w - 1 - oy2, ox2, k)] by {
                if oy2 == oy {
                    assert(out@[idx(h as nat, ox2, oy as int, k)] == image_data@[idx(
                        w as nat,
                        w - 1 - oy,
                        ox2,
                        k,
                    )]);
                }
            }
        }
        oy = oy + 1;
    }
    proof {
        assert(out@.len() == expected_len(width as nat, height as nat)) by (nonlinear_arith)
            requires
                out@.len() == (w * h) * 4,
                w == width as usize,
                h == height as usize,
        ;
        assert forall|x: int, y: int, k: int|
            0 <= x < width as nat && 0 <= y < height as nat && 0 <= k < 4 implies out@[idx(
            height as nat,
            y,
            width - 1 - x,
            k,
        )] == image_data@[#[trigger] idx(width as nat, x, y, k)] by {
            assert(out@[idx(h as nat, y, w - 1 - x, k)] == image_data@[idx(
                w as nat,
                w - 1 - (w - 1 - x),
                y,
                k,
            )]);
        }
    }
    Ok(out)
}

/// Rotates the image 180 degrees: the input pixel at `(x, y)` lands at
/// `(width - 1 - x, height - 1 - y)`. Dimensions are unchanged. Rejects a
/// buffer whose length does not match the declared dimensions.
pub fn rotate_180(image_data: &[u8], width: u32, height: u32) -> (r: Result<
    Vec<u8>,
    TransformError,
>)
    ensures
        r is Ok <==> image_data@.len() == expected_len(width as nat, height as nat),
        r matches Ok(out) ==> is_rotate_180(image_data@, out@, width as nat, height as nat),
        r is Err ==> r == Err::<Vec<u8>, TransformError>(
            length_error(width as nat, height as nat, image_data@.len()),
        ),
{
    match check_length(image_data, width, height) {
        Err(e) => {
            return Err(e);
        },
        Ok(()) => {},
    }
    let w = width as usize;
    let h = height as usize;
    let mut out: Vec<u8> = Vec::new();
    let mut oy: usize = 0;
    while oy < h
        invariant
            w == width as usize,
            h == height as usize,
            image_data@.len() == expected_len(w as nat, h as nat),
            image_data@.len() <= usize::MAX,
            oy <= h,
            out@.len() == (oy * w) * 4,
            forall|ox2: int, oy2: int, k: int|
                0 <= ox2 < w && 0 <= oy2 < oy && 0 <= k < 4 ==> out@[#[trigger] idx(
                    w as nat,
                    ox2,
                    oy2,
                    k,
                )] == image_data@[idx(w as nat, w - 1 - ox2, h - 1 - oy2, k)],
        decreases h - oy,
    {
        let mut ox: usize = 0;
        while ox < w
            invariant
                w == width as usize,
                h == height as usize,
                image_data@.len() == expected_len(w as nat, h as nat),
                image_data@.len() <= usize::MAX,
                oy < h,
                ox <= w,
                out@.len() == (oy * w + ox) * 4,
                forall|ox2: int, oy2: int, k: int|
                    0 <= ox2 < w && 0 <= oy2 < oy && 0 <= k < 4 ==> out@[#[trigger] idx(
                        w as nat,
                        ox2,
                        oy2,
                        k,
                    )] == image_data@[idx(w as nat, w - 1 - ox2, h - 1 - oy2, k)],
                forall|ox2: int, k: int|
                    0 <= ox2 < ox && 0 <= k < 4 ==> out@[#[trigger] idx(w as nat, ox2, oy as int, k)]
                        == image_data@[idx(w as nat, w - 1 - ox2, h - 1 - oy, k)],
            decreases w - ox,
        {
            proof {
                lemma_idx_bounds(w as nat, h as nat, w - 1 - ox, h - 1 - oy, 3);
                lemma_idx_bounds(w as nat, h as nat, ox as int, oy as int, 3);
            }
            let src = ((h - 1 - oy) * w + (w - 1 - ox)) * 4;
            let ghost len0 = out@.len();
            out.push(image_data[src]);
            out.push(image_data[src + 1]);
            out.push(image_data[src + 2]);
            out.push(image_data[src + 3]);
            proof {
                assert forall|ox2: int, oy2: int, k: int|
                    0 <= ox2 < w && 0 <= oy2 < oy && 0 <= k < 4 implies out@[#[trigger] idx(
                    w as nat,
                    ox2,
                    oy2,
                    k,
                )] == image_data@[idx(w as nat, w - 1 - ox2, h - 1 - oy2, k)] by {
                    lemma_idx_before(w as nat, ox2, oy2, k, ox as int, oy as int);
                }
                assert forall|ox2: int, k: int| 0 <= ox2 < ox + 1 && 0 <= k < 4 implies out@[
                    #[trigger] idx(w as nat, ox2, oy as int, k)] == image_data@[idx(
                    w as nat,
                    w - 1 - ox2,
                    h - 1 - oy,
                    k,
                )] by {
                    lemma_idx_before(w as nat, ox2, oy as int, k, ox + 1, oy as int);
                    if ox2 == ox {
                        assert(idx(w as nat, ox2, oy as int, k) == len0 + k);
                        assert(idx(w as nat, w - 1 - ox2, h - 1 - oy, k) == src + k);
                    }
                }
            }
            ox = ox + 1;
        }
        proof {
            assert((oy * w + w) * 4 == ((oy + 1) * w) * 4) by (nonlinear_arith);
            assert forall|ox2: int, oy2: int, k: int|
                0 <= ox2 < w && 0 <= oy2 < oy + 1 && 0 <= k < 4 implies out@[#[trigger] idx(
                w as nat,
                ox2,
                oy2,
                k,
            )] == image_data@[idx(w as nat, w - 1 - ox2, h - 1 - oy2, k)] by {
                if oy2 == oy {
                    assert(out@[idx(w as nat, ox2, oy as int, k)] == image_data@[idx(
                        w as nat,
                        w - 1 - ox2,
                        h - 1 - oy,
                        k,
                    )]);
                }
            }
        }
        oy = oy + 1;
    }
    proof {
        assert(out@.len() == expected_len(width as nat, height as nat)) by (nonlinear_arith)
            requires
                out@.len() == (h * w) * 4,
                w == width as usize,
                h == height as usize,
        ;
        assert forall|x: int, y: int, k: int|
            0 <= x < width as nat && 0 <= y < height as nat && 0 <= k < 4 implies out@[idx(
            width as nat,
            width - 1 - x,
            height - 1 - y,
            k,
        )] == image_data@[#[trigger] idx(width as nat, x, y, k)] by {
            assert(out@[idx(w as nat, w - 1 - x, h - 1 - y, k)] == image_data@[idx(
                w as nat,
                w - 1 - (w - 1 - x),
                h - 1 - (h - 1 - y),
                k,
            )]);
        }
    }
    Ok(out)
}

/// Rotates the image 270 degrees clockwise (90 counter-clockwise). The
/// output has swapped dimensions `height` x `width`: the input pixel at
/// `(x, y)` lands at output position `(height - 1 - y, x)`. Rejects a
/// buffer whose length does not match the declared dimensions.
pub fn rotate_270_cw(image_data: &[u8], width: u32, height: u32) -> (r: Result<
    Vec<u8>,
    TransformError,
>)
    ensures
        r is Ok <==> image_data@.len() == expected_len(width as nat, height as nat),
        r matches Ok(out) ==> is_rotate_270(image_data@, out@, width as nat, height as nat),
        r is Err ==> r == Err::<Vec<u8>, TransformError>(
            length_error(width as nat, height as nat, image_data@.len()),
        ),
{
    match check_length(image_data, width, height) {
        Err(e) => {
            return Err(e);
        },
        Ok(()) => {},
    }
    let w = width as usize;
    let h = height as usize;
    let mut out: Vec<u8> = Vec::new();
    let mut oy: usize = 0;
    while oy < w
        invariant
            w == width as usize,
            h == height as usize,
            image_data@.len() == expected_len(w as nat, h as nat),
            image_data@.len() <= usize::MAX,
            oy <= w,
            out@.len() == (oy * h) * 4,
            forall|ox2: int, oy2: int, k: int|
                0 <= ox2 < h && 0 <= oy2 < oy && 0 <= k < 4 ==> out@[#[trigger] idx(
                    h as nat,
                    ox2,
                    oy2,
                    k,
                )] == image_data@[idx(w as nat, oy2, h - 1 - ox2, k)],
        decreases w - oy,
    {
        let mut ox: usize = 0;
        while ox < h
            invariant
                w == width as usize,
                h == height as usize,
                image_data@.len() == expected_len(w as nat, h as nat),
                image_data@.len() <= usize::MAX,
                oy < w,
                ox <= h,
                out@.len() == (oy * h + ox) * 4,
                forall|ox2: int, oy2: int, k: int|
                    0 <= ox2 < h && 0 <= oy2 < oy && 0 <= k < 4 ==> out@[#[trigger] idx(
                        h as nat,
                        ox2,
                        oy2,
                        k,
                    )] == image_data@[idx(w as nat, oy2, h - 1 - ox2, k)],
                forall|ox2: int, k: int|
                    0 <= ox2 < ox && 0 <= k < 4 ==> out@[#[trigger] idx(h as nat, ox2, oy as int, k)]
                        == image_data@[idx(w as nat, oy as int, h - 1 - ox2, k)],
            decreases h - ox,
        {
            proof {
                lemma_idx_bounds(w as nat, h as nat, oy as int, h - 1 - ox, 3);
                lemma_idx_bounds(h as nat, w as nat, ox as int, oy as int, 3);
                assert(expected_len(h as nat, w as nat) == expected_len(w as nat, h as nat))
                    by (nonlinear_arith);
            }
            let src = ((h - 1 - ox) * w + oy) * 4;
            let ghost len0 = out@.len();
            out.push(image_data[src]);
            out.push(image_data[src + 1]);
            out.push(image_data[src + 2]);
            out.push(image_data[src + 3]);
            proof {
                assert forall|ox2: int, oy2: int, k: int|
                    0 <= ox2 < h && 0 <= oy2 < oy && 0 <= k < 4 implies out@[#[trigger] idx(
                    h as nat,
                    ox2,
                    oy2,
                    k,
                )] == image_data@[idx(w as nat, oy2, h - 1 - ox2, k)] by {
                    lemma_idx_before(h as nat, ox2, oy2, k, ox as int, oy as int);
                }
                assert forall|ox2: int, k: int| 0 <= ox2 < ox + 1 && 0 <= k < 4 implies out@[
                    #[trigger] idx(h as nat, ox2, oy as int, k)] == image_data@[idx(
                    w as nat,
                    oy as int,
                    h - 1 - ox2,
                    k,
                )] by {
                    lemma_idx_before(h as nat, ox2, oy as int, k, ox + 1, oy as int);
                    if ox2 == ox {
                        assert(idx(h as nat, ox2, oy as int, k) == len0 + k);
                        assert(idx(w as nat, oy as int, h - 1 - ox2, k) == src + k);
                    }
                }
            }
            ox = ox + 1;
        }
        proof {
            assert((oy * h + h) * 4 == ((oy + 1) * h) * 4) by (nonlinear_arith);
            assert forall|ox2: int, oy2: int, k: int|
                0 <= ox2 < h && 0 <= oy2 < oy + 1 && 0 <= k < 4 implies out@[#[trigger] idx(
                h as nat,
                ox2,
                oy2,
                k,
            )] == image_data@[idx(w as nat, oy2, h - 1 - ox2, k)] by {
                if oy2 == oy {
                    assert(out@[idx(h as nat, ox2, oy as int, k)] == image_data@[idx(
                        w as nat,
                        oy as int,
                        h - 1 - ox2,
                        k,
                    )]);
                }
            }
        }
        oy = oy + 1;
    }
    proof {
        assert(out@.len() == expected_len(width as nat, height as nat)) by (nonlinear_arith)
            requires
                out@.len() == (w * h) * 4,
                w == width as usize,
                h == height as usize,
        ;
        assert forall|x: int, y: int, k: int|
            0 <= x < width as nat && 0 <= y < height as nat && 0 <= k < 4 implies out@[idx(
            height as nat,
            height - 1 - y,
            x,
            k,
        )] == image_data@[#[trigger] idx(width as nat, x, y, k)] by {
            assert(out@[idx(h as nat, h - 1 - y, x, k)] == image_data@[idx(
                w as nat,
                x,
                h - 1 - (h - 1 - y),
                k,
            )]);
        }
    }
    Ok(out)
}

} // verus!
