//! Horizontal and vertical mirroring of an RGBA buffer.

use vstd::prelude::*;
use crate::errors::TransformError;
use crate::pixel::{
    expected_len, idx, is_flip_horizontal, is_flip_vertical, lemma_idx_before, lemma_idx_bounds,
};
use crate::validate::{check_length, length_error};

verus! {

/// Mirrors the image left-right: the output pixel at `(x, y)` is the input
/// pixel at `(width - 1 - x, y)`. Dimensions are unchanged. Rejects a buffer
/// whose length does not match the declared dimensions.
pub fn apply_horizontal(image_data: &[u8], width: u32, height: u32) -> (r: Result<
    Vec<u8>,
    TransformError,
>)
    ensures
        r is Ok <==> image_data@.len() == expected_len(width as nat, height as nat),
        r matches Ok(out) ==> is_flip_horizontal(
            image_data@,
            out@,
            width as nat,
            height as nat,
        ),
        r is Err ==> r == Err::<Vec<u8>, TransformError>(
            length_error(width as nat, height as nat, image_data@.len()),
        ),
{
    match check_length(image_data, width, height) {
        Err(e) => {
            return Err(e);
        },
        Ok(()) => {},
    }
    let w = width as usize;
    let h = height as usize;
    let mut out: Vec<u8> = Vec::new();
    let mut y: usize = 0;
    while y < h
        invariant
            w == width as usize,
            h == height as usize,
            image_data@.len() == expected_len(w as nat, h as nat),
            image_data@.len() <= usize::MAX,
            y <= h,
            out@.len() == (y * w) * 4,
            forall|xx: int, yy: int, k: int|
                0 <= xx < w && 0 <= yy < y && 0 <= k < 4 ==> out@[#[trigger] idx(
                    w as nat,
                    xx,
                    yy,
                    k,
                )] == image_data@[idx(w as nat, w - 1 - xx, yy, k)],
        decreases h - y,
    {
        let mut x: usize = 0;
        while x < w
            invariant
                w == width as usize,
                h == height as usize,
                image_data@.len() == expected_len(w as nat, h as nat),
                image_data@.len() <= usize::MAX,
                y < h,
                x <= w,
                out@.len() == (y * w + x) * 4,
                forall|xx: int, yy: int, k: int|
                    0 <= xx < w && 0 <= yy < y && 0 <= k < 4 ==> out@[#[trigger] idx(
                        w as nat,
                        xx,
                        yy,
                        k,
                    )] == image_data@[idx(w as nat, w - 1 - xx, yy, k)],
                forall|xx: int, k: int|
                    0 <= xx < x && 0 <= k < 4 ==> out@[#[trigger] idx(w as nat, xx, y as int, k)]
                        == image_data@[idx(w as nat, w - 1 - xx, y as int, k)],
            decreases w - x,
        {
            proof {
                lemma_idx_bounds(w as nat, h as nat, w - 1 - x, y as int, 3);
                lemma_idx_bounds(w as nat, h as nat, x as int, y as int, 3);
            }
            let src = (y * w + (w - 1 - x)) * 4;
            let ghost len0 = out@.len();
            out.push(image_data[src]);
            out.push(image_data[src + 1]);
            out.push(image_data[src + 2]);
            out.push(image_data[src + 3]);
            proof {
                assert forall|xx: int, yy: int, k: int|
                    0 <= xx < w && 0 <= yy < y && 0 <= k < 4 implies out@[#[trigger] idx(
                    w as nat,
                    xx,
                    yy,
                    k,
                )] == image_data@[idx(w as nat, w - 1 - xx, yy, k)] by {
                    lemma_idx_before(w as nat, xx, yy, k, x as int, y as int);
                }
                assert forall|xx: int, k: int| 0 <= xx < x + 1 && 0 <= k < 4 implies out@[
                    #[trigger] idx(w as nat, xx, y as int, k)] == image_data@[idx(
                    w as nat,
                    w - 1 - xx,
                    y as int,
                    k,
                )] by {
                    lemma_idx_before(w as nat, xx, y as int, k, x + 1, y as int);
                    if xx == x {
                        assert(idx(w as nat, xx, y as int, k) == len0 + k);
                        assert(idx(w as nat, w - 1 - xx, y as int, k) == src + k);
                    }
                }
            }
            x = x + 1;
        }
        proof {
            assert((y * w + w) * 4 == ((y + 1) * w) * 4) by (nonlinear_arith);
            assert forall|xx: int, yy: int, k: int|
                0 <= xx < w && 0 <= yy < y + 1 && 0 <= k < 4 implies out@[#[trigger] idx(
                w as nat,
                xx,
                yy,
                k,
            )] == image_data@[idx(w as nat, w - 1 - xx, yy, k)] by {
                if yy == y {
                    assert(out@[idx(w as nat, xx, y as int, k)] == image_data@[idx(
                        w as nat,
                        w - 1 - xx,
                        y as int,
                        k,
                    )]);
                }
            }
        }
        y = y + 1;
    }
    proof {
        assert(out@.len() == (h * w) * 4);
        assert(out@.len() == expected_len(w as nat, h as nat)) by (nonlinear_arith)
            requires
                out@.len() == (h * w) * 4,
        ;
        assert(out@.len() == expected_len(width as nat, height as nat));
        assert forall|x: int, y2: int, k: int|
            0 <= x < width as nat && 0 <= y2 < height as nat && 0 <= k < 4 implies out@[
            #[trigger] idx(width as nat, x, y2, k)] == image_data@[idx(
            width as nat,
            width - 1 - x,
            y2,
            k,
        )] by {
            assert(out@[idx(w as nat, x, y2, k)] == image_data@[idx(w as nat, w - 1 - x, y2, k)]);
        }
    }
    Ok(out)
}

/// Mirrors the image top-bottom: the output pixel at `(x, y)` is the input
/// pixel at `(x, height - 1 - y)`. Dimensions are unchanged. Rejects a
/// buffer whose length does not match the declared dimensions.
pub fn apply_vertical(image_data: &[u8], width: u32, height: u32) -> (r: Result<
    Vec<u8>,
    TransformError,
>)
    ensures
        r is Ok <==> image_data@.len() == expected_len(width as nat, height as nat),
        r matches Ok(out) ==> is_flip_vertical(image_data@, out@, width as nat, height as nat),
        r is Err ==> r == Err::<Vec<u8>, TransformError>(
            length_error(width as nat, height as nat, image_data@.len()),
        ),
{
    match check_length(image_data, width, height) {
        Err(e) => {
            return Err(e);
        },
        Ok(()) => {},
    }
    let w = width as usize;
    let h = height as usize;
    let mut out: Vec<u8> = Vec::new();
    let mut y: usize = 0;
    while y < h
        invariant
            w == width as usize,
            h == height as usize,
            image_data@.len() == expected_len(w as nat, h as nat),
            image_data@.len() <= usize::MAX,
            y <= h,
            out@.len() == (y * w) * 4,
            forall|xx: int, yy: int, k: int|
                0 <= xx < w && 0 <= yy < y && 0 <= k < 4 ==> out@[#[trigger] idx(
                    w as nat,
                    xx,
                    yy,
                    k,
                )] == image_data@[idx(w as nat, xx, h - 1 - yy, k)],
        decreases h - y,
    {
        let mut x: usize = 0;
        while x < w
            invariant
                w == width as usize,
                h == height as usize,
                image_data@.len() == expected_len(w as nat, h as nat),
                image_data@.len() <= usize::MAX,
                y < h,
                x <= w,
                out@.len() == (y * w + x) * 4,
                forall|xx: int, yy: int, k: int|
                    0 <= xx < w && 0 <= yy < y && 0 <= k < 4 ==> out@[#[trigger] idx(
                        w as nat,
                        xx,
                        yy,
                        k,
                    )] == image_data@[idx(w as nat, xx, h - 1 - yy, k)],
                forall|xx: int, k: int|
                    0 <= xx < x && 0 <= k < 4 ==> out@[#[trigger] idx(w as nat, xx, y as int, k)]
                        == image_data@[idx(w as nat, xx, h - 1 - y, k)],
            decreases w - x,
        {
            proof {
                lemma_idx_bounds(w as nat, h as nat, x as int, h - 1 - y, 3);
                lemma_idx_bounds(w as nat, h as nat, x as int, y as int, 3);
            }
            let src = ((h - 1 - y) * w + x) * 4;
            let ghost len0 = out@.len();
            out.push(image_data[src]);
            out.push(image_data[src + 1]);
            out.push(image_data[src + 2]);
            out.push(image_data[src + 3]);
            proof {
                assert forall|xx: int, yy: int, k: int|
                    0 <= xx < w && 0 <= yy < y && 0 <= k < 4 implies out@[#[trigger] idx(
                    w as nat,
                    xx,
                    yy,
                    k,
                )] == image_data@[idx(w as nat, xx, h - 1 - yy, k)] by {
                    lemma_idx_before(w as nat, xx, yy, k, x as int, y as int);
                }
                assert forall|xx: int, k: int| 0 <= xx < x + 1 && 0 <= k < 4 implies out@[
                    #[trigger] idx(w as nat, xx, y as int, k)] == image_data@[idx(
                    w as nat,
                    xx,
                    h - 1 - y,
                    k,
                )] by {
                    lemma_idx_before(w as nat, xx, y as int, k, x + 1, y as int);
                    if xx == x {
                        assert(idx(w as nat, xx, y as int, k) == len0 + k);
                        assert(idx(w as nat, xx, h - 1 - y, k) == src + k);
                    }
                }
            }
            x = x + 1;
        }
        proof {
            assert((y * w + w) * 4 == ((y + 1) * w) * 4) by (nonlinear_arith);
            assert forall|xx: int, yy: int, k: int|
                0 <= xx < w && 0 <= yy < y + 1 && 0 <= k < 4 implies out@[#[trigger] idx(
                w as nat,
                xx,
                yy,
                k,
            )] == image_data@[idx(w as nat, xx, h - 1 - yy, k)] by {
                if yy == y {
                    assert(out@[idx(w as nat, xx, y as int, k)] == image_data@[idx(
                        w as nat,
                        xx,
                        h - 1 - y,
                        k,
                    )]);
                }
            }
        }
        y = y + 1;
    }
    proof {
        assert(out@.len() == (h * w) * 4);
        assert(out@.len() == expected_len(w as nat, h as nat)) by (nonlinear_arith)
            requires
                out@.len() == (h * w) * 4,
        ;
        assert(out@.len() == expected_len(width as nat, height as nat));
        assert forall|x: int, y2: int, k: int|
            0 <= x < width as nat && 0 <= y2 < height as nat && 0 <= k < 4 implies out@[
            #[trigger] idx(width as nat, x, y2, k)] == image_data@[idx(
            width as nat,
            x,
            height - 1 - y2,
            k,
        )] by {
            assert(out@[idx(w as nat, x, y2, k)] == image_data@[idx(w as nat, x, h - 1 - y2, k)]);
        }
    }
    Ok(out)
}

} // verus!
