//! Rectangular crop of an RGBA buffer.

use vstd::prelude::*;
use crate::errors::TransformError;
use crate::pixel::{expected_len, idx, is_crop, lemma_idx_before, lemma_idx_bounds};
use crate::validate::{check_crop_rect, check_length, length_error, rect_in_bounds};

verus! {

/// Copies the `crop_width` x `crop_height` sub-rectangle whose top-left
/// corner sits at `(x, y)` out of an image of `orig_width` x `orig_height`
/// pixels, row by row. The buffer length is validated first; then the
/// rectangle, reporting the first violation in the fixed order: width
/// overrun, height overrun, zero dimension.
pub fn apply(
    image_data: &[u8],
    orig_width: u32,
    orig_height: u32,
    x: u32,
    y: u32,
    crop_width: u32,
    crop_height: u32,
) -> (r: Result<Vec<u8>, TransformError>)
    ensures
        r is Ok <==> (image_data@.len() == expected_len(orig_width as nat, orig_height as nat)
            && rect_in_bounds(
            orig_width as nat,
            orig_height as nat,
            x as nat,
            y as nat,
            crop_width as nat,
            crop_height as nat,
        )),
        r matches Ok(out) ==> is_crop(
            image_data@,
            out@,
            orig_width as nat,
            x as int,
            y as int,
            crop_width as nat,
            crop_height as nat,
        ),
        image_data@.len() != expected_len(orig_width as nat, orig_height as nat) ==> r == Err::<
            Vec<u8>,
            TransformError,
        >(length_error(orig_width as nat, orig_height as nat, image_data@.len())),
        image_data@.len() == expected_len(orig_width as nat, orig_height as nat) && x + crop_width
            > orig_width ==> r == Err::<Vec<u8>, TransformError>(TransformError::OutOfBoundsWidth),
        image_data@.len() == expected_len(orig_width as nat, orig_height as nat) && x + crop_width
            <= orig_width && y + crop_height > orig_height ==> r == Err::<Vec<u8>, TransformError>(
            TransformError::OutOfBoundsHeight,
        ),
        image_data@.len() == expected_len(orig_width as nat, orig_height as nat) && x + crop_width
            <= orig_width && y + crop_height <= orig_height && (crop_width == 0 || crop_height
            == 0) ==> r == Err::<Vec<u8>, TransformError>(TransformError::ZeroDimension),
{
    match check_length(image_data, orig_width, orig_height) {
        Err(e) => {
            return Err(e);
        },
        Ok(()) => {},
    }
    match check_crop_rect(orig_width, orig_height, x, y, crop_width, crop_height) {
        Err(e) => {
            return Err(e);
        },
        Ok(()) => {},
    }
    let ow = orig_width as usize;
    let cx = x as usize;
    let cy = y as usize;
    let cw = crop_width as usize;
    let ch = crop_height as usize;
    let ghost oh = orig_height as nat;
    let mut out: Vec<u8> = Vec::new();
    let mut row: usize = 0;
    while row < ch
        invariant
            ow == orig_width as usize,
            cx == x as usize,
            cy == y as usize,
            cw == crop_width as usize,
            ch == crop_height as usize,
            oh == orig_height as nat,
            image_data@.len() == expected_len(ow as nat, oh),
            image_data@.len() <= usize::MAX,
            cx + cw <= ow,
            cy + ch <= oh,
            row <= ch,
            out@.len() == (row * cw) * 4,
            forall|c2: int, r2: int, k: int|
                0 <= c2 < cw && 0 <= r2 < row && 0 <= k < 4 ==> out@[#[trigger] idx(
                    cw as nat,
                    c2,
                    r2,
                    k,
                )] == image_data@[idx(ow as nat, cx + c2, cy + r2, k)],
        decreases ch - row,
    {
        let mut col: usize = 0;
        while col < cw
            invariant
                ow == orig_width as usize,
                cx == x as usize,
                cy == y as usize,
                cw == crop_width as usize,
                ch == crop_height as usize,
                oh == orig_height as nat,
                image_data@.len() == expected_len(ow as nat, oh),
                image_data@.len() <= usize::MAX,
                cx + cw <= ow,
                cy + ch <= oh,
                row < ch,
                col <= cw,
                out@.len() == (row * cw + col) * 4,
                forall|c2: int, r2: int, k: int|
                    0 <= c2 < cw && 0 <= r2 < row && 0 <= k < 4 ==> out@[#[trigger] idx(
                        cw as nat,
                        c2,
                        r2,
                        k,
                    )] == image_data@[idx(ow as nat, cx + c2, cy + r2, k)],
                forall|c2: int, k: int|
                    0 <= c2 < col && 0 <= k < 4 ==> out@[#[trigger] idx(
                        cw as nat,
                        c2,
                        row as int,
                        k,
                    )] == image_data@[idx(ow as nat, cx + c2, cy + row, k)],
            decreases cw - col,
        {
            proof {
                lemma_idx_bounds(ow as nat, oh, cx + col, cy + row, 3);
            }
            let src = ((cy + row) * ow + (cx + col)) * 4;
            let ghost len0 = out@.len();
            out.push(image_data[src]);
            out.push(image_data[src + 1]);
            out.push(image_data[src + 2]);
            out.push(image_data[src + 3]);
            proof {
                assert forall|c2: int, r2: int, k: int|
                    0 <= c2 < cw && 0 <= r2 < row && 0 <= k < 4 implies out@[#[trigger] idx(
                    cw as nat,
                    c2,
                    r2,
                    k,
                )] == image_data@[idx(ow as nat, cx + c2, cy + r2, k)] by {
                    lemma_idx_before(cw as nat, c2, r2, k, col as int, row as int);
                }
                assert forall|c2: int, k: int| 0 <= c2 < col + 1 && 0 <= k < 4 implies out@[
                    #[trigger] idx(cw as nat, c2, row as int, k)] == image_data@[idx(
                    ow as nat,
                    cx + c2,
                    cy + row,
                    k,
                )] by {
                    lemma_idx_before(cw as nat, c2, row as int, k, col + 1, row as int);
                    if c2 == col {
                        assert(idx(cw as nat, c2, row as int, k) == len0 + k);
                        assert(idx(ow as nat, cx + c2, cy + row, k) == src + k);
                    }
                }
            }
            col = col + 1;
        }
        proof {
            assert((row * cw + cw) * 4 == ((row + 1) * cw) * 4) by (nonlinear_arith);
            assert forall|c2: int, r2: int, k: int|
                0 <= c2 < cw && 0 <= r2 < row + 1 && 0 <= k < 4 implies out@[#[trigger] idx(
                cw as nat,
                c2,
                r2,
                k,
            )] == image_data@[idx(ow as nat, cx + c2, cy + r2, k)] by {
                if r2 == row {
                    assert(out@[idx(cw as nat, c2, row as int, k)] == image_data@[idx(
                        ow as nat,
                        cx + c2,
                        cy + row,
                        k,
                    )]);
                }
            }
        }
        row = row + 1;
    }
    proof {
        assert(out@.len() == expected_len(crop_width as nat, crop_height as nat))
            by (nonlinear_arith)
            requires
                out@.len() == (ch * cw) * 4,
                cw == crop_width as usize,
                ch == crop_height as usize,
        ;
        assert forall|c2: int, r2: int, k: int|
            0 <= c2 < crop_width as nat && 0 <= r2 < crop_height as nat && 0 <= k < 4 implies out@[
            #[trigger] idx(crop_width as nat, c2, r2, k)] == image_data@[idx(
            orig_width as nat,
            x + c2,
            y + r2,
            k,
        )] by {
            assert(out@[idx(cw as nat, c2, r2, k)] == image_data@[idx(
                ow as nat,
                cx + c2,
                cy + r2,
                k,
            )]);
        }
    }
    Ok(out)
}

} // verus!
