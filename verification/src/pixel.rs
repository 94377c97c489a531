//! The mathematical model of RGBA pixel buffers: index arithmetic,
//! the per-operation correctness predicates, and the lemmas that relate
//! pixel-coordinate facts to whole-buffer equality.

use vstd::prelude::*;
use vstd::arithmetic::div_mod::{
    lemma_fundamental_div_mod, lemma_mod_bound, lemma_multiply_divide_lt,
};

verus! {

/// Byte length a `w` x `h` RGBA buffer must have: four bytes per pixel.
pub open spec fn expected_len(w: nat, h: nat) -> nat {
    w * h * 4
}

/// Flat byte offset of channel `k` (0 = R, 1 = G, 2 = B, 3 = A) of the
/// pixel at column `x`, row `y` in a row-major RGBA buffer of width `w`.
pub open spec fn idx(w: nat, x: int, y: int, k: int) -> int {
    (y * w + x) * 4 + k
}

/// The buffer's length is consistent with the declared dimensions.
pub open spec fn valid_buffer(s: Seq<u8>, w: nat, h: nat) -> bool {
    s.len() == expected_len(w, h)
}

/// `out` is `inp` mirrored left-right: the output pixel at `(x, y)` is the
/// input pixel at `(w - 1 - x, y)`. Dimensions unchanged.
pub open spec fn is_flip_horizontal(inp: Seq<u8>, out: Seq<u8>, w: nat, h: nat) -> bool {
    &&& out.len() == expected_len(w, h)
    &&& forall|x: int, y: int, k: int|
        0 <= x < w && 0 <= y < h && 0 <= k < 4 ==> out[#[trigger] idx(w, x, y, k)] == inp[idx(
            w,
            w - 1 - x,
            y,
            k,
        )]
}

/// `out` is `inp` mirrored top-bottom: the output pixel at `(x, y)` is the
/// input pixel at `(x, h - 1 - y)`. Dimensions unchanged.
pub open spec fn is_flip_vertical(inp: Seq<u8>, out: Seq<u8>, w: nat, h: nat) -> bool {
    &&& out.len() == expected_len(w, h)
    &&& forall|x: int, y: int, k: int|
        0 <= x < w && 0 <= y < h && 0 <= k < 4 ==> out[#[trigger] idx(w, x, y, k)] == inp[idx(
            w,
            x,
            h - 1 - y,
            k,
        )]
}

/// `out` is `inp` rotated 90 degrees clockwise. The output has swapped
/// dimensions `h` x `w`; the input pixel at `(x, y)` lands at output
/// position `(y, w - 1 - x)`, addressed against the swapped width `h`.
pub open spec fn is_rotate_90(inp: Seq<u8>, out: Seq<u8>, w: nat, h: nat) -> bool {
    &&& out.len() == expected_len(w, h)
    &&& forall|x: int, y: int, k: int|
        0 <= x < w && 0 <= y < h && 0 <= k < 4 ==> out[idx(h, y, w - 1 - x, k)] == inp[
            #[trigger] idx(w, x, y, k)
        ]
}

/// `out` is `inp` rotated 180 degrees: the input pixel at `(x, y)` lands at
/// `(w - 1 - x, h - 1 - y)`. Dimensions unchanged.
pub open spec fn is_rotate_180(inp: Seq<u8>, out: Seq<u8>, w: nat, h: nat) -> bool {
    &&& out.len() == expected_len(w, h)
    &&& forall|x: int, y: int, k: int|
        0 <= x < w && 0 <= y < h && 0 <= k < 4 ==> out[idx(w, w - 1 - x, h - 1 - y, k)] == inp[
            #[trigger] idx(w, x, y, k)
        ]
}

/// `out` is `inp` rotated 270 degrees clockwise (90 counter-clockwise).
/// The output has swapped dimensions `h` x `w`; the input pixel at `(x, y)`
/// lands at output position `(h - 1 - y, x)`, addressed against the swapped
/// width `h`.
pub open spec fn is_rotate_270(inp: Seq<u8>, out: Seq<u8>, w: nat, h: nat) -> bool {
    &&& out.len() == expected_len(w, h)
    &&& forall|x: int, y: int, k: int|
        0 <= x < w && 0 <= y < h && 0 <= k < 4 ==> out[idx(h, h - 1 - y, x, k)] == inp[
            #[trigger] idx(w, x, y, k)
        ]
}

/// `out` is the `cw` x `ch` sub-rectangle of `inp` (width `ow`) whose
/// top-left corner sits at `(x, y)`: output pixel `(c, r)` is input pixel
/// `(x + c, y + r)`, each copied as four unmodified bytes.
pub open spec fn is_crop(
    inp: Seq<u8>,
    out: Seq<u8>,
    ow: nat,
    x: int,
    y: int,
    cw: nat,
    ch: nat,
) -> bool {
    &&& out.len() == expected_len(cw, ch)
    &&& forall|c: int, r: int, k: int|
        0 <= c < cw && 0 <= r < ch && 0 <= k < 4 ==> out[#[trigger] idx(cw, c, r, k)] == inp[idx(
            ow,
            x + c,
            y + r,
            k,
        )]
}

/// The adjustment a caller hands in, saturated to the accepted range.
pub open spec fn clamp_adjustment(adj: int) -> int {
    if adj < -255 {
        -255
    } else if adj > 255 {
        255
    } else {
        adj
    }
}

/// One colour channel shifted by `adj` and clamped to a byte's range.
pub open spec fn adjust_channel(b: u8, adj: int) -> u8 {
    if b + adj < 0 {
        0u8
    } else if b + adj > 255 {
        255u8
    } else {
        (b + adj) as u8
    }
}

/// `out` is `inp` with every R, G and B byte shifted by `adj` (saturating
/// at 0 and 255) and every alpha byte copied unchanged.
pub open spec fn is_brightness(inp: Seq<u8>, out: Seq<u8>, adj: int) -> bool {
    &&& out.len() == inp.len()
    &&& forall|i: int|
        0 <= i < inp.len() ==> #[trigger] out[i] == if i % 4 == 3 {
            inp[i]
        } else {
            adjust_channel(inp[i], adj)
        }
}

/// A pixel's byte offsets stay inside a `w` x `h` buffer.
pub proof fn lemma_idx_bounds(w: nat, h: nat, x: int, y: int, k: int)
    requires
        0 <= x < w,
        0 <= y < h,
        0 <= k < 4,
    ensures
        0 <= y * w + x < w * h,
        0 <= idx(w, x, y, k) < expected_len(w, h),
        idx(w, x, y, k) == (y * w + x) * 4 + k,
{
    assert(y * w + x < w * h && (y * w + x) * 4 + k < w * h * 4) by (nonlinear_arith)
        requires
            0 <= x < w,
            0 <= y < h,
            0 <= k < 4,
    ;
}

/// A pixel that comes before position `(xs, ys)` in row-major order has all
/// its byte offsets below that position's first offset.
pub proof fn lemma_idx_before(w: nat, x: int, y: int, k: int, xs: int, ys: int)
    requires
        0 <= x < w,
        0 <= y,
        0 <= xs,
        0 <= k < 4,
        y < ys || (y == ys && x < xs),
    ensures
        0 <= idx(w, x, y, k),
        idx(w, x, y, k) < (ys * w + xs) * 4,
{
    if y < ys {
        assert((y * w + x) * 4 + k < (ys * w + xs) * 4) by (nonlinear_arith)
            requires
                0 <= x < w,
                0 <= y < ys,
                0 <= xs,
                0 <= k < 4,
        ;
    } else {
        assert((y * w + x) * 4 + k < (ys * w + xs) * 4) by (nonlinear_arith)
            requires
                0 <= x < xs,
                y == ys,
                0 <= k < 4,
        ;
    }
}

/// Every byte offset of a `w` x `h` buffer is `idx(w, x, y, k)` for exactly
/// one in-range pixel coordinate, so two buffers that agree on every pixel
/// agree everywhere.
pub proof fn lemma_buffers_equal(a: Seq<u8>, b: Seq<u8>, w: nat, h: nat)
    requires
        a.len() == expected_len(w, h),
        b.len() == expected_len(w, h),
        forall|x: int, y: int, k: int|
            0 <= x < w && 0 <= y < h && 0 <= k < 4 ==> a[#[trigger] idx(w, x, y, k)] == b[idx(
                w,
                x,
                y,
                k,
            )],
    ensures
        a == b,
{
    assert forall|i: int| 0 <= i < a.len() implies a[i] == b[i] by {
        assert(w * h * 4 > 0);
        assert(w > 0 && h > 0) by (nonlinear_arith)
            requires
                w * h * 4 > 0,
        ;
        let p = i / 4;
        let k = i % 4;
        let y = p / (w as int);
        let x = p % (w as int);
        lemma_fundamental_div_mod(i, 4);
        lemma_mod_bound(i, 4);
        assert(p < w * h) by {
            assert(i < (w * h) * 4) by (nonlinear_arith)
                requires
                    i < w * h * 4,
            ;
            lemma_multiply_divide_lt(i, 4, (w * h) as int);
            assert(i / 4 < w * h);
        }
        lemma_fundamental_div_mod(p, w as int);
        lemma_mod_bound(p, w as int);
        assert(y < h) by {
            assert(p < (h * w)) by (nonlinear_arith)
                requires
                    p < w * h,
            ;
            lemma_multiply_divide_lt(p, w as int, h as int);
        }
        assert(y * w + x == p);
        assert(idx(w, x, y, k) == i);
        assert(a[idx(w, x, y, k)] == b[idx(w, x, y, k)]);
    }
    assert(a =~= b);
}

} // verus!
