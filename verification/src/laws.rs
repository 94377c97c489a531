//! The algebra of the transforms, proved from the correctness predicates
//! alone: flips are involutions, the rotations form a cyclic group of four,
//! cropping the full rectangle is the identity, crops compose, and
//! brightness adjustment is monotone per channel and preserves alpha.

use vstd::prelude::*;
use crate::pixel::{
    adjust_channel, expected_len, idx, is_brightness, is_crop, is_flip_horizontal,
    is_flip_vertical, is_rotate_180, is_rotate_270, is_rotate_90, lemma_buffers_equal,
};

verus! {

/// Flipping horizontally twice returns the original buffer.
pub proof fn lemma_flip_horizontal_involutive(a: Seq<u8>, b: Seq<u8>, c: Seq<u8>, w: nat, h: nat)
    requires
        a.len() == expected_len(w, h),
        is_flip_horizontal(a, b, w, h),
        is_flip_horizontal(b, c, w, h),
    ensures
        c == a,
{
    assert forall|x: int, y: int, k: int|
        0 <= x < w && 0 <= y < h && 0 <= k < 4 implies c[#[trigger] idx(w, x, y, k)] == a[idx(
        w,
        x,
        y,
        k,
    )] by {
        assert(c[idx(w, x, y, k)] == b[idx(w, w - 1 - x, y, k)]);
        assert(b[idx(w, w - 1 - x, y, k)] == a[idx(w, w - 1 - (w - 1 - x), y, k)]);
        assert(w - 1 - (w - 1 - x) == x);
    }
    lemma_buffers_equal(c, a, w, h);
}

/// Flipping vertically twice returns the original buffer.
pub proof fn lemma_flip_vertical_involutive(a: Seq<u8>, b: Seq<u8>, c: Seq<u8>, w: nat, h: nat)
    requires
        a.len() == expected_len(w, h),
        is_flip_vertical(a, b, w, h),
        is_flip_vertical(b, c, w, h),
    ensures
        c == a,
{
    assert forall|x: int, y: int, k: int|
        0 <= x < w && 0 <= y < h && 0 <= k < 4 implies c[#[trigger] idx(w, x, y, k)] == a[idx(
        w,
        x,
        y,
        k,
    )] by {
        assert(c[idx(w, x, y, k)] == b[idx(w, x, h - 1 - y, k)]);
        assert(b[idx(w, x, h - 1 - y, k)] == a[idx(w, x, h - 1 - (h - 1 - y), k)]);
        assert(h - 1 - (h - 1 - y) == y);
    }
    lemma_buffers_equal(c, a, w, h);
}

/// Two 90-degree clockwise rotations compose to a 180-degree rotation.
pub proof fn lemma_rotate_90_twice(a: Seq<u8>, b: Seq<u8>, c: Seq<u8>, w: nat, h: nat)
    requires
        is_rotate_90(a, b, w, h),
        is_rotate_90(b, c, h, w),
    ensures
        is_rotate_180(a, c, w, h),
{
    assert(expected_len(h, w) == expected_len(w, h)) by (nonlinear_arith);
    assert forall|x: int, y: int, k: int|
        0 <= x < w && 0 <= y < h && 0 <= k < 4 implies c[idx(w, w - 1 - x, h - 1 - y, k)] == a[
        #[trigger] idx(w, x, y, k)] by {
        assert(b[idx(h, y, w - 1 - x, k)] == a[idx(w, x, y, k)]);
        assert(c[idx(w, w - 1 - x, h - 1 - y, k)] == b[idx(h, y, w - 1 - x, k)]);
    }
}

/// Two 180-degree rotations return the original buffer.
pub proof fn lemma_rotate_180_twice(a: Seq<u8>, b: Seq<u8>, c: Seq<u8>, w: nat, h: nat)
    requires
        a.len() == expected_len(w, h),
        is_rotate_180(a, b, w, h),
        is_rotate_180(b, c, w, h),
    ensures
        c == a,
{
    assert forall|x: int, y: int, k: int|
        0 <= x < w && 0 <= y < h && 0 <= k < 4 implies c[#[trigger] idx(w, x, y, k)] == a[idx(
        w,
        x,
        y,
        k,
    )] by {
        assert(b[idx(w, w - 1 - x, h - 1 - y, k)] == a[idx(w, x, y, k)]);
        assert(c[idx(w, w - 1 - (w - 1 - x), h - 1 - (h - 1 - y), k)] == b[idx(
            w,
            w - 1 - x,
            h - 1 - y,
            k,
        )]);
        assert(w - 1 - (w - 1 - x) == x && h - 1 - (h - 1 - y) == y);
    }
    lemma_buffers_equal(c, a, w, h);
}

/// Four 90-degree clockwise rotations return the original buffer.
pub proof fn lemma_rotate_90_four_times(
    a: Seq<u8>,
    b: Seq<u8>,
    c: Seq<u8>,
    d: Seq<u8>,
    e: Seq<u8>,
    w: nat,
    h: nat,
)
    requires
        a.len() == expected_len(w, h),
        is_rotate_90(a, b, w, h),
        is_rotate_90(b, c, h, w),
        is_rotate_90(c, d, w, h),
        is_rotate_90(d, e, h, w),
    ensures
        e == a,
{
    lemma_rotate_90_twice(a, b, c, w, h);
    lemma_rotate_90_twice(c, d, e, w, h);
    lemma_rotate_180_twice(a, c, e, w, h);
}

/// Three 90-degree clockwise rotations compose to a 270-degree rotation.
pub proof fn lemma_rotate_90_thrice(
    a: Seq<u8>,
    b: Seq<u8>,
    c: Seq<u8>,
    d: Seq<u8>,
    w: nat,
    h: nat,
)
    requires
        is_rotate_90(a, b, w, h),
        is_rotate_90(b, c, h, w),
        is_rotate_90(c, d, w, h),
    ensures
        is_rotate_270(a, d, w, h),
{
    lemma_rotate_90_twice(a, b, c, w, h);
    assert forall|x: int, y: int, k: int|
        0 <= x < w && 0 <= y < h && 0 <= k < 4 implies d[idx(h, h - 1 - y, x, k)] == a[
        #[trigger] idx(w, x, y, k)] by {
        assert(c[idx(w, w - 1 - x, h - 1 - y, k)] == a[idx(w, x, y, k)]);
        assert(d[idx(h, h - 1 - y, w - 1 - (w - 1 - x), k)] == c[idx(w, w - 1 - x, h - 1 - y, k)]);
        assert(w - 1 - (w - 1 - x) == x);
    }
}

/// The 180-degree rotation of a buffer is unique, so the composition of two
/// 90-degree rotations is byte-equal to the direct 180-degree rotation.
pub proof fn lemma_rotate_180_unique(a: Seq<u8>, c: Seq<u8>, d: Seq<u8>, w: nat, h: nat)
    requires
        is_rotate_180(a, c, w, h),
        is_rotate_180(a, d, w, h),
    ensures
        c == d,
{
    assert forall|x: int, y: int, k: int|
        0 <= x < w && 0 <= y < h && 0 <= k < 4 implies c[#[trigger] idx(w, x, y, k)] == d[idx(
        w,
        x,
        y,
        k,
    )] by {
        assert(c[idx(w, w - 1 - (w - 1 - x), h - 1 - (h - 1 - y), k)] == a[idx(
            w,
            w - 1 - x,
            h - 1 - y,
            k,
        )]);
        assert(d[idx(w, w - 1 - (w - 1 - x), h - 1 - (h - 1 - y), k)] == a[idx(
            w,
            w - 1 - x,
            h - 1 - y,
            k,
        )]);
        assert(w - 1 - (w - 1 - x) == x && h - 1 - (h - 1 - y) == y);
    }
    lemma_buffers_equal(c, d, w, h);
}

/// The 270-degree rotation of a buffer is unique, so the composition of
/// three 90-degree rotations is byte-equal to the direct 270-degree
/// rotation.
pub proof fn lemma_rotate_270_unique(a: Seq<u8>, c: Seq<u8>, d: Seq<u8>, w: nat, h: nat)
    requires
        is_rotate_270(a, c, w, h),
        is_rotate_270(a, d, w, h),
    ensures
        c == d,
{
    assert(expected_len(h, w) == expected_len(w, h)) by (nonlinear_arith);
    assert forall|ox: int, oy: int, k: int|
        0 <= ox < h && 0 <= oy < w && 0 <= k < 4 implies c[#[trigger] idx(h, ox, oy, k)] == d[idx(
        h,
        ox,
        oy,
        k,
    )] by {
        assert(c[idx(h, h - 1 - (h - 1 - ox), oy, k)] == a[idx(w, oy, h - 1 - ox, k)]);
        assert(d[idx(h, h - 1 - (h - 1 - ox), oy, k)] == a[idx(w, oy, h - 1 - ox, k)]);
        assert(h - 1 - (h - 1 - ox) == ox);
    }
    lemma_buffers_equal(c, d, h, w);
}

/// Cropping the full rectangle returns a buffer byte-equal to the input.
pub proof fn lemma_crop_full_identity(a: Seq<u8>, b: Seq<u8>, w: nat, h: nat)
    requires
        a.len() == expected_len(w, h),
        is_crop(a, b, w, 0, 0, w, h),
    ensures
        b == a,
{
    assert forall|x: int, y: int, k: int|
        0 <= x < w && 0 <= y < h && 0 <= k < 4 implies b[#[trigger] idx(w, x, y, k)] == a[idx(
        w,
        x,
        y,
        k,
    )] by {
        assert(b[idx(w, x, y, k)] == a[idx(w, 0 + x, 0 + y, k)]);
    }
    lemma_buffers_equal(b, a, w, h);
}

/// Cropping a sub-rectangle and then cropping again inside the result
/// selects the same pixels as one crop of the composed rectangle.
pub proof fn lemma_crop_composes(
    a: Seq<u8>,
    b: Seq<u8>,
    c: Seq<u8>,
    ow: nat,
    x1: int,
    y1: int,
    w1: nat,
    h1: nat,
    x2: int,
    y2: int,
    w2: nat,
    h2: nat,
)
    requires
        0 <= x1,
        0 <= y1,
        0 <= x2,
        0 <= y2,
        x2 + w2 <= w1,
        y2 + h2 <= h1,
        is_crop(a, b, ow, x1, y1, w1, h1),
        is_crop(b, c, w1, x2, y2, w2, h2),
    ensures
        is_crop(a, c, ow, x1 + x2, y1 + y2, w2, h2),
{
    assert forall|cc: int, r: int, k: int|
        0 <= cc < w2 && 0 <= r < h2 && 0 <= k < 4 implies c[#[trigger] idx(w2, cc, r, k)] == a[idx(
        ow,
        x1 + x2 + cc,
        y1 + y2 + r,
        k,
    )] by {
        assert(c[idx(w2, cc, r, k)] == b[idx(w1, x2 + cc, y2 + r, k)]);
        assert(b[idx(w1, x2 + cc, y2 + r, k)] == a[idx(ow, x1 + (x2 + cc), y1 + (y2 + r), k)]);
    }
}

/// A positive adjustment never darkens a colour channel, a negative one
/// never brightens it, and every alpha byte is preserved unchanged.
pub proof fn lemma_brightness_monotone(inp: Seq<u8>, out: Seq<u8>, adj: int)
    requires
        is_brightness(inp, out, adj),
    ensures
        adj >= 0 ==> forall|i: int| 0 <= i < inp.len() ==> #[trigger] out[i] >= inp[i],
        adj <= 0 ==> forall|i: int|
            0 <= i < inp.len() && i % 4 != 3 ==> #[trigger] out[i] <= inp[i],
        forall|i: int| 0 <= i < inp.len() && i % 4 == 3 ==> #[trigger] out[i] == inp[i],
{
    assert forall|i: int| 0 <= i < inp.len() implies {
        &&& adj >= 0 ==> #[trigger] out[i] >= inp[i]
        &&& adj <= 0 && i % 4 != 3 ==> out[i] <= inp[i]
        &&& i % 4 == 3 ==> out[i] == inp[i]
    } by {
        if i % 4 != 3 {
            assert(out[i] == adjust_channel(inp[i], adj));
        }
    }
}

} // verus!
