//! Translation of raw pointer positions into normalized viewport offsets.
use vstd::prelude::*;
use crate::fixed::{ONE, trunc_div, clamp64, div_trunc, saturate, lemma_trunc_div_odd};

verus! {

/// The cubic-weighted offset of a pixel position along one axis of length
/// `extent`: `4 * (raw / extent - 1/2)^3`, which equals
/// `(2 raw - extent)^3 / (2 extent^3)`, in fixed point.
pub open spec fn axis_offset(raw: int, extent: int) -> int {
    let d = 2 * raw - extent;
    clamp64(trunc_div(ONE * (d * d * d), 2 * (extent * extent * extent)))
}

fn axis(raw: i32, extent: u32) -> (r: i64)
    requires
        0 < extent,
    ensures
        r == axis_offset(raw as int, extent as int),
{
    let d: i128 = 2 * (raw as i128) - (extent as i128);
    let e: i128 = extent as i128;
    assert(-0x2_0000_0000 <= d <= 0x2_0000_0000);
    assert(0 <= d * d <= 0x4_0000_0000_0000_0000) by (nonlinear_arith)
        requires
            -0x2_0000_0000 <= d <= 0x2_0000_0000,
    ;
    let d2: i128 = d * d;
    assert(-0x8_0000_0000_0000_0000_0000_0000 <= d2 * d <= 0x8_0000_0000_0000_0000_0000_0000)
        by (nonlinear_arith)
        requires
            -0x2_0000_0000 <= d <= 0x2_0000_0000,
            0 <= d2 <= 0x4_0000_0000_0000_0000,
    ;
    let d3: i128 = d2 * d;
    assert(-0x8_0000_0000_0000_0000_0000_0000_0000_00 <= 16777216 * d3
        <= 0x8_0000_0000_0000_0000_0000_0000_0000_00) by (nonlinear_arith)
        requires
            -0x8_0000_0000_0000_0000_0000_0000 <= d3 <= 0x8_0000_0000_0000_0000_0000_0000,
    ;
    let num: i128 = (ONE as i128) * d3;
    assert(1 <= e * e <= 0x1_0000_0000_0000_0000) by (nonlinear_arith)
        requires
            1 <= e <= 0x1_0000_0000,
    ;
    let e2: i128 = e * e;
    assert(1 <= e2 * e <= 0x1_0000_0000_0000_0000_0000_0000) by (nonlinear_arith)
        requires
            1 <= e <= 0x1_0000_0000,
            1 <= e2 <= 0x1_0000_0000_0000_0000,
    ;
    let den: i128 = 2 * (e2 * e);
    saturate(div_trunc(num, den))
}

/// Maps a raw pixel position on a `width` by `height` surface to its
/// normalized offset from the surface centre (fixed point on both axes).
pub fn normalize(raw_x: i32, raw_y: i32, width: u32, height: u32) -> (r: (i64, i64))
    requires
        0 < width,
        0 < height,
    ensures
        r.0 == axis_offset(raw_x as int, width as int),
        r.1 == axis_offset(raw_y as int, height as int),
{
    (axis(raw_x, width), axis(raw_y, height))
}

/// `normalize` is odd about the surface centre: two positions that lie
/// symmetrically about the centre of an axis get opposite offsets.
pub proof fn lemma_normalize_odd(a: int, b: int, extent: int)
    requires
        0 < extent,
        a + b == extent,
    ensures
        axis_offset(a, extent) == -axis_offset(b, extent),
{
    let d = 2 * a - extent;
    assert(2 * b - extent == -d);
    assert((-d) * (-d) * (-d) == -(d * d * d)) by (nonlinear_arith);
    let c = d * d * d;
    assert(ONE * (-c) == -(ONE * c)) by (nonlinear_arith);
    let den = 2 * (extent * extent * extent);
    assert(den > 0) by (nonlinear_arith)
        requires
            extent > 0,
            den == 2 * (extent * extent * extent),
    ;
    lemma_trunc_div_odd(ONE * c, den);
}

} // verus!
