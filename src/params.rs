//! The per-session parameters of the Lyapunov map: domain bounds and palette
//! phase, drawn from uniform samples.
use vstd::prelude::*;
use crate::fixed::ONE;

verus! {

/// Domain bounds of the logistic map and the palette's phase offset, all in
/// fixed point.
#[derive(Clone, Copy, Debug, PartialEq, Eq, Structural)]
pub struct FractalParameters {
    pub x_min: i64,
    pub x_max: i64,
    pub y_min: i64,
    pub y_max: i64,
    pub color_seed: i64,
}

/// A draw from `U(lo, hi)` made from the unit sample `u / ONE`.
pub open spec fn uniform_spec(lo: int, hi: int, u: int) -> int {
    lo + (hi - lo) * u / (ONE as int)
}

/// The parameters drawn from five unit samples, in order: the colour seed
/// from `U(0, 10)`, `x_min` from `U(1.5, 3)`, `x_max` from `U(x_min, 4)`,
/// `y_min` from `U(1.5, 3)`, `y_max` from `U(y_min, 4)`.
pub open spec fn randomized(s: Seq<u32>) -> FractalParameters {
    let x_min = uniform_spec(3 * ONE / 2, 3 * ONE, s[1] as int);
    let y_min = uniform_spec(3 * ONE / 2, 3 * ONE, s[3] as int);
    FractalParameters {
        color_seed: uniform_spec(0, 10 * ONE, s[0] as int) as i64,
        x_min: x_min as i64,
        x_max: uniform_spec(x_min, 4 * ONE, s[2] as int) as i64,
        y_min: y_min as i64,
        y_max: uniform_spec(y_min, 4 * ONE, s[4] as int) as i64,
    }
}

/// Every sample is a fraction in `[0, 1)`.
pub open spec fn unit_samples(s: Seq<u32>) -> bool {
    forall|i: int| 0 <= i < s.len() ==> s[i] < ONE
}

proof fn lemma_uniform_range(lo: int, hi: int, u: int)
    requires
        lo <= hi,
        0 <= u < ONE,
    ensures
        lo <= uniform_spec(lo, hi, u) <= hi,
        lo < hi ==> uniform_spec(lo, hi, u) < hi,
        hi - lo >= ONE && u > 0 ==> lo < uniform_spec(lo, hi, u),
{
    let one = ONE as int;
    let d = hi - lo;
    assert(0 <= d * u <= d * (one - 1)) by (nonlinear_arith)
        requires
            d >= 0,
            0 <= u < one,
    ;
    assert(0 <= d * u / one <= d) by (nonlinear_arith)
        requires
            0 <= d * u <= d * (one - 1),
            one > 0,
            d >= 0,
    ;
    if lo < hi {
        assert((hi - lo) * u / one < hi - lo) by (nonlinear_arith)
            requires
                0 <= (hi - lo) * u <= (hi - lo) * (one - 1),
                one > 0,
                hi - lo > 0,
        ;
    }
    if hi - lo >= one && u > 0 {
        assert(d * u >= d) by (nonlinear_arith)
            requires
                d >= 0,
                u >= 1,
        ;
        assert((hi - lo) * u / one >= 1) by (nonlinear_arith)
            requires
                (hi - lo) * u >= one,
                one > 0,
        ;
    }
}

fn uniform(lo: i64, hi: i64, u: u32) -> (r: i64)
    requires
        0 <= lo <= hi <= 10 * ONE,
        u < ONE,
    ensures
        r == uniform_spec(lo as int, hi as int, u as int),
        lo <= r <= hi,
        lo < hi ==> r < hi,
{
    proof {
        lemma_uniform_range(lo as int, hi as int, u as int);
    }
    assert(0 <= (hi - lo) * u <= 10 * 16777216 * 16777216) by (nonlinear_arith)
        requires
            0 <= hi - lo <= 10 * 16777216,
            0 <= u < 16777216,
    ;
    let span: i128 = (hi as i128) - (lo as i128);
    let step: i128 = span * (u as i128) / (ONE as i128);
    (lo as i128 + step) as i64
}

impl FractalParameters {
    /// Bounds ordered, the colour seed in `[0, 10)`, both lower bounds in
    /// `[1.5, 3)` and both upper bounds in `[lower, 4)`.
    pub open spec fn wf(&self) -> bool {
        &&& 0 <= self.color_seed < 10 * ONE
        &&& 3 * ONE / 2 <= self.x_min < 3 * ONE
        &&& self.x_min <= self.x_max < 4 * ONE
        &&& 3 * ONE / 2 <= self.y_min < 3 * ONE
        &&& self.y_min <= self.y_max < 4 * ONE
    }

    /// Draws a fresh set of parameters from five unit samples (fixed-point
    /// fractions in `[0, 1)`), each upper bound conditioned on its lower bound.
    pub fn randomize(samples: [u32; 5]) -> (r: Self)
        requires
            unit_samples(samples@),
        ensures
            r == randomized(samples@),
            r.wf(),
    {
        assert(samples@[0] < ONE && samples@[1] < ONE && samples@[2] < ONE);
        assert(samples@[3] < ONE && samples@[4] < ONE);
        let color_seed = uniform(0, 10 * ONE, samples[0]);
        let x_min = uniform(3 * ONE / 2, 3 * ONE, samples[1]);
        let x_max = uniform(x_min, 4 * ONE, samples[2]);
        let y_min = uniform(3 * ONE / 2, 3 * ONE, samples[3]);
        let y_max = uniform(y_min, 4 * ONE, samples[4]);
        FractalParameters { x_min, x_max, y_min, y_max, color_seed }
    }
}

/// Drawn parameters are strictly ordered, `x_min < x_max` and
/// `y_min < y_max`, whenever the samples for the upper bounds are not zero
/// (a zero sample makes `U(lo, 4)` return `lo` itself).
pub proof fn lemma_randomized_ordered(s: Seq<u32>)
    requires
        s.len() == 5,
        unit_samples(s),
        s[2] > 0,
        s[4] > 0,
    ensures
        randomized(s).x_min < randomized(s).x_max,
        randomized(s).y_min < randomized(s).y_max,
{
    let lo = 3 * ONE / 2;
    assert(s[1] < ONE && s[2] < ONE && s[3] < ONE && s[4] < ONE);
    lemma_uniform_range(lo as int, 3 * ONE, s[1] as int);
    lemma_uniform_range(lo as int, 3 * ONE, s[3] as int);
    let x_min = uniform_spec(lo as int, 3 * ONE, s[1] as int);
    let y_min = uniform_spec(lo as int, 3 * ONE, s[3] as int);
    lemma_uniform_range(x_min, 4 * ONE, s[2] as int);
    lemma_uniform_range(y_min, 4 * ONE, s[4] as int);
}

} // verus!
