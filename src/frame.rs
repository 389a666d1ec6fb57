//! One rendered frame: advance the viewport, then pack the uniforms for the
//! single draw call.
use vstd::prelude::*;
use crate::viewport::{ViewportState, tick_spec};
use crate::params::FractalParameters;
use crate::shader::{
    LyapunovUniforms, Uniforms, mandelbrot_block, pack, pack_lyapunov, transform_of,
};

verus! {

/// Runs one escape-time frame: integrates the gesture once and returns the
/// uniforms of the new state.
pub fn frame(v: &mut ViewportState, width: u32, height: u32) -> (r: Uniforms)
    requires
        old(v).wf(),
    ensures
        *final(v) == tick_spec(*old(v)),
        final(v).wf(),
        r == mandelbrot_block(*final(v), width, height),
{
    v.tick();
    pack(v, width, height)
}

/// Runs one Lyapunov frame: integrates the gesture once and returns the
/// uniforms of the new state with the given parameters.
pub fn frame_lyapunov(
    v: &mut ViewportState,
    p: &FractalParameters,
    width: u32,
    height: u32,
) -> (r: LyapunovUniforms)
    requires
        old(v).wf(),
        0 < width,
        0 < height,
    ensures
        *final(v) == tick_spec(*old(v)),
        final(v).wf(),
        r.transform@ == transform_of(*final(v), width as int, height as int),
        r.cxmin == p.x_min,
        r.cxmax == p.x_max,
        r.cymin == p.y_min,
        r.cymax == p.y_max,
        r.color_seed == p.color_seed,
{
    v.tick();
    pack_lyapunov(v, p, width, height)
}

/// Packing depends on its inputs alone: equal viewports, parameters and
/// surface sizes give identical uniform blocks for both shaders.
pub proof fn lemma_pack_deterministic(
    v1: ViewportState,
    v2: ViewportState,
    width1: u32,
    height1: u32,
    width2: u32,
    height2: u32,
)
    requires
        v1 == v2,
        width1 == width2,
        height1 == height2,
    ensures
        mandelbrot_block(v1, width1, height1) == mandelbrot_block(v2, width2, height2),
        transform_of(v1, width1 as int, height1 as int) == transform_of(
            v2,
            width2 as int,
            height2 as int,
        ),
{
}

} // verus!
