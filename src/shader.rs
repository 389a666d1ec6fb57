//! The contract with the GPU side: the quad that is drawn, the uniform
//! layouts the fragment shaders declare, and the packing of the viewer state
//! into those uniforms.
use vstd::prelude::*;
use crate::fixed::{ONE, trunc_div, clamp64, div_trunc, saturate};
use crate::viewport::ViewportState;
use crate::params::FractalParameters;

verus! {

/// The type of a shader uniform.
#[derive(Clone, Copy, Debug, PartialEq, Eq, Structural)]
pub enum UniformKind {
    Float1,
    Float2,
    Int1,
    Mat4,
}

/// One declared uniform: its name in the shader and its type.
#[derive(Clone, Copy, Debug, PartialEq, Eq)]
pub struct UniformSlot {
    pub name: &'static str,
    pub kind: UniformKind,
}

/// The fixed iteration count of the escape-time shader.
pub const ITERATIONS: i32 = 100;

/// The uniform block of the escape-time shader. `resolution` is in pixels;
/// `center` and `zoom` are fixed point and become 32-bit floats on upload.
#[derive(Clone, Copy, Debug, PartialEq, Eq)]
pub struct Uniforms {
    pub resolution: (u32, u32),
    pub center: (i64, i64),
    pub zoom: i64,
    pub iterations: i32,
}

/// The uniform block of the Lyapunov shader, all fixed point: a column-major
/// 4x4 transform, the domain bounds and the palette phase.
#[derive(Clone, Copy, Debug, PartialEq, Eq)]
pub struct LyapunovUniforms {
    pub transform: [i64; 16],
    pub cxmin: i64,
    pub cxmax: i64,
    pub cymin: i64,
    pub cymax: i64,
    pub color_seed: i64,
}

/// The uniforms of the escape-time shader, in declaration order.
pub fn meta() -> (r: Vec<UniformSlot>)
    ensures
        r@.len() == 4,
        r@[0].name@ == "resolution"@ && r@[0].kind == UniformKind::Float2,
        r@[1].name@ == "center"@ && r@[1].kind == UniformKind::Float2,
        r@[2].name@ == "zoom"@ && r@[2].kind == UniformKind::Float1,
        r@[3].name@ == "iterations"@ && r@[3].kind == UniformKind::Int1,
{
    vec![
        UniformSlot { name: "resolution", kind: UniformKind::Float2 },
        UniformSlot { name: "center", kind: UniformKind::Float2 },
        UniformSlot { name: "zoom", kind: UniformKind::Float1 },
        UniformSlot { name: "iterations", kind: UniformKind::Int1 },
    ]
}

/// The uniforms of the Lyapunov shader, in declaration order.
pub fn lyapunov_meta() -> (r: Vec<UniformSlot>)
    ensures
        r@.len() == 6,
        r@[0].name@ == "transform"@ && r@[0].kind == UniformKind::Mat4,
        r@[1].name@ == "cxmin"@ && r@[1].kind == UniformKind::Float1,
        r@[2].name@ == "cxmax"@ && r@[2].kind == UniformKind::Float1,
        r@[3].name@ == "cymin"@ && r@[3].kind == UniformKind::Float1,
        r@[4].name@ == "cymax"@ && r@[4].kind == UniformKind::Float1,
        r@[5].name@ == "colorSeed"@ && r@[5].kind == UniformKind::Float1,
{
    vec![
        UniformSlot { name: "transform", kind: UniformKind::Mat4 },
        UniformSlot { name: "cxmin", kind: UniformKind::Float1 },
        UniformSlot { name: "cxmax", kind: UniformKind::Float1 },
        UniformSlot { name: "cymin", kind: UniformKind::Float1 },
        UniformSlot { name: "cymax", kind: UniformKind::Float1 },
        UniformSlot { name: "colorSeed", kind: UniformKind::Float1 },
    ]
}

/// The corners of the full-screen quad, counter-clockwise from bottom left.
pub fn quad_vertices() -> (r: Vec<(i8, i8)>)
    ensures
        r@ == seq![(-1i8, -1i8), (1i8, -1i8), (1i8, 1i8), (-1i8, 1i8)],
{
    vec![(-1, -1), (1, -1), (1, 1), (-1, 1)]
}

/// The two triangles of the quad, as indices into [`quad_vertices`].
pub fn quad_indices() -> (r: Vec<u16>)
    ensures
        r@ == seq![0u16, 1, 2, 0, 2, 3],
{
    vec![0, 1, 2, 0, 2, 3]
}

/// The escape-time uniforms for a viewport on a `width` by `height` surface.
pub open spec fn mandelbrot_block(v: ViewportState, width: u32, height: u32) -> Uniforms {
    Uniforms {
        resolution: (width, height),
        center: (v.center_x, v.center_y),
        zoom: v.zoom,
        iterations: ITERATIONS,
    }
}

/// Packs the escape-time uniforms: resolution, centre and zoom pass straight
/// through, with the fixed iteration count.
pub fn pack(v: &ViewportState, width: u32, height: u32) -> (r: Uniforms)
    ensures
        r == mandelbrot_block(*v, width, height),
{
    Uniforms {
        resolution: (width, height),
        center: (v.center_x, v.center_y),
        zoom: v.zoom,
        iterations: ITERATIONS,
    }
}

/// The aspect correction `(sx, sy)`: `(width / height, 1)` on a surface that
/// is at least as wide as it is high, `(1, height / width)` otherwise.
pub open spec fn aspect_scale(width: int, height: int) -> (int, int) {
    if height <= width {
        (ONE * width / height, ONE as int)
    } else {
        (ONE as int, ONE * height / width)
    }
}

/// The fixed-point product of two fixed-point values.
pub open spec fn fx_mul(a: int, b: int) -> int {
    clamp64(trunc_div(a * b, ONE as int))
}

/// The column-major transform: aspect scale times zoom on the diagonal, the
/// aspect-scaled centre as translation in elements 12 and 13.
pub open spec fn transform_of(v: ViewportState, width: int, height: int) -> Seq<i64> {
    let (sx, sy) = aspect_scale(width, height);
    seq![
        fx_mul(sx, v.zoom as int) as i64, 0, 0, 0,
        0, fx_mul(sy, v.zoom as int) as i64, 0, 0,
        0, 0, ONE, 0,
        fx_mul(sx, v.center_x as int) as i64, fx_mul(sy, v.center_y as int) as i64, 0, ONE,
    ]
}

fn mul_fx(a: i64, b: i64) -> (r: i64)
    ensures
        r == fx_mul(a as int, b as int),
{
    assert(-0x4000_0000_0000_0000_0000_0000_0000_0000 <= a * b
        <= 0x4000_0000_0000_0000_0000_0000_0000_0000) by (nonlinear_arith)
        requires
            i64::MIN <= a <= i64::MAX,
            i64::MIN <= b <= i64::MAX,
    ;
    let p: i128 = (a as i128) * (b as i128);
    saturate(div_trunc(p, ONE as i128))
}

fn scale_for(width: u32, height: u32) -> (r: (i64, i64))
    requires
        0 < width,
        0 < height,
    ensures
        r.0 == aspect_scale(width as int, height as int).0,
        r.1 == aspect_scale(width as int, height as int).1,
{
    if height <= width {
        assert(0 <= 16777216 * width <= 16777216 * 0xffff_ffff) by (nonlinear_arith)
            requires
                0 <= width <= 0xffff_ffff,
        ;
        let s: u64 = (ONE as u64) * (width as u64) / (height as u64);
        assert(s <= ONE * width) by (nonlinear_arith)
            requires
                height >= 1,
                s == (ONE * width) / (height as int),
        ;
        (s as i64, ONE)
    } else {
        assert(0 <= 16777216 * height <= 16777216 * 0xffff_ffff) by (nonlinear_arith)
            requires
                0 <= height <= 0xffff_ffff,
        ;
        let s: u64 = (ONE as u64) * (height as u64) / (width as u64);
        assert(s <= ONE * height) by (nonlinear_arith)
            requires
                width >= 1,
                s == (ONE * height) / (width as int),
        ;
        (ONE, s as i64)
    }
}

/// Packs the Lyapunov uniforms: the aspect, zoom and pan transform of the
/// viewport and the parameters copied verbatim.
pub fn pack_lyapunov(
    v: &ViewportState,
    p: &FractalParameters,
    width: u32,
    height: u32,
) -> (r: LyapunovUniforms)
    requires
        0 < width,
        0 < height,
    ensures
        r.transform@ == transform_of(*v, width as int, height as int),
        r.cxmin == p.x_min,
        r.cxmax == p.x_max,
        r.cymin == p.y_min,
        r.cymax == p.y_max,
        r.color_seed == p.color_seed,
{
    let (sx, sy) = scale_for(width, height);
    let transform: [i64; 16] = [
        mul_fx(sx, v.zoom), 0, 0, 0,
        0, mul_fx(sy, v.zoom), 0, 0,
        0, 0, ONE, 0,
        mul_fx(sx, v.center_x), mul_fx(sy, v.center_y), 0, ONE,
    ];
    assert(transform@ =~= transform_of(*v, width as int, height as int));
    LyapunovUniforms {
        transform,
        cxmin: p.x_min,
        cxmax: p.x_max,
        cymin: p.y_min,
        cymax: p.y_max,
        color_seed: p.color_seed,
    }
}

} // verus!
