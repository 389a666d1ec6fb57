//! Viewport state machine and per-frame shader parameter derivation for an
//! interactive fractal viewer.
//!
//! All quantities are held in signed fixed point with 24 fractional bits (see
//! [`fixed`]); the rendering side converts them to the shader's 32-bit floats.
pub mod fixed;
pub mod input;
pub mod viewport;
pub mod params;
pub mod shader;
pub mod frame;

pub use fixed::ONE;
pub use frame::{frame, frame_lyapunov};
pub use input::normalize;
pub use params::FractalParameters;
pub use shader::{
    lyapunov_meta, meta, pack, pack_lyapunov, quad_indices, quad_vertices, LyapunovUniforms,
    UniformKind, UniformSlot, Uniforms, ITERATIONS,
};
pub use viewport::{MIN_ZOOM, Gesture, InputEvent, Key, MouseButton, Response, TouchPhase, ViewportState};
