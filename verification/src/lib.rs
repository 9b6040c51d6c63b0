//! The OpenGL calls of a minimal triangle renderer, planned apart from the
//! context that performs them.
//!
//! The renderer compiles a shader pair, uploads vertex data, and draws one
//! triangle per frame. This crate decides which calls that takes, with which
//! arguments and in which order, and proves it; it never touches a GL
//! context itself. Whoever owns the context performs each [`call::GlCall`]
//! and hands back what it answered.
//!
//! * [`buffer`]: vertex data and its layout, with a fluent builder;
//! * [`call`]: the calls, as plain values;
//! * [`setup`]: setting a renderer up, round by round;
//! * [`renderer`]: a frame, a uniform update, a resize, the release;
//! * [`laws`]: what holds of all of them, for every input.

pub mod buffer;
pub mod call;
pub mod laws;
pub mod renderer;
pub mod setup;

pub use buffer::{AttribInfo, BufferData, ShaderInputInfo};
pub use renderer::Renderer;
