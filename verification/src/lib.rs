//! A verified core for a windowed OpenGL demo: the shader-program build
//! life cycle and the per-frame event/render loop are modelled as plain
//! state and decision functions, while the window system, the GL driver
//! and the overlay library act through the values these functions consume
//! and produce.

pub mod commands;
pub mod frame;
pub mod geometry;
pub mod shader;
pub mod texture;
