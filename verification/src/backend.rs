//! Backend contracts and the OpenGL backend's core.

pub mod buffer;
pub mod framebuffer;
pub mod gl;
pub mod texture;
