//! Texture, sampler and render-surface set-up for an OpenGL back end, and
//! the shader-input links of vertex, instance and constant buffers.

pub mod glenum;
pub mod format;
pub mod tex;
pub mod mip;
pub mod creation;
pub mod upload;
pub mod sampler;
pub mod buffer;
pub mod laws;
pub mod shape_laws;
pub mod format_laws;
pub mod tex_laws;
