//! The browser backend: the uniform rendering API implemented over a WebGL 2
//! context that the page supplies.

mod command_buffer;
mod context;
mod index_buffer;
mod internal;
mod pipeline;
mod renderable;
mod shader;
mod state;
mod texture;
mod uniform_buffer;
mod version;
mod vertex_buffer;

pub mod err;
pub mod sys;

pub use crate::webgl::command_buffer::CommandBuffer;
pub use crate::webgl::context::Context;
pub use crate::webgl::err::Error;
pub use crate::webgl::index_buffer::IndexBuffer;
pub use crate::webgl::index_buffer::index_bytes;
pub use crate::webgl::index_buffer::le_bytes_of;
pub use crate::webgl::pipeline::Pipeline;
pub use crate::webgl::renderable::Renderable;
pub use crate::webgl::shader::Library;
pub use crate::webgl::shader::Shader;
pub use crate::webgl::shader::program_outcome;
pub use crate::webgl::shader::shader_outcome;
pub use crate::webgl::state::Location;
pub use crate::webgl::state::State;
pub use crate::webgl::state::StateDesc;
pub use crate::webgl::state::Uniform;
pub use crate::webgl::texture::Texture;
pub use crate::webgl::texture::filter_codes;
pub use crate::webgl::texture::mipmap_capable;
pub use crate::webgl::uniform_buffer::UniformBuffer;
pub use crate::webgl::version::glsl_version;
pub use crate::webgl::vertex_buffer::VertexBuffer;
