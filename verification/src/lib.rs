//! A cross-backend graphics rendering abstraction: one logical API of
//! contexts, command buffers, pipelines, shaders, buffers, textures and
//! renderables. This crate holds the browser backend, which draws through a
//! WebGL 2 context, together with the types that all backends share; the
//! desktop backends drive C APIs that the verifier cannot follow and live in
//! a crate of their own on top of this one.
//!
//! What is verified is the state discipline around the GPU: buffer
//! capacities and when an update must be refused, the pipeline counter and
//! which pipeline a command buffer is bound to, and the cache of vertex
//! array objects that a renderable builds per pipeline. The GPU calls
//! themselves go through declared trusted functions that promise nothing
//! beyond their shape.

mod shared;

pub mod promise;
pub mod webgl;

pub use shared::Binding;
pub use shared::ClearColor;
pub use shared::PipelineDesc;
pub use shared::TextureFilter;
pub use shared::is_power_of_2;
pub use shared::single_bit;
