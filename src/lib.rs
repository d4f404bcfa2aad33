//! A small rendering core over wgpu: byte layouts for vertex and uniform
//! data, descriptor builders, an aligned per-object uniform pool, and the
//! decisions of the per-frame loop, each stated and proved with Verus.

pub mod layout;
pub mod gpu;
pub mod bind_group;
pub mod bind_group_layout;
pub mod ubo;
pub mod mesh_builder;
pub mod pipeline;
pub mod surface;
pub mod scene;
pub mod renderer;
pub mod material;
