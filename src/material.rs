//! A texture and its sampler, bound together at set 0 of the pipeline.
use vstd::prelude::*;
use crate::bind_group::{self, Entry, Resource};
use crate::gpu::{GpuBindGroup, GpuBindGroupLayout};

verus! {

/// A material: the view and sampler it draws with, and the bind group that
/// holds them at bindings 0 and 1 of the material layout.
pub struct Material {
    pub view: wgpu::TextureView,
    pub sampler: wgpu::Sampler,
    pub bind_group: GpuBindGroup,
}

impl Material {
    /// Binds `view` at binding 0 and `sampler` at binding 1 against `layout`,
    /// a layout declared with one material; `None` when wgpu rejects them.
    pub fn new(
        device: &wgpu::Device,
        view: &wgpu::TextureView,
        sampler: &wgpu::Sampler,
        label: &str,
        layout: &GpuBindGroupLayout,
    ) -> (r: Option<Material>)
        ensures
            r matches Some(m) ==> m.view == *view && m.sampler == *sampler && m.bind_group.layout() == *layout
                && m.bind_group.entries() == seq![
                Entry { binding: 0, resource: Resource::TextureView(*view) },
                Entry { binding: 1, resource: Resource::Sampler(*sampler) },
            ],
    {
        let mut builder = bind_group::Builder::new(device);
        builder.set_layout(layout);
        builder.add_material(view, sampler);
        match builder.build(label) {
            Some(bind_group) => Some(Material { view: view.clone(), sampler: sampler.clone(), bind_group }),
            None => None,
        }
    }
}

} // verus!
