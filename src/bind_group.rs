//! Accumulates the resources of one bind group and creates it against a layout.
use vstd::prelude::*;
use crate::gpu::{create_bind_group, GpuBindGroup, GpuBindGroupLayout};

verus! {

/// A concrete resource bound at one slot of a bind group.
pub enum Resource {
    TextureView(wgpu::TextureView),
    Sampler(wgpu::Sampler),
    /// A buffer, bound from the byte offset with no declared size.
    Buffer(wgpu::Buffer, u64),
}

/// One slot of a bind group: its binding index and what is bound there.
pub struct Entry {
    pub binding: u32,
    pub resource: Resource,
}

/// A single-use builder: `build` hands out the group and empties the entries.
pub struct Builder {
    entries: Vec<Entry>,
    layout: Option<GpuBindGroupLayout>,
    device: wgpu::Device,
}

impl Builder {
    /// The entries added since the last `build` or `reset`, in order.
    pub closed spec fn entries(&self) -> Seq<Entry> {
        self.entries@
    }

    pub closed spec fn layout(&self) -> Option<GpuBindGroupLayout> {
        self.layout
    }

    pub closed spec fn device(&self) -> wgpu::Device {
        self.device
    }

    /// Binding indices count up from zero in the order the entries were added.
    pub open spec fn wf(&self) -> bool {
        &&& self.entries().len() <= u32::MAX
        &&& forall|k: int| 0 <= k < self.entries().len() ==> #[trigger] self.entries()[k].binding == k
    }

    pub fn new(device: &wgpu::Device) -> (r: Self)
        ensures
            r.wf(),
            r.entries().len() == 0,
            r.layout() == None::<GpuBindGroupLayout>,
            r.device() == *device,
    {
        Builder { entries: Vec::new(), layout: None, device: device.clone() }
    }

    /// The entries added since the last `build` or `reset`.
    pub fn entry_list(&self) -> (r: &Vec<Entry>)
        ensures
            r@ == self.entries(),
    {
        &self.entries
    }

    /// Drops the entries added so far; the layout stays set.
    pub fn reset(&mut self)
        ensures
            final(self).wf(),
            final(self).entries().len() == 0,
            final(self).layout() == old(self).layout(),
            final(self).device() == old(self).device(),
    {
        self.entries.clear();
    }

    pub fn set_layout(&mut self, layout: &GpuBindGroupLayout)
        ensures
            final(self).entries() == old(self).entries(),
            final(self).layout() == Some(*layout),
            final(self).device() == old(self).device(),
    {
        self.layout = Some(layout.clone());
    }

    /// Adds a texture view and then a sampler, at the next two binding indices.
    pub fn add_material(&mut self, view: &wgpu::TextureView, sampler: &wgpu::Sampler)
        requires
            old(self).wf(),
            old(self).entries().len() + 2 <= u32::MAX,
        ensures
            final(self).wf(),
            final(self).entries() == old(self).entries().push(
                Entry { binding: old(self).entries().len() as u32, resource: Resource::TextureView(*view) },
            ).push(
                Entry { binding: (old(self).entries().len() + 1) as u32, resource: Resource::Sampler(*sampler) },
            ),
            final(self).layout() == old(self).layout(),
            final(self).device() == old(self).device(),
    {
        let n = self.entries.len() as u32;
        self.entries.push(Entry { binding: n, resource: Resource::TextureView(view.clone()) });
        self.entries.push(Entry { binding: n + 1, resource: Resource::Sampler(sampler.clone()) });
    }

    /// Adds `buffer` bound from `offset` on, with no declared size, at the
    /// next binding index.
    pub fn add_buffer(&mut self, buffer: &wgpu::Buffer, offset: u64)
        requires
            old(self).wf(),
            old(self).entries().len() + 1 <= u32::MAX,
        ensures
            final(self).wf(),
            final(self).entries() == old(self).entries().push(
                Entry {
                    binding: old(self).entries().len() as u32,
                    resource: Resource::Buffer(*buffer, offset),
                },
            ),
            final(self).layout() == old(self).layout(),
            final(self).device() == old(self).device(),
    {
        let n = self.entries.len() as u32;
        self.entries.push(Entry { binding: n, resource: Resource::Buffer(buffer.clone(), offset) });
    }

    /// Creates the group against the set layout from the entries added since
    /// the last build, then empties them. A builder with no entries, such as
    /// one built a second time without adding anything, gives `None`, as
    /// does a group that wgpu rejects.
    pub fn build(&mut self, label: &str) -> (r: Option<GpuBindGroup>)
        requires
            old(self).layout().is_some(),
        ensures
            old(self).entries().len() == 0 ==> r is None,
            r matches Some(g) ==> g.layout() == old(self).layout()->Some_0 && g.entries() == old(self).entries(),
            final(self).wf(),
            final(self).entries().len() == 0,
            final(self).layout() == old(self).layout(),
            final(self).device() == old(self).device(),
    {
        let r = if self.entries.len() == 0 {
            None
        } else {
            match &self.layout {
                Some(layout) => create_bind_group(&self.device, layout, &self.entries, label),
                None => None,
            }
        };
        self.reset();
        r
    }
}

} // verus!
