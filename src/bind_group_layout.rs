//! Declares the slots of a bind group layout, numbered in declaration order.
use vstd::prelude::*;
use crate::bind_group::{Entry, Resource};
use crate::gpu::{create_bind_group_layout, layout_entry, GpuBindGroupLayout, RawSlot};

verus! {

/// What a slot of a layout holds.
#[derive(Clone, Copy, PartialEq, Eq, Debug)]
pub enum BindingKind {
    /// A filterable two-dimensional float texture.
    Texture,
    /// A filtering sampler.
    Sampler,
    /// A uniform buffer.
    UniformBuffer,
}

/// The shader stage that reads a slot.
#[derive(Clone, Copy, PartialEq, Eq, Debug)]
pub enum Stage {
    Vertex,
    Fragment,
}

/// One declared slot of a layout.
#[derive(Clone, Copy, PartialEq, Eq, Debug)]
pub struct LayoutEntry {
    pub binding: u32,
    pub kind: BindingKind,
    pub stage: Stage,
}

/// Whether a resource is of the kind a layout slot declares.
pub open spec fn fits(kind: BindingKind, resource: Resource) -> bool {
    match resource {
        Resource::TextureView(_) => kind == BindingKind::Texture,
        Resource::Sampler(_) => kind == BindingKind::Sampler,
        Resource::Buffer(_, _) => kind == BindingKind::UniformBuffer,
    }
}

/// A group's entries match a layout's slots one for one: same binding index
/// and a resource of the declared kind.
pub open spec fn group_matches(slots: Seq<LayoutEntry>, entries: Seq<Entry>) -> bool {
    &&& slots.len() == entries.len()
    &&& forall|k: int|
        0 <= k < slots.len() ==> (#[trigger] slots[k]).binding == (#[trigger] entries[k]).binding
            && fits(slots[k].kind, entries[k].resource)
}

/// A single-use builder: `build` hands out the layout and empties the entries.
pub struct Builder {
    entries: Vec<LayoutEntry>,
    device: wgpu::Device,
}

impl Builder {
    /// The slots declared since the last `build` or `reset`, in order.
    pub closed spec fn entries(&self) -> Seq<LayoutEntry> {
        self.entries@
    }

    pub closed spec fn device(&self) -> wgpu::Device {
        self.device
    }

    /// Binding indices count up from zero in declaration order.
    pub open spec fn wf(&self) -> bool {
        &&& self.entries().len() <= u32::MAX
        &&& forall|k: int| 0 <= k < self.entries().len() ==> #[trigger] self.entries()[k].binding == k
    }

    pub fn new(device: &wgpu::Device) -> (r: Self)
        ensures
            r.wf(),
            r.entries().len() == 0,
            r.device() == *device,
    {
        Builder { entries: Vec::new(), device: device.clone() }
    }

    /// The slots declared since the last `build` or `reset`.
    pub fn entry_list(&self) -> (r: &Vec<LayoutEntry>)
        ensures
            r@ == self.entries(),
    {
        &self.entries
    }

    pub fn reset(&mut self)
        ensures
            final(self).wf(),
            final(self).entries().len() == 0,
            final(self).device() == old(self).device(),
    {
        self.entries.clear();
    }

    /// Declares a texture and then a sampler, both read by the fragment
    /// stage, at the next two binding indices.
    pub fn add_material(&mut self)
        requires
            old(self).wf(),
            old(self).entries().len() + 2 <= u32::MAX,
        ensures
            final(self).wf(),
            final(self).entries() == old(self).entries().push(
                LayoutEntry {
                    binding: old(self).entries().len() as u32,
                    kind: BindingKind::Texture,
                    stage: Stage::Fragment,
                },
            ).push(
                LayoutEntry {
                    binding: (old(self).entries().len() + 1) as u32,
                    kind: BindingKind::Sampler,
                    stage: Stage::Fragment,
                },
            ),
            final(self).device() == old(self).device(),
    {
        let n = self.entries.len() as u32;
        self.entries.push(LayoutEntry { binding: n, kind: BindingKind::Texture, stage: Stage::Fragment });
        self.entries.push(LayoutEntry { binding: n + 1, kind: BindingKind::Sampler, stage: Stage::Fragment });
    }

    /// Declares a uniform buffer read by the vertex stage at the next binding index.
    pub fn add_ubo(&mut self)
        requires
            old(self).wf(),
            old(self).entries().len() + 1 <= u32::MAX,
        ensures
            final(self).wf(),
            final(self).entries() == old(self).entries().push(
                LayoutEntry {
                    binding: old(self).entries().len() as u32,
                    kind: BindingKind::UniformBuffer,
                    stage: Stage::Vertex,
                },
            ),
            final(self).device() == old(self).device(),
    {
        let n = self.entries.len() as u32;
        self.entries.push(LayoutEntry { binding: n, kind: BindingKind::UniformBuffer, stage: Stage::Vertex });
    }

    /// Creates a layout declaring exactly the slots declared so far, then
    /// empties them; `None` when wgpu rejects the slots.
    pub fn build(&mut self, label: &str) -> (r: Option<GpuBindGroupLayout>)
        ensures
            r matches Some(l) ==> l.slots() == old(self).entries(),
            final(self).wf(),
            final(self).entries().len() == 0,
            final(self).device() == old(self).device(),
    {
        let mut raw: Vec<RawSlot> = Vec::new();
        let mut i: usize = 0;
        while i < self.entries.len()
            invariant
                i <= self.entries@.len(),
                raw@.len() == i,
                forall|j: int| 0 <= j < i ==> (#[trigger] raw@[j]).slot() == self.entries@[j],
            decreases self.entries@.len() - i,
        {
            raw.push(layout_entry(&self.entries[i]));
            i = i + 1;
        }
        assert(raw@.map_values(|s: RawSlot| s.slot()) =~= self.entries@);
        let layout = create_bind_group_layout(&self.device, &raw, label);
        self.reset();
        layout
    }
}

/// A layout and a group whose bindings were both numbered in declaration
/// order, and whose resources were added in the order of the declared kinds,
/// agree slot for slot: each resource lands on the binding index its layout
/// declared for it.
pub proof fn lemma_declaration_order_matches(layout: Builder, group: crate::bind_group::Builder)
    requires
        layout.wf(),
        group.wf(),
        layout.entries().len() == group.entries().len(),
        forall|k: int|
            0 <= k < layout.entries().len() ==> fits(
                #[trigger] layout.entries()[k].kind,
                group.entries()[k].resource,
            ),
    ensures
        group_matches(layout.entries(), group.entries()),
{
    assert forall|k: int| 0 <= k < layout.entries().len() implies
        (#[trigger] layout.entries()[k]).binding == (#[trigger] group.entries()[k]).binding
        && fits(layout.entries()[k].kind, group.entries()[k].resource) by {
        assert(layout.entries()[k].binding == k);
        assert(group.entries()[k].binding == k);
    }
}

} // verus!
