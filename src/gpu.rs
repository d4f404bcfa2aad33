//! The wgpu objects that the core hands around, each with a model of what it
//! was made from, and the wgpu calls that make and use them.
//!
//! wgpu hands a failed validation to the device's error handler, which by
//! default panics. Every creation here runs inside a validation error scope
//! and gives `None` when wgpu rejected it; the remaining calls state in
//! `requires` the rules that wgpu checks by panicking.
use vstd::prelude::*;
use wgpu::{BindGroupEntry, BindingResource, BufferBinding, FragmentState, RenderPipelineDescriptor, VertexState};
use crate::bind_group::{Entry, Resource};
use crate::bind_group_layout::{BindingKind, LayoutEntry, Stage};
use crate::layout::write_at;
use crate::mesh_builder::VertexLayout;
use crate::pipeline::{Blend, CullMode, FrontFace, PolygonMode, RasterState, TargetState, Topology, WriteMask};

verus! {

#[verifier::external_type_specification]
#[verifier::external_body]
pub struct ExDevice(wgpu::Device);

#[verifier::external_type_specification]
#[verifier::external_body]
pub struct ExQueue(wgpu::Queue);

#[verifier::external_type_specification]
#[verifier::external_body]
pub struct ExBuffer(wgpu::Buffer);

#[verifier::external_type_specification]
#[verifier::external_body]
pub struct ExBindGroup(wgpu::BindGroup);

#[verifier::external_type_specification]
#[verifier::external_body]
pub struct ExBindGroupLayout(wgpu::BindGroupLayout);

#[verifier::external_type_specification]
#[verifier::external_body]
pub struct ExBindGroupLayoutEntry(wgpu::BindGroupLayoutEntry);

#[verifier::external_type_specification]
#[verifier::external_body]
pub struct ExTextureView(wgpu::TextureView);

#[verifier::external_type_specification]
#[verifier::external_body]
pub struct ExSampler(wgpu::Sampler);

#[verifier::external_type_specification]
#[verifier::external_body]
pub struct ExShaderModule(wgpu::ShaderModule);

#[verifier::external_type_specification]
#[verifier::external_body]
pub struct ExPipelineLayout(wgpu::PipelineLayout);

#[verifier::external_type_specification]
#[verifier::external_body]
pub struct ExRenderPipeline(wgpu::RenderPipeline);

#[verifier::external_type_specification]
#[verifier::external_body]
pub struct ExVertexBufferLayout<'a>(wgpu::VertexBufferLayout<'a>);

#[verifier::external_type_specification]
#[verifier::external_body]
pub struct ExPrimitiveState(wgpu::PrimitiveState);

#[verifier::external_type_specification]
#[verifier::external_body]
pub struct ExMultisampleState(wgpu::MultisampleState);

#[verifier::external_type_specification]
#[verifier::external_body]
pub struct ExColorTargetState(wgpu::ColorTargetState);

#[verifier::external_type_specification]
#[verifier::external_body]
pub struct ExTextureFormat(wgpu::TextureFormat);

#[verifier::external_type_specification]
#[verifier::external_body]
pub struct ExRenderPass<'a>(wgpu::RenderPass<'a>);

#[verifier::external_type_specification]
#[verifier::external_body]
pub struct ExAdapter(wgpu::Adapter);

/// Relies on the derived `Clone` of `wgpu::Device`: a second handle to the same device.
pub assume_specification[ <wgpu::Device as Clone>::clone ](d: &wgpu::Device) -> (r: wgpu::Device)
    ensures
        r == *d,
;

/// Relies on the derived `Clone` of `wgpu::Queue`: a second handle to the same queue.
pub assume_specification[ <wgpu::Queue as Clone>::clone ](q: &wgpu::Queue) -> (r: wgpu::Queue)
    ensures
        r == *q,
;

/// Relies on the derived `Clone` of `wgpu::Buffer`: a second handle to the same buffer.
pub assume_specification[ <wgpu::Buffer as Clone>::clone ](b: &wgpu::Buffer) -> (r: wgpu::Buffer)
    ensures
        r == *b,
;

/// Relies on the derived `Clone` of `wgpu::BindGroupLayout`: a second handle to the same layout.
pub assume_specification[ <wgpu::BindGroupLayout as Clone>::clone ](
    l: &wgpu::BindGroupLayout,
) -> (r: wgpu::BindGroupLayout)
    ensures
        r == *l,
;

/// Relies on the derived `Clone` of `wgpu::TextureView`: a second handle to the same view.
pub assume_specification[ <wgpu::TextureView as Clone>::clone ](
    v: &wgpu::TextureView,
) -> (r: wgpu::TextureView)
    ensures
        r == *v,
;

/// Relies on the derived `Clone` of `wgpu::Sampler`: a second handle to the same sampler.
pub assume_specification[ <wgpu::Sampler as Clone>::clone ](s: &wgpu::Sampler) -> (r: wgpu::Sampler)
    ensures
        r == *s,
;

/// A device and the queue that was created with it.
pub struct Gpu {
    device: wgpu::Device,
    queue: wgpu::Queue,
}

impl Gpu {
    pub closed spec fn raw_device(&self) -> wgpu::Device {
        self.device
    }

    pub fn device(&self) -> (r: &wgpu::Device)
        ensures
            *r == self.raw_device(),
    {
        &self.device
    }

    pub fn queue(&self) -> &wgpu::Queue {
        &self.queue
    }
}

/// Relies on `wgpu::Adapter::request_device`: the device and its own queue,
/// with default features and limits; `None` when the adapter refuses.
#[verifier::external_body]
pub fn request_gpu(adapter: &wgpu::Adapter, label: &str) -> Option<Gpu> {
    let desc = wgpu::DeviceDescriptor { label: Some(label), ..Default::default() };
    pollster::block_on(adapter.request_device(&desc)).ok().map(|(device, queue)| Gpu { device, queue })
}

/// How a buffer is used. Each can also be filled by queue writes.
#[derive(Clone, Copy, PartialEq, Eq, Debug)]
pub enum BufferRole {
    Vertex,
    VertexAndIndex,
    Uniform,
}

/// A buffer, with the queue that fills it and a model of its bytes.
pub struct GpuBuffer {
    handle: wgpu::Buffer,
    gpu: Gpu,
    size: u64,
    role: BufferRole,
    contents: Ghost<Seq<u8>>,
}

impl GpuBuffer {
    pub closed spec fn raw(&self) -> wgpu::Buffer {
        self.handle
    }

    pub closed spec fn size(&self) -> u64 {
        self.size
    }

    pub closed spec fn role(&self) -> BufferRole {
        self.role
    }

    /// The bytes as the writes so far have left them.
    pub closed spec fn contents(&self) -> Seq<u8> {
        self.contents@
    }

    pub fn handle(&self) -> (r: &wgpu::Buffer)
        ensures
            *r == self.raw(),
    {
        &self.handle
    }

    pub fn len(&self) -> (r: u64)
        ensures
            r == self.size(),
    {
        self.size
    }
}

/// A bind group layout and the slots it declares.
pub struct GpuBindGroupLayout {
    handle: wgpu::BindGroupLayout,
    slots: Ghost<Seq<LayoutEntry>>,
}

impl GpuBindGroupLayout {
    pub closed spec fn raw(&self) -> wgpu::BindGroupLayout {
        self.handle
    }

    pub closed spec fn slots(&self) -> Seq<LayoutEntry> {
        self.slots@
    }

    pub fn handle(&self) -> (r: &wgpu::BindGroupLayout)
        ensures
            *r == self.raw(),
    {
        &self.handle
    }
}

impl Clone for GpuBindGroupLayout {
    fn clone(&self) -> (r: Self)
        ensures
            r == *self,
    {
        GpuBindGroupLayout { handle: self.handle.clone(), slots: Ghost(self.slots@) }
    }
}

/// A bind group, with the layout it was made against and its entries.
pub struct GpuBindGroup {
    handle: wgpu::BindGroup,
    layout: Ghost<GpuBindGroupLayout>,
    entries: Ghost<Seq<Entry>>,
}

impl GpuBindGroup {
    pub closed spec fn raw(&self) -> wgpu::BindGroup {
        self.handle
    }

    pub closed spec fn layout(&self) -> GpuBindGroupLayout {
        self.layout@
    }

    pub closed spec fn entries(&self) -> Seq<Entry> {
        self.entries@
    }

    pub fn handle(&self) -> (r: &wgpu::BindGroup)
        ensures
            *r == self.raw(),
    {
        &self.handle
    }
}

/// A shader module and the WGSL text it was compiled from.
pub struct GpuShader {
    handle: wgpu::ShaderModule,
    source: Ghost<Seq<char>>,
}

impl GpuShader {
    pub closed spec fn source(&self) -> Seq<char> {
        self.source@
    }
}

/// A pipeline layout and its bind group layouts: layout `k` is set `k`.
pub struct GpuPipelineLayout {
    handle: wgpu::PipelineLayout,
    layouts: Ghost<Seq<GpuBindGroupLayout>>,
}

impl GpuPipelineLayout {
    pub closed spec fn layouts(&self) -> Seq<GpuBindGroupLayout> {
        self.layouts@
    }
}

/// Vertex buffer layouts in wgpu's form, and the layouts they were made from.
pub struct VertexBuffers {
    handle: Vec<Option<wgpu::VertexBufferLayout<'static>>>,
    sources: Ghost<Seq<VertexLayout>>,
}

impl VertexBuffers {
    pub closed spec fn sources(&self) -> Seq<VertexLayout> {
        self.sources@
    }
}

/// The primitive and multisample state in wgpu's form, and the
/// rasterization state they were made from.
pub struct FixedState {
    primitive: wgpu::PrimitiveState,
    multisample: wgpu::MultisampleState,
    raster: Ghost<RasterState>,
}

impl FixedState {
    pub closed spec fn raster(&self) -> RasterState {
        self.raster@
    }
}

/// The one color target in wgpu's form, and what it was made from.
pub struct Targets {
    handle: [Option<wgpu::ColorTargetState>; 1],
    target: Ghost<TargetState>,
    format: Ghost<wgpu::TextureFormat>,
}

impl Targets {
    pub closed spec fn target(&self) -> TargetState {
        self.target@
    }

    pub closed spec fn format(&self) -> wgpu::TextureFormat {
        self.format@
    }
}

/// What a pipeline was built from.
pub struct PipelineDesc {
    pub layouts: Seq<GpuBindGroupLayout>,
    pub vertex_layouts: Seq<VertexLayout>,
    pub shader: Seq<char>,
    pub vertex_entry: Seq<char>,
    pub fragment_entry: Seq<char>,
    pub format: wgpu::TextureFormat,
    pub raster: RasterState,
    pub target: TargetState,
    pub depth_stencil: bool,
}

/// A render pipeline and what it was built from.
pub struct GpuPipeline {
    handle: wgpu::RenderPipeline,
    parts: Ghost<(GpuPipelineLayout, VertexBuffers, GpuShader, Seq<char>, Seq<char>, FixedState, Targets)>,
}

impl GpuPipeline {
    pub closed spec fn raw(&self) -> wgpu::RenderPipeline {
        self.handle
    }

    pub closed spec fn desc(&self) -> PipelineDesc {
        let (layout, buffers, shader, vertex_entry, fragment_entry, fixed, targets) = self.parts@;
        PipelineDesc {
            layouts: layout.layouts(),
            vertex_layouts: buffers.sources(),
            shader: shader.source(),
            vertex_entry,
            fragment_entry,
            format: targets.format(),
            raster: fixed.raster(),
            target: targets.target(),
            depth_stencil: false,
        }
    }
}

/// A command as recorded on a render pass.
pub enum Recorded {
    Pipeline(wgpu::RenderPipeline),
    BindGroup(u32, wgpu::BindGroup),
    /// Vertex slot 0 reads bytes `start..end` of the buffer.
    VertexBuffer(wgpu::Buffer, u64, u64),
    /// 16-bit indices from the byte offset to the end of the buffer.
    IndexBuffer(wgpu::Buffer, u64),
    DrawIndexed(u32),
    Draw(u32),
}

/// A render pass and the commands recorded on it through this type.
pub struct Pass {
    handle: wgpu::RenderPass<'static>,
    log: Ghost<Seq<Recorded>>,
}

impl Pass {
    pub closed spec fn log(&self) -> Seq<Recorded> {
        self.log@
    }
}

/// Takes a render pass on which nothing is recorded yet.
pub fn begin_pass(pass: wgpu::RenderPass<'static>) -> (r: Pass)
    ensures
        r.log().len() == 0,
{
    Pass { handle: pass, log: Ghost(Seq::empty()) }
}

/// Relies on `wgpu::Device::limits`, for the device's
/// `min_uniform_buffer_offset_alignment`. Nothing is promised of its value.
#[verifier::external_body]
pub(crate) fn min_uniform_alignment(device: &wgpu::Device) -> u32 {
    device.limits().min_uniform_buffer_offset_alignment
}

/// Relies on `wgpu::Device::create_buffer`, in a validation error scope
/// (`push_error_scope`): a buffer of `size` bytes for `role`, or `None` when
/// wgpu rejects it (a size over the device's limit).
#[verifier::external_body]
pub(crate) fn create_buffer(gpu: &Gpu, label: &str, size: u64, role: BufferRole) -> (r: Option<GpuBuffer>)
    ensures
        r matches Some(b) ==> b.size() == size && b.role() == role && b.contents().len() == size,
{
    let usage = match role {
        BufferRole::Vertex => wgpu::BufferUsages::VERTEX,
        BufferRole::VertexAndIndex => wgpu::BufferUsages::VERTEX | wgpu::BufferUsages::INDEX,
        BufferRole::Uniform => wgpu::BufferUsages::UNIFORM,
    } | wgpu::BufferUsages::COPY_DST;
    let scope = gpu.device.push_error_scope(wgpu::ErrorFilter::Validation);
    let handle = gpu.device.create_buffer(&wgpu::BufferDescriptor { label: Some(label), size, usage, mapped_at_creation: false });
    let contents = Ghost(Seq::new(size as nat, |i: int| arbitrary()));
    let gpu = Gpu { device: gpu.device.clone(), queue: gpu.queue.clone() };
    let buffer = GpuBuffer { handle, gpu, size, role, contents };
    pollster::block_on(scope.pop()).is_none().then_some(buffer)
}

/// Relies on `wgpu::Queue::write_buffer`, in a validation error scope:
/// `data` is copied into the buffer at `offset`, ordered before later
/// submissions. wgpu asks for offsets and lengths that are multiples of four
/// and a range inside the buffer; the buffer's own queue is used.
#[verifier::external_body]
pub(crate) fn write_buffer(buffer: &mut GpuBuffer, offset: u64, data: &[u8]) -> (ok: bool)
    requires
        offset % 4 == 0,
        data@.len() % 4 == 0,
        offset + data@.len() <= old(buffer).size(),
    ensures
        final(buffer).raw() == old(buffer).raw(),
        final(buffer).size() == old(buffer).size(),
        final(buffer).role() == old(buffer).role(),
        ok ==> final(buffer).contents() == write_at(old(buffer).contents(), offset as int, data@),
        !ok ==> final(buffer).contents() == old(buffer).contents(),
{
    let scope = buffer.gpu.device.push_error_scope(wgpu::ErrorFilter::Validation);
    buffer.gpu.queue.write_buffer(&buffer.handle, offset, data);
    let ok = pollster::block_on(scope.pop()).is_none();
    if ok {
        buffer.contents = Ghost(write_at(buffer.contents@, offset as int, data@));
    }
    ok
}

/// Relies on `wgpu::Device::create_bind_group`, in a validation error
/// scope: a group made against `layout` whose entries keep their binding
/// index and resource, or `None` when wgpu rejects them.
#[verifier::external_body]
pub(crate) fn create_bind_group(device: &wgpu::Device, layout: &GpuBindGroupLayout, entries: &Vec<Entry>, label: &str) -> (r: Option<GpuBindGroup>)
    ensures
        r matches Some(g) ==> g.layout() == *layout && g.entries() == entries@,
{
    let raw: Vec<_> = entries.iter().map(|e| BindGroupEntry { binding: e.binding, resource: match &e.resource {
        Resource::TextureView(v) => BindingResource::TextureView(v),
        Resource::Sampler(s) => BindingResource::Sampler(s),
        Resource::Buffer(b, o) => BindingResource::Buffer(BufferBinding { buffer: b, offset: *o, size: None }),
    } }).collect();
    let scope = device.push_error_scope(wgpu::ErrorFilter::Validation);
    let handle = device.create_bind_group(&wgpu::BindGroupDescriptor { layout: &layout.handle, entries: &raw, label: Some(label) });
    let group = GpuBindGroup { handle, layout: Ghost(*layout), entries: Ghost(entries@) };
    pollster::block_on(scope.pop()).is_none().then_some(group)
}

/// A layout slot in wgpu's form, and the slot it was made from.
pub struct RawSlot {
    handle: wgpu::BindGroupLayoutEntry,
    slot: Ghost<LayoutEntry>,
}

impl RawSlot {
    pub closed spec fn slot(&self) -> LayoutEntry {
        self.slot@
    }
}

/// Relies on the fields of `wgpu::BindGroupLayoutEntry`: the slot as wgpu
/// declares it, with the same binding index, kind and stage.
#[verifier::external_body]
pub(crate) fn layout_entry(e: &LayoutEntry) -> (r: RawSlot)
    ensures
        r.slot() == *e,
{
    let visibility = match e.stage {
        Stage::Vertex => wgpu::ShaderStages::VERTEX,
        Stage::Fragment => wgpu::ShaderStages::FRAGMENT,
    };
    let ty = match e.kind {
        BindingKind::Texture => wgpu::BindingType::Texture { sample_type: wgpu::TextureSampleType::Float { filterable: true }, view_dimension: wgpu::TextureViewDimension::D2, multisampled: false },
        BindingKind::Sampler => wgpu::BindingType::Sampler(wgpu::SamplerBindingType::Filtering),
        BindingKind::UniformBuffer => wgpu::BindingType::Buffer { ty: wgpu::BufferBindingType::Uniform, has_dynamic_offset: false, min_binding_size: None },
    };
    RawSlot { handle: wgpu::BindGroupLayoutEntry { binding: e.binding, visibility, ty, count: None }, slot: Ghost(*e) }
}

/// Relies on `wgpu::Device::create_bind_group_layout`, in a validation error
/// scope: a layout declaring exactly the given slots, or `None`.
#[verifier::external_body]
pub(crate) fn create_bind_group_layout(device: &wgpu::Device, slots: &Vec<RawSlot>, label: &str) -> (r: Option<GpuBindGroupLayout>)
    ensures
        r matches Some(l) ==> l.slots() == slots@.map_values(|s: RawSlot| s.slot()),
{
    let entries: Vec<wgpu::BindGroupLayoutEntry> = slots.iter().map(|s| s.handle).collect();
    let scope = device.push_error_scope(wgpu::ErrorFilter::Validation);
    let handle = device.create_bind_group_layout(&wgpu::BindGroupLayoutDescriptor { label: Some(label), entries: &entries });
    let layout = GpuBindGroupLayout { handle, slots: Ghost(slots@.map_values(|s: RawSlot| s.slot())) };
    pollster::block_on(scope.pop()).is_none().then_some(layout)
}

/// Relies on `wgpu::Device::create_shader_module`, in a validation error
/// scope: the WGSL module that `source` holds, or `None` when it does not
/// compile.
#[verifier::external_body]
pub(crate) fn create_shader_module(device: &wgpu::Device, source: &str) -> (r: Option<GpuShader>)
    ensures
        r matches Some(m) ==> m.source() == source@,
{
    let scope = device.push_error_scope(wgpu::ErrorFilter::Validation);
    let source_text = wgpu::ShaderSource::Wgsl(source.into());
    let handle = device.create_shader_module(wgpu::ShaderModuleDescriptor { label: Some("Shader Module"), source: source_text });
    let module = GpuShader { handle, source: Ghost(source@) };
    pollster::block_on(scope.pop()).is_none().then_some(module)
}

/// Relies on `wgpu::Device::create_pipeline_layout`, in a validation error
/// scope: layout `k` of the list becomes bind group set `k`; `None` when wgpu
/// rejects the list (more layouts than the device allows).
#[verifier::external_body]
pub(crate) fn create_pipeline_layout(device: &wgpu::Device, layouts: &Vec<GpuBindGroupLayout>) -> (r: Option<GpuPipelineLayout>)
    ensures
        r matches Some(l) ==> l.layouts() == layouts@,
{
    let raw: Vec<Option<&wgpu::BindGroupLayout>> = layouts.iter().map(|l| Some(&l.handle)).collect();
    let scope = device.push_error_scope(wgpu::ErrorFilter::Validation);
    let desc = wgpu::PipelineLayoutDescriptor { label: Some("Render Pipeline Layout"), bind_group_layouts: &raw, immediate_size: 0 };
    let layout = GpuPipelineLayout { handle: device.create_pipeline_layout(&desc), layouts: Ghost(layouts@) };
    pollster::block_on(scope.pop()).is_none().then_some(layout)
}

/// Relies on `wgpu::VertexBufferLayout`: for each layout, per-vertex data of
/// its stride, each attribute three 32-bit floats at its offset and
/// location. The attribute lists live as long as the program, as pipelines
/// need them.
#[verifier::external_body]
pub(crate) fn vertex_buffers(layouts: &Vec<VertexLayout>) -> (r: VertexBuffers)
    ensures
        r.sources() == layouts@,
{
    let handle = layouts.iter().map(|l| Some(wgpu::VertexBufferLayout {
        array_stride: l.stride,
        step_mode: wgpu::VertexStepMode::Vertex,
        attributes: l.attributes.iter().map(|a| wgpu::VertexAttribute { format: wgpu::VertexFormat::Float32x3, offset: a.offset, shader_location: a.location }).collect::<Vec<_>>().leak(),
    })).collect();
    VertexBuffers { handle, sources: Ghost(layouts@) }
}

/// Relies on `wgpu::PrimitiveState` and `wgpu::MultisampleState`: the
/// given topology, fill, winding and culling, with no strip index format,
/// clamping or conservative rasterization; `sample_count` samples, all
/// written.
#[verifier::external_body]
pub(crate) fn fixed_state(raster: RasterState) -> (r: FixedState)
    ensures
        r.raster() == raster,
{
    let topology = match raster.topology { Topology::PointList => wgpu::PrimitiveTopology::PointList, Topology::LineList => wgpu::PrimitiveTopology::LineList, Topology::TriangleList => wgpu::PrimitiveTopology::TriangleList };
    let polygon_mode = match raster.polygon_mode { PolygonMode::Fill => wgpu::PolygonMode::Fill, PolygonMode::Line => wgpu::PolygonMode::Line };
    let front_face = match raster.front_face { FrontFace::Ccw => wgpu::FrontFace::Ccw, FrontFace::Cw => wgpu::FrontFace::Cw };
    let cull_mode = match raster.cull_mode { CullMode::Nothing => None, CullMode::Front => Some(wgpu::Face::Front), CullMode::Back => Some(wgpu::Face::Back) };
    let primitive = wgpu::PrimitiveState { topology, polygon_mode, front_face, cull_mode, ..Default::default() };
    let multisample = wgpu::MultisampleState { count: raster.sample_count, mask: !0, alpha_to_coverage_enabled: false };
    FixedState { primitive, multisample, raster: Ghost(raster) }
}

/// Relies on `wgpu::ColorTargetState`: one target of `format` with the
/// given blending and written channels.
#[verifier::external_body]
pub(crate) fn color_targets(target: TargetState, format: wgpu::TextureFormat) -> (r: Targets)
    ensures
        r.target() == target,
        r.format() == format,
{
    let blend = match target.blend { Blend::Replace => wgpu::BlendState::REPLACE, Blend::Alpha => wgpu::BlendState::ALPHA_BLENDING };
    let write_mask = match target.write_mask { WriteMask::All => wgpu::ColorWrites::ALL, WriteMask::Nothing => wgpu::ColorWrites::empty() };
    let handle = [Some(wgpu::ColorTargetState { format, blend: Some(blend), write_mask })];
    Targets { handle, target: Ghost(target), format: Ghost(format) }
}

/// Relies on `wgpu::Device::create_render_pipeline`, in a validation error
/// scope: one shader module for both stages, no depth or stencil; `None`
/// when wgpu rejects it (an entry point missing, a shader that disagrees
/// with the layouts).
#[verifier::external_body]
pub(crate) fn create_render_pipeline(device: &wgpu::Device, label: &str, layout: &GpuPipelineLayout, module: &GpuShader, vertex_entry: &str, fragment_entry: &str, buffers: &VertexBuffers, fixed: &FixedState, targets: &Targets) -> (r: Option<GpuPipeline>)
    ensures
        r matches Some(p) ==> p.desc() == (PipelineDesc { layouts: layout.layouts(), vertex_layouts: buffers.sources(), shader: module.source(), vertex_entry: vertex_entry@, fragment_entry: fragment_entry@, format: targets.format(), raster: fixed.raster(), target: targets.target(), depth_stencil: false }),
{
    let scope = device.push_error_scope(wgpu::ErrorFilter::Validation);
    let handle = device.create_render_pipeline(&RenderPipelineDescriptor { label: Some(label), layout: Some(&layout.handle),
        vertex: VertexState { module: &module.handle, entry_point: Some(vertex_entry), compilation_options: Default::default(), buffers: &buffers.handle },
        fragment: Some(FragmentState { module: &module.handle, entry_point: Some(fragment_entry), compilation_options: Default::default(), targets: &targets.handle }),
        primitive: fixed.primitive, depth_stencil: None, multisample: fixed.multisample, multiview_mask: None, cache: None });
    let pipeline = GpuPipeline { handle, parts: Ghost((*layout, *buffers, *module, vertex_entry@, fragment_entry@, *fixed, *targets)) };
    pollster::block_on(scope.pop()).is_none().then_some(pipeline)
}

/// Relies on `wgpu::TextureFormat::is_srgb`: whether the format stores
/// sRGB-encoded color.
#[verifier::external_body]
pub(crate) fn texture_format_is_srgb(format: &wgpu::TextureFormat) -> bool {
    format.is_srgb()
}

/// Relies on `wgpu::RenderPass::set_pipeline`.
#[verifier::external_body]
pub(crate) fn set_pipeline(pass: &mut Pass, pipeline: &GpuPipeline)
    ensures
        final(pass).log() == old(pass).log().push(Recorded::Pipeline(pipeline.raw())),
{
    pass.handle.set_pipeline(&pipeline.handle);
    pass.log = Ghost(pass.log@.push(Recorded::Pipeline(pipeline.handle)));
}

/// Relies on `wgpu::RenderPass::set_bind_group`: `group` at set `index`, with
/// no dynamic offsets.
#[verifier::external_body]
pub(crate) fn set_bind_group(pass: &mut Pass, index: u32, group: &GpuBindGroup)
    ensures
        final(pass).log() == old(pass).log().push(Recorded::BindGroup(index, group.raw())),
{
    pass.handle.set_bind_group(index, &group.handle, &[]);
    pass.log = Ghost(pass.log@.push(Recorded::BindGroup(index, group.handle)));
}

/// Relies on `wgpu::RenderPass::set_vertex_buffer` and `wgpu::Buffer::slice`,
/// which panics past the buffer's end: bytes `start..end` feed vertex slot 0.
#[verifier::external_body]
pub(crate) fn set_vertex_buffer(pass: &mut Pass, buffer: &GpuBuffer, start: u64, end: u64)
    requires
        start <= end <= buffer.size(),
    ensures
        final(pass).log() == old(pass).log().push(Recorded::VertexBuffer(buffer.raw(), start, end)),
{
    pass.handle.set_vertex_buffer(0, buffer.handle.slice(start..end));
    pass.log = Ghost(pass.log@.push(Recorded::VertexBuffer(buffer.handle, start, end)));
}

/// Relies on `wgpu::RenderPass::set_index_buffer` and `wgpu::Buffer::slice`,
/// which panics past the buffer's end: 16-bit indices from byte `start` on.
#[verifier::external_body]
pub(crate) fn set_index_buffer(pass: &mut Pass, buffer: &GpuBuffer, start: u64)
    requires
        start <= buffer.size(),
    ensures
        final(pass).log() == old(pass).log().push(Recorded::IndexBuffer(buffer.raw(), start)),
{
    pass.handle.set_index_buffer(buffer.handle.slice(start..), wgpu::IndexFormat::Uint16);
    pass.log = Ghost(pass.log@.push(Recorded::IndexBuffer(buffer.handle, start)));
}

/// Relies on `wgpu::RenderPass::draw_indexed`: indices `0..count`, one instance.
#[verifier::external_body]
pub(crate) fn draw_indexed(pass: &mut Pass, count: u32)
    ensures
        final(pass).log() == old(pass).log().push(Recorded::DrawIndexed(count)),
{
    pass.handle.draw_indexed(0..count, 0, 0..1);
    pass.log = Ghost(pass.log@.push(Recorded::DrawIndexed(count)));
}

/// Relies on `wgpu::RenderPass::draw`: vertices `0..count`, one instance.
#[verifier::external_body]
pub(crate) fn draw(pass: &mut Pass, count: u32)
    ensures
        final(pass).log() == old(pass).log().push(Recorded::Draw(count)),
{
    pass.handle.draw(0..count, 0..1);
    pass.log = Ghost(pass.log@.push(Recorded::Draw(count)));
}

} // verus!
