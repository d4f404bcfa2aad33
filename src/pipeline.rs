//! Accumulates what a render pipeline is made of and compiles it.
use vstd::prelude::*;
use crate::gpu::{
    color_targets, create_pipeline_layout, create_render_pipeline, create_shader_module, fixed_state, vertex_buffers,
    GpuBindGroupLayout, GpuPipeline, PipelineDesc,
};
use crate::mesh_builder::VertexLayout;

verus! {

/// Which winding marks a front face.
#[derive(Clone, Copy, PartialEq, Eq, Debug)]
pub enum FrontFace {
    Ccw,
    Cw,
}

/// Which faces are discarded.
#[derive(Clone, Copy, PartialEq, Eq, Debug)]
pub enum CullMode {
    Nothing,
    Front,
    Back,
}

/// How vertices are assembled into primitives.
#[derive(Clone, Copy, PartialEq, Eq, Debug)]
pub enum Topology {
    PointList,
    LineList,
    TriangleList,
}

/// How triangles are rasterized.
#[derive(Clone, Copy, PartialEq, Eq, Debug)]
pub enum PolygonMode {
    Fill,
    Line,
}

/// How a fragment's color is combined with the target's.
#[derive(Clone, Copy, PartialEq, Eq, Debug)]
pub enum Blend {
    /// The fragment's color replaces the target's.
    Replace,
    /// The fragment's color is mixed in by its alpha.
    Alpha,
}

/// Which channels of the target a draw writes.
#[derive(Clone, Copy, PartialEq, Eq, Debug)]
pub enum WriteMask {
    All,
    Nothing,
}

/// The rasterization state of a pipeline.
#[derive(Clone, Copy, PartialEq, Eq, Debug)]
pub struct RasterState {
    pub topology: Topology,
    pub polygon_mode: PolygonMode,
    pub front_face: FrontFace,
    pub cull_mode: CullMode,
    pub sample_count: u32,
}

/// How a pipeline writes its one color target.
#[derive(Clone, Copy, PartialEq, Eq, Debug)]
pub struct TargetState {
    pub blend: Blend,
    pub write_mask: WriteMask,
}

/// The one rasterization the renderer uses: filled triangle lists,
/// counter-clockwise front faces, back faces culled, one sample per pixel.
pub open spec fn fixed_raster() -> RasterState {
    RasterState {
        topology: Topology::TriangleList,
        polygon_mode: PolygonMode::Fill,
        front_face: FrontFace::Ccw,
        cull_mode: CullMode::Back,
        sample_count: 1,
    }
}

/// The one target state the renderer uses: opaque replace on all channels.
pub open spec fn fixed_target() -> TargetState {
    TargetState { blend: Blend::Replace, write_mask: WriteMask::All }
}

impl RasterState {
    pub fn fixed() -> (r: RasterState)
        ensures
            r == fixed_raster(),
    {
        RasterState {
            topology: Topology::TriangleList,
            polygon_mode: PolygonMode::Fill,
            front_face: FrontFace::Ccw,
            cull_mode: CullMode::Back,
            sample_count: 1,
        }
    }
}

impl TargetState {
    pub fn fixed() -> (r: TargetState)
        ensures
            r == fixed_target(),
    {
        TargetState { blend: Blend::Replace, write_mask: WriteMask::All }
    }
}

/// Accumulates a pipeline's parts. `build` clears the vertex layouts and the
/// bind group layouts, which must be added again before another build.
pub struct Builder {
    shader_filename: String,
    vertex_entry: String,
    fragment_entry: String,
    pixel_format: Option<wgpu::TextureFormat>,
    vertex_buffer_layouts: Vec<VertexLayout>,
    bind_group_layouts: Vec<GpuBindGroupLayout>,
    device: wgpu::Device,
}

impl Builder {
    pub closed spec fn shader_filename(&self) -> Seq<char> {
        self.shader_filename@
    }

    pub closed spec fn vertex_entry(&self) -> Seq<char> {
        self.vertex_entry@
    }

    pub closed spec fn fragment_entry(&self) -> Seq<char> {
        self.fragment_entry@
    }

    pub closed spec fn pixel_format(&self) -> Option<wgpu::TextureFormat> {
        self.pixel_format
    }

    pub closed spec fn vertex_layouts(&self) -> Seq<VertexLayout> {
        self.vertex_buffer_layouts@
    }

    /// The bind group layouts in order: the first is set 0, the next set 1, ...
    pub closed spec fn bind_group_layouts(&self) -> Seq<GpuBindGroupLayout> {
        self.bind_group_layouts@
    }

    pub closed spec fn device(&self) -> wgpu::Device {
        self.device
    }

    pub fn new(device: &wgpu::Device) -> (r: Self)
        ensures
            r.shader_filename().len() == 0,
            r.vertex_entry().len() == 0,
            r.fragment_entry().len() == 0,
            r.pixel_format() == None::<wgpu::TextureFormat>,
            r.vertex_layouts().len() == 0,
            r.bind_group_layouts().len() == 0,
            r.device() == *device,
    {
        Builder {
            shader_filename: String::new(),
            vertex_entry: String::new(),
            fragment_entry: String::new(),
            pixel_format: None,
            vertex_buffer_layouts: Vec::new(),
            bind_group_layouts: Vec::new(),
            device: device.clone(),
        }
    }

    /// Clears the vertex layouts and the bind group layouts; the rest stays.
    pub fn reset(&mut self)
        ensures
            final(self).vertex_layouts().len() == 0,
            final(self).bind_group_layouts().len() == 0,
            final(self).shader_filename() == old(self).shader_filename(),
            final(self).vertex_entry() == old(self).vertex_entry(),
            final(self).fragment_entry() == old(self).fragment_entry(),
            final(self).pixel_format() == old(self).pixel_format(),
            final(self).device() == old(self).device(),
    {
        self.vertex_buffer_layouts.clear();
        self.bind_group_layouts.clear();
    }

    pub fn add_vertex_buffer_layout(&mut self, layout: VertexLayout)
        ensures
            final(self).vertex_layouts() == old(self).vertex_layouts().push(layout),
            final(self).bind_group_layouts() == old(self).bind_group_layouts(),
            final(self).shader_filename() == old(self).shader_filename(),
            final(self).vertex_entry() == old(self).vertex_entry(),
            final(self).fragment_entry() == old(self).fragment_entry(),
            final(self).pixel_format() == old(self).pixel_format(),
            final(self).device() == old(self).device(),
    {
        self.vertex_buffer_layouts.push(layout);
    }

    /// Appends a bind group layout; its set index is the number added before it.
    pub fn add_bind_group_layout(&mut self, layout: &GpuBindGroupLayout)
        ensures
            final(self).bind_group_layouts() == old(self).bind_group_layouts().push(*layout),
            final(self).vertex_layouts() == old(self).vertex_layouts(),
            final(self).shader_filename() == old(self).shader_filename(),
            final(self).vertex_entry() == old(self).vertex_entry(),
            final(self).fragment_entry() == old(self).fragment_entry(),
            final(self).pixel_format() == old(self).pixel_format(),
            final(self).device() == old(self).device(),
    {
        self.bind_group_layouts.push(layout.clone());
    }

    /// Names the shader file and its vertex and fragment entry points.
    pub fn set_shader_module(&mut self, shader_filename: &str, vertex_entry: &str, fragment_entry: &str)
        ensures
            final(self).shader_filename() == shader_filename@,
            final(self).vertex_entry() == vertex_entry@,
            final(self).fragment_entry() == fragment_entry@,
            final(self).vertex_layouts() == old(self).vertex_layouts(),
            final(self).bind_group_layouts() == old(self).bind_group_layouts(),
            final(self).pixel_format() == old(self).pixel_format(),
            final(self).device() == old(self).device(),
    {
        self.shader_filename = shader_filename.to_owned();
        self.vertex_entry = vertex_entry.to_owned();
        self.fragment_entry = fragment_entry.to_owned();
    }

    pub fn set_pixel_format(&mut self, pixel_format: wgpu::TextureFormat)
        ensures
            final(self).pixel_format() == Some(pixel_format),
            final(self).shader_filename() == old(self).shader_filename(),
            final(self).vertex_entry() == old(self).vertex_entry(),
            final(self).fragment_entry() == old(self).fragment_entry(),
            final(self).vertex_layouts() == old(self).vertex_layouts(),
            final(self).bind_group_layouts() == old(self).bind_group_layouts(),
            final(self).device() == old(self).device(),
    {
        self.pixel_format = Some(pixel_format);
    }

    /// The shader file to compile, relative to the shader directory.
    pub fn shader_file(&self) -> (r: &str)
        ensures
            r@ == self.shader_filename(),
    {
        self.shader_filename.as_str()
    }

    /// Compiles `source_code`, the text of the shader file, into a pipeline
    /// with the accumulated layouts in order (layout `k` is set `k`), the
    /// vertex layouts, both entry points of the one module, the pixel format
    /// the fixed rasterization and target state, and no depth or stencil; then clears the vertex layouts and
    /// the bind group layouts. `None` when wgpu rejects the shader or the
    /// pipeline.
    pub fn build(&mut self, label: &str, source_code: &str) -> (r: Option<GpuPipeline>)
        requires
            old(self).pixel_format().is_some(),
        ensures
            r matches Some(p) ==> p.desc() == (PipelineDesc {
                layouts: old(self).bind_group_layouts(),
                vertex_layouts: old(self).vertex_layouts(),
                shader: source_code@,
                vertex_entry: old(self).vertex_entry(),
                fragment_entry: old(self).fragment_entry(),
                format: old(self).pixel_format()->Some_0,
                raster: fixed_raster(),
                target: fixed_target(),
                depth_stencil: false,
            }),
            final(self).vertex_layouts().len() == 0,
            final(self).bind_group_layouts().len() == 0,
            final(self).shader_filename() == old(self).shader_filename(),
            final(self).vertex_entry() == old(self).vertex_entry(),
            final(self).fragment_entry() == old(self).fragment_entry(),
            final(self).pixel_format() == old(self).pixel_format(),
            final(self).device() == old(self).device(),
    {
        let buffers = vertex_buffers(&self.vertex_buffer_layouts);
        let fixed = fixed_state(RasterState::fixed());
        let targets = color_targets(TargetState::fixed(), self.pixel_format.unwrap());
        let r = match create_shader_module(&self.device, source_code) {
            Some(module) => match create_pipeline_layout(&self.device, &self.bind_group_layouts) {
                Some(layout) => create_render_pipeline(
                    &self.device,
                    label,
                    &layout,
                    &module,
                    self.vertex_entry.as_str(),
                    self.fragment_entry.as_str(),
                    &buffers,
                    &fixed,
                    &targets,
                ),
                None => None,
            },
            None => None,
        };
        self.reset();
        r
    }
}

} // verus!
