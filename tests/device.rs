use renderer_backend::bind_group;
use renderer_backend::bind_group::Resource;
use renderer_backend::bind_group_layout::{BindingKind, Stage};
use renderer_backend::bind_group_layout;
use renderer_backend::mesh_builder::{make_quad, make_triangle, Vertex};
use renderer_backend::pipeline;
use renderer_backend::material::Material;
use renderer_backend::renderer::FrameRenderer;
use renderer_backend::scene::World;
use renderer_backend::ubo::{build_ubos_for_objects, UBO};
use renderer_backend::gpu::{begin_pass, request_gpu, Gpu, GpuBindGroupLayout};

const SHADER: &str = "
struct VertexInput { @location(0) position: vec3<f32>, @location(1) color: vec3<f32> };
struct VertexOutput { @builtin(position) clip: vec4<f32>, @location(0) color: vec3<f32>, @location(1) uv: vec2<f32> };
@group(0) @binding(0) var tex: texture_2d<f32>;
@group(0) @binding(1) var samp: sampler;
@group(1) @binding(0) var<uniform> model: mat4x4<f32>;
@vertex fn vs_main(v: VertexInput) -> VertexOutput {
    var o: VertexOutput;
    o.clip = model * vec4<f32>(v.position, 1.0);
    o.color = v.color;
    o.uv = v.position.xy * 0.5 + vec2<f32>(0.5, 0.5);
    return o;
}
@fragment fn fs_main(i: VertexOutput) -> @location(0) vec4<f32> {
    return vec4<f32>(i.color, 1.0) * textureSample(tex, samp, i.uv);
}
";

fn noop_device() -> (wgpu::Device, Gpu) {
    let mut desc = wgpu::InstanceDescriptor::new_without_display_handle();
    desc.backends = wgpu::Backends::NOOP;
    desc.backend_options.noop = wgpu::NoopBackendOptions::enabled();
    let instance = wgpu::Instance::new(desc);
    let adapter = pollster::block_on(instance.request_adapter(&wgpu::RequestAdapterOptions::default())).unwrap();
    let gpu = request_gpu(&adapter, "Device").unwrap();
    (gpu.device().clone(), gpu)
}

fn texture_and_sampler(device: &wgpu::Device) -> (wgpu::TextureView, wgpu::Sampler) {
    let texture = device.create_texture(&wgpu::TextureDescriptor {
        label: Some("test texture"),
        size: wgpu::Extent3d { width: 4, height: 4, depth_or_array_layers: 1 },
        mip_level_count: 1,
        sample_count: 1,
        dimension: wgpu::TextureDimension::D2,
        format: wgpu::TextureFormat::Rgba8UnormSrgb,
        usage: wgpu::TextureUsages::TEXTURE_BINDING,
        view_formats: &[],
    });
    let view = texture.create_view(&wgpu::TextureViewDescriptor::default());
    let sampler = device.create_sampler(&wgpu::SamplerDescriptor::default());
    (view, sampler)
}

fn material_layout(device: &wgpu::Device) -> GpuBindGroupLayout {
    let mut builder = bind_group_layout::Builder::new(device);
    builder.add_material();
    builder.build("Material Bind Group Layout").unwrap()
}

fn ubo_layout(device: &wgpu::Device) -> GpuBindGroupLayout {
    let mut builder = bind_group_layout::Builder::new(device);
    builder.add_ubo();
    builder.build("UBO layout").unwrap()
}

fn floats_of(bytes: &[u8]) -> Vec<f32> {
    bytes.chunks(4).map(|c| f32::from_le_bytes([c[0], c[1], c[2], c[3]])).collect()
}

#[test]
fn material_group_builds_once_then_rejects_reuse() {
    let (device, _gpu) = noop_device();
    let layout = material_layout(&device);
    let (view, sampler) = texture_and_sampler(&device);
    let mut builder = bind_group::Builder::new(&device);
    builder.set_layout(&layout);
    builder.add_material(&view, &sampler);
    assert!(builder.build("Material").is_some());
    assert!(builder.build("Material again").is_none());
    builder.add_material(&view, &sampler);
    assert!(builder.build("Material refilled").is_some());
}

#[test]
fn layout_and_group_bindings_agree() {
    let (device, _gpu) = noop_device();
    let mut layout_builder = bind_group_layout::Builder::new(&device);
    layout_builder.add_material();
    let slots: Vec<(u32, BindingKind, Stage)> =
        layout_builder.entry_list().iter().map(|e| (e.binding, e.kind, e.stage)).collect();
    assert_eq!(slots, vec![(0, BindingKind::Texture, Stage::Fragment), (1, BindingKind::Sampler, Stage::Fragment)]);
    let layout = layout_builder.build("Material Bind Group Layout").unwrap();
    assert!(layout_builder.entry_list().is_empty());

    let (view_a, sampler_a) = texture_and_sampler(&device);
    let mut builder = bind_group::Builder::new(&device);
    builder.set_layout(&layout);
    builder.add_material(&view_a, &sampler_a);
    let entries = builder.entry_list();
    assert_eq!(entries.len(), 2);
    assert_eq!(entries[0].binding, 0);
    assert!(matches!(&entries[0].resource, Resource::TextureView(v) if *v == view_a));
    assert_eq!(entries[1].binding, 1);
    assert!(matches!(&entries[1].resource, Resource::Sampler(s) if *s == sampler_a));
    assert!(builder.build("Material").is_some());
    assert!(builder.entry_list().is_empty());
    assert!(builder.build("Material again").is_none());
}

#[test]
fn buffer_entries_keep_their_offsets() {
    let (device, gpu) = noop_device();
    let pool = build_ubos_for_objects(&gpu, 2).unwrap();
    let mut builder = bind_group::Builder::new(&device);
    builder.add_buffer(pool.buffer.handle(), 256);
    builder.add_buffer(pool.buffer.handle(), 0);
    let entries = builder.entry_list();
    assert_eq!(entries[0].binding, 0);
    assert!(matches!(&entries[0].resource, Resource::Buffer(b, 256) if b == pool.buffer.handle()));
    assert_eq!(entries[1].binding, 1);
    assert!(matches!(&entries[1].resource, Resource::Buffer(_, 0)));
    builder.reset();
    assert!(builder.entry_list().is_empty());
}

#[test]
fn empty_group_builder_is_rejected() {
    let (device, _gpu) = noop_device();
    let layout = material_layout(&device);
    let mut builder = bind_group::Builder::new(&device);
    builder.set_layout(&layout);
    assert!(builder.build("Empty").is_none());
}

#[test]
fn quad_mesh_records_index_offset() {
    let (device, gpu) = noop_device();
    let mesh = make_quad(&gpu).unwrap();
    assert_eq!(mesh.offset, 96);
    assert_eq!(mesh.buffer.len(), 108);
    assert_eq!(mesh.buffer.handle().size(), 108);
    assert_eq!(mesh.buffer.handle().usage(), wgpu::BufferUsages::VERTEX | wgpu::BufferUsages::INDEX | wgpu::BufferUsages::COPY_DST);
    let tri = make_triangle(&gpu).unwrap();
    assert_eq!(tri.len(), 72);
    assert_eq!(tri.handle().size(), 72);
    assert_eq!(tri.handle().usage(), wgpu::BufferUsages::VERTEX | wgpu::BufferUsages::COPY_DST);
}

#[test]
fn pool_has_one_slot_per_object() {
    let (device, gpu) = noop_device();
    let layout = ubo_layout(&device);
    let mut pool = UBO::new(&gpu, 3, &layout).unwrap();
    assert_eq!(device.limits().min_uniform_buffer_offset_alignment, 256);
    assert_eq!(pool.alignment(), 256);
    assert_eq!(pool.len(), 3);
    assert_eq!(pool.buffer.len(), 3 * 256);
    assert_eq!(pool.buffer.handle().size(), 3 * 256);
    assert_eq!(pool.buffer.handle().usage(), wgpu::BufferUsages::UNIFORM | wgpu::BufferUsages::COPY_DST);
    let m: Vec<f32> = (0..16).map(|k| k as f32).collect();
    let mut bits = [0u32; 16];
    for k in 0..16 {
        bits[k] = m[k].to_bits();
    }
    let (offset, bytes) = pool.slot_write(2, &bits);
    assert_eq!(offset, 512);
    assert_eq!(floats_of(&bytes), m);
    assert!(pool.upload(2, &bits));
    assert!(pool.upload_all(&vec![bits, bits, bits]));
}

#[test]
fn pool_stride_follows_the_given_alignment() {
    let (device, gpu) = noop_device();
    let layout = ubo_layout(&device);
    let pool = UBO::with_alignment(&gpu, 2, &layout, 256).unwrap();
    assert_eq!(pool.alignment(), 256);
    assert_eq!(pool.buffer.len(), 512);
    let pool = UBO::with_alignment(&gpu, 1, &layout, 32).unwrap();
    assert_eq!(pool.alignment(), 64);
    assert_eq!(pool.buffer.len(), 64);
    assert!(UBO::with_alignment(&gpu, 1, &layout, 66).is_none());
    assert!(UBO::with_alignment(&gpu, 2, &layout, 64).is_none());
}

#[test]
fn pool_from_device_limits() {
    let (device, gpu) = noop_device();
    let pool = build_ubos_for_objects(&gpu, 2).unwrap();
    assert_eq!(pool.len(), 2);
    assert!(pool.alignment() >= 64);
    assert_eq!(pool.alignment() % 64, 0);
    assert_eq!(pool.buffer.len(), 2 * pool.alignment());
}

#[test]
fn bad_shader_is_rejected_without_panic() {
    let (device, _gpu) = noop_device();
    let mut builder = pipeline::Builder::new(&device);
    builder.set_shader_module("shader.wgsl", "vs_main", "fs_main");
    builder.set_pixel_format(wgpu::TextureFormat::Bgra8UnormSrgb);
    builder.add_vertex_buffer_layout(Vertex::get_layout());
    assert!(builder.build("Broken", "this is not wgsl").is_none());
}

fn build_pipeline(device: &wgpu::Device, material: &GpuBindGroupLayout, ubo: &GpuBindGroupLayout) -> renderer_backend::gpu::GpuPipeline {
    let mut builder = pipeline::Builder::new(device);
    builder.set_shader_module("shader.wgsl", "vs_main", "fs_main");
    builder.set_pixel_format(wgpu::TextureFormat::Bgra8UnormSrgb);
    builder.add_vertex_buffer_layout(Vertex::get_layout());
    builder.add_bind_group_layout(material);
    builder.add_bind_group_layout(ubo);
    assert_eq!(builder.shader_file(), "shader.wgsl");
    let pipeline = builder.build("Render Pipeline", SHADER).unwrap();
    assert_eq!(builder.shader_file(), "shader.wgsl");
    pipeline
}

#[test]
fn pipeline_builder_is_cleared_after_build() {
    let (device, _gpu) = noop_device();
    let material = material_layout(&device);
    let ubo = ubo_layout(&device);
    let _pipeline = build_pipeline(&device, &material, &ubo);
}

#[test]
fn frame_records_quads_then_triangles() {
    let (device, gpu) = noop_device();
    let material = material_layout(&device);
    let mut world: World<u8> = World::new();
    world.quads.push(0);
    world.tris.push(1);
    let mut ubo = build_ubos_for_objects(&gpu, world.object_count()).unwrap();
    let ubo_layout = ubo_layout(&device);
    let pipeline = build_pipeline(&device, &material, &ubo_layout);

    let (view, sampler) = texture_and_sampler(&device);
    let renderer = FrameRenderer {
        pipeline,
        quad_mesh: make_quad(&gpu).unwrap(),
        triangle_mesh: make_triangle(&gpu).unwrap(),
        quad_material: Material::new(&device, &view, &sampler, "Quad Material", &material).unwrap(),
        triangle_material: Material::new(&device, &view, &sampler, "Triangle Material", &material).unwrap(),
    };
    let one = 1.0f32.to_bits();
    let identity: [u32; 16] = [one, 0, 0, 0, 0, one, 0, 0, 0, 0, one, 0, 0, 0, 0, one];
    assert!(ubo.upload_all(&vec![identity, identity]));

    let target = device.create_texture(&wgpu::TextureDescriptor {
        label: Some("target"),
        size: wgpu::Extent3d { width: 4, height: 4, depth_or_array_layers: 1 },
        mip_level_count: 1,
        sample_count: 1,
        dimension: wgpu::TextureDimension::D2,
        format: wgpu::TextureFormat::Bgra8UnormSrgb,
        usage: wgpu::TextureUsages::RENDER_ATTACHMENT,
        view_formats: &[],
    });
    let target_view = target.create_view(&wgpu::TextureViewDescriptor::default());
    let mut encoder = device.create_command_encoder(&wgpu::CommandEncoderDescriptor { label: None });
    {
        let raw = encoder
            .begin_render_pass(&wgpu::RenderPassDescriptor {
                label: Some("Renderpass"),
                color_attachments: &[Some(wgpu::RenderPassColorAttachment {
                    view: &target_view,
                    depth_slice: None,
                    resolve_target: None,
                    ops: wgpu::Operations { load: wgpu::LoadOp::Clear(wgpu::Color::BLACK), store: wgpu::StoreOp::Store },
                })],
                ..Default::default()
            })
            .forget_lifetime();
        let mut pass = begin_pass(raw);
        renderer.record_world(&mut pass, &world, &ubo);
    }
    gpu.queue().submit(std::iter::once(encoder.finish()));
}
