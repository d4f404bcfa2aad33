//! Packs the fixed meshes into device buffers.
//!
//! A vertex is two consecutive groups of three 32-bit floats, position then
//! color, with no padding: 24 bytes, matching the pipeline's vertex layout.
use vstd::prelude::*;
use crate::gpu::{create_buffer, write_buffer, BufferRole, Gpu, GpuBuffer};
use crate::layout::{halves_bytes, halves_to_bytes, words_bytes, words_to_bytes, FLOAT_SIZE};

verus! {

/// Bytes between consecutive vertices.
pub const VERTEX_STRIDE: u64 = 24;

/// Bit patterns of the coordinates the fixed meshes use.
pub const NEG_THREE_QUARTERS: u32 = 0xbf40_0000;
pub const THREE_QUARTERS: u32 = 0x3f40_0000;
pub const ZERO: u32 = 0;
pub const ONE: u32 = 0x3f80_0000;

/// A vertex: position and color, each three floats held as their bit patterns.
#[derive(Clone, Copy, PartialEq, Eq, Debug)]
pub struct Vertex {
    pub position: [u32; 3],
    pub color: [u32; 3],
}

/// One vertex attribute: three 32-bit floats read at `offset` within a vertex.
#[derive(Clone, Copy, PartialEq, Eq, Debug)]
pub struct Float3Attribute {
    pub location: u32,
    pub offset: u64,
}

/// How the pipeline reads a vertex buffer: the stride and the attributes.
pub struct VertexLayout {
    pub stride: u64,
    pub attributes: Vec<Float3Attribute>,
}

/// The words of a vertex in buffer order: position, then color.
pub open spec fn vertex_word(v: Vertex, j: int) -> u32 {
    if j < 3 {
        v.position@[j]
    } else {
        v.color@[j - 3]
    }
}

/// The words of consecutive vertices, six each.
pub open spec fn vertex_words(vs: Seq<Vertex>) -> Seq<u32> {
    Seq::new((6 * vs.len()) as nat, |k: int| vertex_word(vs[k / 6], k % 6))
}

/// The bytes of consecutive vertices, as a vertex buffer holds them.
pub open spec fn vertices_bytes(vs: Seq<Vertex>) -> Seq<u8> {
    words_bytes(vertex_words(vs))
}

/// The triangle: three corners in viewport space, red, green and blue.
pub open spec fn triangle_vertices() -> Seq<Vertex> {
    seq![
        Vertex { position: [NEG_THREE_QUARTERS, NEG_THREE_QUARTERS, ZERO], color: [ONE, ZERO, ZERO] },
        Vertex { position: [THREE_QUARTERS, NEG_THREE_QUARTERS, ZERO], color: [ZERO, ONE, ZERO] },
        Vertex { position: [ZERO, THREE_QUARTERS, ZERO], color: [ZERO, ZERO, ONE] },
    ]
}

/// The quad: four corners counter-clockwise from the lower left.
pub open spec fn quad_vertices() -> Seq<Vertex> {
    seq![
        Vertex { position: [NEG_THREE_QUARTERS, NEG_THREE_QUARTERS, ZERO], color: [ONE, ZERO, ZERO] },
        Vertex { position: [THREE_QUARTERS, NEG_THREE_QUARTERS, ZERO], color: [ZERO, ONE, ZERO] },
        Vertex { position: [THREE_QUARTERS, THREE_QUARTERS, ZERO], color: [ZERO, ZERO, ONE] },
        Vertex { position: [NEG_THREE_QUARTERS, THREE_QUARTERS, ZERO], color: [ZERO, ONE, ONE] },
    ]
}

/// The quad's two counter-clockwise triangles.
pub open spec fn quad_indices() -> Seq<u16> {
    seq![0u16, 1, 2, 2, 3, 0]
}

impl Vertex {
    /// The layout that matches the vertex encoding: position at location 0,
    /// color at location 1, 24 bytes per vertex.
    pub fn get_layout() -> (r: VertexLayout)
        ensures
            r.stride == VERTEX_STRIDE,
            r.attributes@ == seq![
                Float3Attribute { location: 0, offset: 0 },
                Float3Attribute { location: 1, offset: (3 * FLOAT_SIZE) as u64 },
            ],
    {
        let mut attributes: Vec<Float3Attribute> = Vec::new();
        attributes.push(Float3Attribute { location: 0, offset: 0 });
        attributes.push(Float3Attribute { location: 1, offset: 3 * FLOAT_SIZE });
        VertexLayout { stride: VERTEX_STRIDE, attributes }
    }
}

/// Serialises vertices back to back, six little-endian words each.
pub fn vertices_to_bytes(vs: &[Vertex]) -> (r: Vec<u8>)
    requires
        24 * vs@.len() <= usize::MAX,
    ensures
        r@ == vertices_bytes(vs@),
        r@.len() == VERTEX_STRIDE * vs@.len(),
{
    let mut words: Vec<u32> = Vec::new();
    let mut i: usize = 0;
    while i < vs.len()
        invariant
            i <= vs@.len(),
            24 * vs@.len() <= usize::MAX,
            words@ =~= Seq::new((6 * i) as nat, |k: int| vertex_word(vs@[k / 6], k % 6)),
        decreases vs@.len() - i,
    {
        let v = vs[i];
        words.push(v.position[0]);
        words.push(v.position[1]);
        words.push(v.position[2]);
        words.push(v.color[0]);
        words.push(v.color[1]);
        words.push(v.color[2]);
        i = i + 1;
    }
    assert(words@ =~= vertex_words(vs@));
    words_to_bytes(words.as_slice())
}

fn triangle_vec() -> (r: Vec<Vertex>)
    ensures
        r@ == triangle_vertices(),
{
    let mut r: Vec<Vertex> = Vec::new();
    r.push(Vertex { position: [NEG_THREE_QUARTERS, NEG_THREE_QUARTERS, ZERO], color: [ONE, ZERO, ZERO] });
    r.push(Vertex { position: [THREE_QUARTERS, NEG_THREE_QUARTERS, ZERO], color: [ZERO, ONE, ZERO] });
    r.push(Vertex { position: [ZERO, THREE_QUARTERS, ZERO], color: [ZERO, ZERO, ONE] });
    assert(r@ =~= triangle_vertices());
    r
}

fn quad_vec() -> (r: Vec<Vertex>)
    ensures
        r@ == quad_vertices(),
{
    let mut r: Vec<Vertex> = Vec::new();
    r.push(Vertex { position: [NEG_THREE_QUARTERS, NEG_THREE_QUARTERS, ZERO], color: [ONE, ZERO, ZERO] });
    r.push(Vertex { position: [THREE_QUARTERS, NEG_THREE_QUARTERS, ZERO], color: [ZERO, ONE, ZERO] });
    r.push(Vertex { position: [THREE_QUARTERS, THREE_QUARTERS, ZERO], color: [ZERO, ZERO, ONE] });
    r.push(Vertex { position: [NEG_THREE_QUARTERS, THREE_QUARTERS, ZERO], color: [ZERO, ONE, ONE] });
    assert(r@ =~= quad_vertices());
    r
}

/// The bytes of the triangle's vertex buffer.
pub fn triangle_bytes() -> (r: Vec<u8>)
    ensures
        r@ == vertices_bytes(triangle_vertices()),
        r@.len() == 3 * VERTEX_STRIDE,
{
    let vs = triangle_vec();
    vertices_to_bytes(vs.as_slice())
}

/// The quad packed as one buffer: its vertices, then its 16-bit indices
/// starting at the returned byte offset, which is the vertices' size.
pub fn quad_bytes() -> (r: (Vec<u8>, u64))
    ensures
        r.1 == vertices_bytes(quad_vertices()).len(),
        r.1 == 4 * VERTEX_STRIDE,
        r.0@ == vertices_bytes(quad_vertices()) + halves_bytes(quad_indices()),
        r.0@.len() == 4 * VERTEX_STRIDE + 2 * 6,
{
    let vs = quad_vec();
    let mut bytes = vertices_to_bytes(vs.as_slice());
    let offset = bytes.len() as u64;
    let mut indices: Vec<u16> = Vec::new();
    indices.push(0);
    indices.push(1);
    indices.push(2);
    indices.push(2);
    indices.push(3);
    indices.push(0);
    assert(indices@ =~= quad_indices());
    let mut index_bytes = halves_to_bytes(indices.as_slice());
    bytes.append(&mut index_bytes);
    (bytes, offset)
}

/// A mesh in one buffer: vertex data before `offset`, 16-bit indices from it.
pub struct Mesh {
    pub buffer: GpuBuffer,
    pub offset: u64,
}

/// A buffer for `role` holding exactly `bytes`, or `None` when wgpu refused it.
fn upload_new(gpu: &Gpu, label: &str, bytes: &Vec<u8>, role: BufferRole) -> (r: Option<GpuBuffer>)
    requires
        bytes@.len() % 4 == 0,
    ensures
        r matches Some(b) ==> b.size() == bytes@.len() && b.role() == role && b.contents() == bytes@,
{
    let mut buffer = match create_buffer(gpu, label, bytes.len() as u64, role) {
        Some(b) => b,
        None => { return None; },
    };
    if write_buffer(&mut buffer, 0, bytes.as_slice()) {
        assert(buffer.contents() =~= bytes@);
        Some(buffer)
    } else {
        None
    }
}

/// Uploads the triangle's three vertices as a 72-byte vertex buffer; `None`
/// when wgpu refuses the buffer.
pub fn make_triangle(gpu: &Gpu) -> (r: Option<GpuBuffer>)
    ensures
        r matches Some(b) ==> b.size() == 3 * VERTEX_STRIDE && b.role() == BufferRole::Vertex
            && b.contents() == vertices_bytes(triangle_vertices()),
{
    let bytes = triangle_bytes();
    upload_new(gpu, "Triangle Vertex Buffer", &bytes, BufferRole::Vertex)
}

/// Uploads the quad's vertices and indices as one 108-byte buffer; the
/// indices start at the recorded offset, right after the four vertices.
/// `None` when wgpu refuses the buffer.
pub fn make_quad(gpu: &Gpu) -> (r: Option<Mesh>)
    ensures
        r matches Some(m) ==> m.offset == 4 * VERTEX_STRIDE && m.offset == vertices_bytes(quad_vertices()).len()
            && m.buffer.size() == 4 * VERTEX_STRIDE + 2 * 6 && m.buffer.role() == BufferRole::VertexAndIndex
            && m.buffer.contents() == vertices_bytes(quad_vertices()) + halves_bytes(quad_indices()),
{
    let (bytes, offset) = quad_bytes();
    match upload_new(gpu, "Quad vertex & index Buffer", &bytes, BufferRole::VertexAndIndex) {
        Some(buffer) => Some(Mesh { buffer, offset }),
        None => None,
    }
}

} // verus!
