//! One uniform buffer holding a 4x4 matrix per object, each in its own
//! aligned slot, with one bind group per slot.
use vstd::prelude::*;
use crate::bind_group::{self, Entry, Resource};
use crate::bind_group_layout;
use crate::gpu::{
    create_buffer, min_uniform_alignment, write_buffer, BufferRole, Gpu, GpuBindGroup, GpuBindGroupLayout,
    GpuBuffer,
};
use crate::layout::{
    le_bytes, lemma_le_round_trip, read_word, words_bytes, words_to_bytes, write_at, MATRIX_SIZE,
};

verus! {

/// The slot stride for a device whose minimum uniform offset alignment is `min_align`.
pub open spec fn alignment_of(min_align: int) -> int {
    if min_align > MATRIX_SIZE {
        min_align
    } else {
        MATRIX_SIZE as int
    }
}

/// The stride between per-object slots: the device's minimum uniform offset
/// alignment, but never less than one matrix.
pub fn uniform_alignment(min_align: u32) -> (r: u64)
    ensures
        r == alignment_of(min_align as int),
{
    if min_align as u64 > MATRIX_SIZE {
        min_align as u64
    } else {
        MATRIX_SIZE
    }
}

/// Whenever the device's alignment is a power of two, the stride is a
/// positive multiple of it and of the matrix size, and a power of two too.
pub proof fn lemma_alignment_is_common_multiple(a: u32)
    requires
        a > 0,
        a & ((a - 1) as u32) == 0,
    ensures
        alignment_of(a as int) > 0,
        alignment_of(a as int) % (a as int) == 0,
        alignment_of(a as int) % (MATRIX_SIZE as int) == 0,
        alignment_of(a as int) >= a,
        alignment_of(a as int) >= MATRIX_SIZE,
        (alignment_of(a as int) as u32) & ((alignment_of(a as int) - 1) as u32) == 0,
{
    if a > 64 {
        assert(a % 64 == 0) by (bit_vector)
            requires
                a > 64,
                a & ((a - 1) as u32) == 0,
        ;
        assert((a as int) % (a as int) == 0) by (nonlinear_arith)
            requires
                a > 0,
        ;
    } else {
        assert(64u32 & 63u32 == 0) by (bit_vector);
        assert(64u32 % a == 0) by (bit_vector)
            requires
                0 < a <= 64,
                a & ((a - 1) as u32) == 0,
        ;
    }
}

/// Writing a matrix's bytes into slot `i` of a pool's buffer, then reading
/// the words from byte `i` times the stride on, gives back the matrix's
/// sixteen column-major words; every byte outside the slot is left as it was.
pub proof fn lemma_upload_reads_back(buf: Seq<u8>, count: int, stride: int, i: int, m: Seq<u32>)
    requires
        buf.len() == count * stride,
        stride >= MATRIX_SIZE,
        0 <= i < count,
        m.len() == 16,
    ensures
        write_at(buf, i * stride, words_bytes(m)).len() == buf.len(),
        forall|k: int|
            0 <= k < 16 ==> #[trigger] read_word(write_at(buf, i * stride, words_bytes(m)), i * stride + 4 * k)
                == m[k],
        forall|p: int|
            0 <= p < buf.len() && (p < i * stride || i * stride + MATRIX_SIZE <= p) ==> #[trigger] write_at(
                buf,
                i * stride,
                words_bytes(m),
            )[p] == buf[p],
{
    let off = i * stride;
    let data = words_bytes(m);
    let b2 = write_at(buf, off, data);
    assert(off + MATRIX_SIZE <= count * stride) by (nonlinear_arith)
        requires
            off == i * stride,
            stride >= MATRIX_SIZE,
            0 <= i < count,
    ;
    assert(data.len() == MATRIX_SIZE);
    assert(b2.len() == buf.len());
    assert forall|k: int| 0 <= k < 16 implies #[trigger] read_word(b2, off + 4 * k) == m[k] by {
        lemma_le_round_trip(m[k]);
        assert((4 * k) / 4 == k && (4 * k + 1) / 4 == k && (4 * k + 2) / 4 == k && (4 * k + 3) / 4 == k);
        assert(b2[off + 4 * k] == data[4 * k]);
        assert(b2[off + 4 * k + 1] == data[4 * k + 1]);
        assert(b2[off + 4 * k + 2] == data[4 * k + 2]);
        assert(b2[off + 4 * k + 3] == data[4 * k + 3]);
        assert(data[4 * k] == le_bytes(m[k])[0]);
        assert(data[4 * k + 1] == le_bytes(m[k])[1]);
        assert(data[4 * k + 2] == le_bytes(m[k])[2]);
        assert(data[4 * k + 3] == le_bytes(m[k])[3]);
    }
}

/// The entry that binds slot `i`: the buffer from `i` strides on, with no
/// declared size.
pub open spec fn slot_entry(buffer: wgpu::Buffer, i: int, stride: u64) -> Entry {
    Entry { binding: 0, resource: Resource::Buffer(buffer, (i * stride) as u64) }
}

/// The per-object uniform pool. The object count and the stride are fixed
/// for its lifetime.
pub struct UBO {
    pub buffer: GpuBuffer,
    pub bind_groups: Vec<GpuBindGroup>,
    alignment: u64,
    device_alignment: u32,
}

impl UBO {
    /// The byte distance between consecutive slots.
    pub closed spec fn stride(&self) -> u64 {
        self.alignment
    }

    /// The device's minimum uniform offset alignment, as read when the pool was made.
    pub closed spec fn reported_alignment(&self) -> u32 {
        self.device_alignment
    }

    pub closed spec fn object_count(&self) -> nat {
        self.bind_groups@.len()
    }

    pub closed spec fn buf(&self) -> GpuBuffer {
        self.buffer
    }

    pub closed spec fn groups(&self) -> Seq<GpuBindGroup> {
        self.bind_groups@
    }

    pub open spec fn wf(&self) -> bool {
        &&& self.stride() >= MATRIX_SIZE
        &&& self.stride() % 4 == 0
        &&& self.stride() == alignment_of(self.reported_alignment() as int)
        &&& self.object_count() * self.stride() <= u64::MAX
        &&& self.buf().size() == self.object_count() * self.stride()
        &&& self.buf().contents().len() == self.buf().size()
        &&& self.buf().role() == BufferRole::Uniform
    }

    /// A pool of `object_count` slots on `gpu`, strided by the device's
    /// minimum uniform offset alignment (at least one matrix); see
    /// `with_alignment`.
    pub fn new(gpu: &Gpu, object_count: usize, layout: &GpuBindGroupLayout) -> (r: Option<Self>)
        requires
            object_count <= u32::MAX,
        ensures
            r matches Some(u) ==> {
                &&& u.wf()
                &&& u.object_count() == object_count
                &&& forall|i: int|
                    0 <= i < object_count ==> (#[trigger] u.groups()[i]).layout() == *layout
                        && u.groups()[i].entries() == seq![slot_entry(u.buf().raw(), i, u.stride())]
            },
    {
        let min_align = min_uniform_alignment(gpu.device());
        Self::with_alignment(gpu, object_count, layout, min_align)
    }

    /// A pool of `object_count` slots for a device whose minimum uniform
    /// offset alignment is `min_align`: one uniform buffer of `object_count`
    /// strides, and for each slot `i` a group made against `layout` that
    /// binds the buffer from byte `i` times the stride on. `None` when the
    /// stride is not a multiple of four (queue writes need that), or when
    /// wgpu refuses the buffer or a group (as it does an offset that is not a
    /// multiple of the device's own alignment).
    pub fn with_alignment(gpu: &Gpu, object_count: usize, layout: &GpuBindGroupLayout, min_align: u32) -> (r: Option<Self>)
        requires
            object_count <= u32::MAX,
        ensures
            alignment_of(min_align as int) % 4 != 0 ==> r is None,
            r matches Some(u) ==> {
                &&& u.wf()
                &&& u.reported_alignment() == min_align
                &&& u.object_count() == object_count
                &&& forall|i: int|
                    0 <= i < object_count ==> (#[trigger] u.groups()[i]).layout() == *layout
                        && u.groups()[i].entries() == seq![slot_entry(u.buf().raw(), i, u.stride())]
            },
    {
        let device_alignment = min_align;
        let alignment = uniform_alignment(device_alignment);
        if alignment % 4 != 0 {
            return None;
        }
        assert(object_count * alignment <= u64::MAX) by (nonlinear_arith)
            requires
                object_count <= u32::MAX,
                alignment <= u32::MAX,
        ;
        let size = object_count as u64 * alignment;
        let buffer = match create_buffer(gpu, "UBO", size, BufferRole::Uniform) {
            Some(b) => b,
            None => { return None; },
        };
        let mut bind_groups: Vec<GpuBindGroup> = Vec::new();
        let mut i: usize = 0;
        while i < object_count
            invariant
                i <= object_count,
                object_count <= u32::MAX,
                alignment <= u32::MAX,
                alignment >= MATRIX_SIZE,
                buffer.size() == object_count * alignment,
                bind_groups@.len() == i,
                forall|k: int|
                    0 <= k < i ==> (#[trigger] bind_groups@[k]).layout() == *layout
                        && bind_groups@[k].entries() == seq![slot_entry(buffer.raw(), k, alignment)],
            decreases object_count - i,
        {
            assert(i * alignment <= u64::MAX) by (nonlinear_arith)
                requires
                    i <= u32::MAX,
                    alignment <= u32::MAX,
            ;
            let mut builder = bind_group::Builder::new(gpu.device());
            builder.set_layout(layout);
            builder.add_buffer(buffer.handle(), i as u64 * alignment);
            match builder.build("Matrix") {
                Some(g) => bind_groups.push(g),
                None => { return None; },
            }
            i = i + 1;
        }
        Some(UBO { buffer, bind_groups, alignment, device_alignment })
    }

    /// The bind group of slot `i`.
    pub fn bind_group(&self, i: usize) -> (r: &GpuBindGroup)
        requires
            i < self.object_count(),
        ensures
            *r == self.groups()[i as int],
    {
        &self.bind_groups[i]
    }

    pub fn alignment(&self) -> (r: u64)
        ensures
            r == self.stride(),
    {
        self.alignment
    }

    /// The number of slots.
    pub fn len(&self) -> (r: usize)
        ensures
            r == self.object_count(),
    {
        self.bind_groups.len()
    }

    /// Where slot `i` begins and the bytes that an upload of `matrix` writes
    /// there: sixteen column-major words, four little-endian bytes each.
    pub fn slot_write(&self, i: u64, matrix: &[u32; 16]) -> (r: (u64, Vec<u8>))
        requires
            self.wf(),
            i < self.object_count(),
        ensures
            r.0 == i * self.stride(),
            r.0 + MATRIX_SIZE <= self.object_count() * self.stride(),
            r.1@ == words_bytes(matrix@),
            r.1@.len() == MATRIX_SIZE,
    {
        assert(i * self.stride() + MATRIX_SIZE <= self.object_count() * self.stride())
            by (nonlinear_arith)
            requires
                self.stride() >= MATRIX_SIZE,
                i < self.object_count(),
        ;
        let offset = i * self.alignment;
        let bytes = words_to_bytes(matrix.as_slice());
        (offset, bytes)
    }

    /// Writes `matrix` into slot `i` through the buffer's queue: on success
    /// the bytes from `i` times the stride on become its sixteen words; the
    /// rest of the buffer and the pool stay as they were.
    pub fn upload(&mut self, i: u64, matrix: &[u32; 16]) -> (ok: bool)
        requires
            old(self).wf(),
            i < old(self).object_count(),
        ensures
            final(self).wf(),
            final(self).stride() == old(self).stride(),
            final(self).object_count() == old(self).object_count(),
            final(self).groups() == old(self).groups(),
            final(self).buf().raw() == old(self).buf().raw(),
            ok ==> final(self).buf().contents() == write_at(
                old(self).buf().contents(),
                i * old(self).stride(),
                words_bytes(matrix@),
            ),
            !ok ==> final(self).buf().contents() == old(self).buf().contents(),
    {
        let (offset, data) = self.slot_write(i, matrix);
        let ghost q = self.stride() / 4;
        assert(i * self.stride() == 4 * (i * q)) by (nonlinear_arith)
            requires
                self.stride() == 4 * q,
        ;
        write_buffer(&mut self.buffer, offset, data.as_slice())
    }

    /// Writes `matrices[k]` into slot `k` for every `k`, in order. When every
    /// write succeeds, each slot reads back as its matrix.
    pub fn upload_all(&mut self, matrices: &Vec<[u32; 16]>) -> (ok: bool)
        requires
            old(self).wf(),
            matrices@.len() <= old(self).object_count(),
        ensures
            final(self).wf(),
            final(self).stride() == old(self).stride(),
            final(self).object_count() == old(self).object_count(),
            final(self).groups() == old(self).groups(),
            final(self).buf().raw() == old(self).buf().raw(),
            matrices@.len() == 0 ==> ok,
            ok ==> forall|k: int, j: int|
                0 <= k < matrices@.len() && 0 <= j < 16 ==> #[trigger] read_word(
                    final(self).buf().contents(),
                    k * final(self).stride() + 4 * j,
                ) == matrices@[k]@[j],
    {
        let mut k: usize = 0;
        while k < matrices.len()
            invariant
                self.wf(),
                self.stride() == old(self).stride(),
                self.object_count() == old(self).object_count(),
                self.groups() == old(self).groups(),
                self.buf().raw() == old(self).buf().raw(),
                k <= matrices@.len(),
                matrices@.len() <= self.object_count(),
                forall|k2: int, j: int|
                    0 <= k2 < k && 0 <= j < 16 ==> #[trigger] read_word(self.buf().contents(), k2 * self.stride() + 4 * j)
                        == matrices@[k2]@[j],
            decreases matrices@.len() - k,
        {
            let ghost before = self.buf().contents();
            let ghost stride = self.stride() as int;
            if !self.upload(k as u64, &matrices[k]) {
                return false;
            }
            proof {
                lemma_upload_reads_back(before, self.object_count() as int, stride, k as int, matrices@[k as int]@);
                let n = self.object_count() as int;
                assert(k * stride <= n * stride) by (nonlinear_arith)
                    requires
                        k < n,
                        stride >= 0,
                ;
                assert(self.buf().contents() == write_at(before, k * stride, words_bytes(matrices@[k as int]@)));
                assert forall|k2: int, j: int| 0 <= k2 < k + 1 && 0 <= j < 16 implies #[trigger] read_word(
                    self.buf().contents(),
                    k2 * self.stride() + 4 * j,
                ) == matrices@[k2]@[j] by {
                    if k2 < k {
                        let p = k2 * stride + 4 * j;
                        assert(p + 4 <= k * stride && 0 <= p) by (nonlinear_arith)
                            requires
                                0 <= k2 < k,
                                0 <= j < 16,
                                stride >= MATRIX_SIZE,
                                p == k2 * stride + 4 * j,
                        ;
                        assert(self.buf().contents()[p] == before[p]);
                        assert(self.buf().contents()[p + 1] == before[p + 1]);
                        assert(self.buf().contents()[p + 2] == before[p + 2]);
                        assert(self.buf().contents()[p + 3] == before[p + 3]);
                        assert(read_word(before, k2 * stride + 4 * j) == matrices@[k2]@[j]);
                    } else {
                        assert(read_word(
                            write_at(before, k * stride, words_bytes(matrices@[k as int]@)),
                            k * stride + 4 * j,
                        ) == matrices@[k as int]@[j]);
                    }
                }
            }
            k = k + 1;
        }
        true
    }
}

/// A pool with one slot per object, whose bind groups use a fresh layout of
/// one uniform buffer read by the vertex stage; `None` as for `UBO::new`, or
/// when wgpu refuses the layout.
pub fn build_ubos_for_objects(gpu: &Gpu, object_count: usize) -> (r: Option<UBO>)
    requires
        object_count <= u32::MAX,
    ensures
        r matches Some(u) ==> u.wf() && u.object_count() == object_count
            && forall|i: int| 0 <= i < object_count ==> (#[trigger] u.groups()[i]).layout().slots() == seq![
                bind_group_layout::LayoutEntry {
                    binding: 0,
                    kind: bind_group_layout::BindingKind::UniformBuffer,
                    stage: bind_group_layout::Stage::Vertex,
                },
            ],
{
    let mut builder = bind_group_layout::Builder::new(gpu.device());
    builder.add_ubo();
    match builder.build("UBO Bind Group Layout") {
        Some(layout) => UBO::new(gpu, object_count, &layout),
        None => None,
    }
}

} // verus!
