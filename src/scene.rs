//! The drawables of a frame and the order in which they use the uniform
//! pool: all quads first, at slots `0..quads`, then all triangles after them.
use vstd::prelude::*;

verus! {

/// The flat list of drawables, in two groups. What an object holds is the
/// simulation's business; the core reads only the order.
pub struct World<T> {
    pub quads: Vec<T>,
    pub tris: Vec<T>,
}

/// Which mesh a draw uses.
#[derive(Clone, Copy, PartialEq, Eq, Debug)]
pub enum MeshKind {
    /// The quad mesh, drawn with its six indices.
    Quad,
    /// The triangle mesh, drawn with its three vertices.
    Triangle,
}

/// One command of the frame's render pass.
#[derive(Clone, Copy, PartialEq, Eq, Debug)]
pub enum PassCommand {
    SetPipeline,
    /// Bind the mesh's material at set 0.
    SetMaterial(MeshKind),
    /// Bind the mesh's vertex data, and for the quad its index data.
    SetMesh(MeshKind),
    /// Bind the uniform slot's bind group at set 1.
    SetObject(usize),
    /// Draw this many indices of one instance.
    DrawIndexed(u32),
    /// Draw this many vertices of one instance.
    Draw(u32),
}

/// How one object of the mesh is drawn.
pub open spec fn draw_of(mesh: MeshKind) -> PassCommand {
    match mesh {
        MeshKind::Quad => PassCommand::DrawIndexed(6),
        MeshKind::Triangle => PassCommand::Draw(3),
    }
}

/// For `n` objects of one mesh, slots from `first`: bind the slot, then draw.
pub open spec fn object_commands(first: nat, n: nat, mesh: MeshKind) -> Seq<PassCommand> {
    Seq::new(
        2 * n,
        |k: int|
            if k % 2 == 0 {
                PassCommand::SetObject((first + k / 2) as usize)
            } else {
                draw_of(mesh)
            },
    )
}

/// The whole pass for `quads` quads and `tris` triangles: the pipeline, the
/// quad material and mesh, each quad; then the triangle material and mesh,
/// each triangle.
pub open spec fn pass_commands_spec(quads: nat, tris: nat) -> Seq<PassCommand> {
    seq![PassCommand::SetPipeline, PassCommand::SetMaterial(MeshKind::Quad), PassCommand::SetMesh(MeshKind::Quad)]
        + object_commands(0, quads, MeshKind::Quad)
        + seq![PassCommand::SetMaterial(MeshKind::Triangle), PassCommand::SetMesh(MeshKind::Triangle)]
        + object_commands(quads, tris, MeshKind::Triangle)
}

fn push_object_commands(out: &mut Vec<PassCommand>, first: usize, n: usize, mesh: MeshKind)
    requires
        first + n <= usize::MAX,
    ensures
        final(out)@ == old(out)@ + object_commands(first as nat, n as nat, mesh),
{
    let draw = match mesh {
        MeshKind::Quad => PassCommand::DrawIndexed(6),
        MeshKind::Triangle => PassCommand::Draw(3),
    };
    let mut k: usize = 0;
    while k < n
        invariant
            k <= n,
            first + n <= usize::MAX,
            draw == draw_of(mesh),
            out@ =~= old(out)@ + object_commands(first as nat, k as nat, mesh),
        decreases n - k,
    {
        out.push(PassCommand::SetObject(first + k));
        out.push(draw);
        k = k + 1;
        assert(out@ =~= old(out)@ + object_commands(first as nat, k as nat, mesh));
    }
}

/// The slot of quad `i`.
pub open spec fn quad_slot_spec(i: int) -> int {
    i
}

/// The slot of triangle `j` in a world with `quads` quads.
pub open spec fn tri_slot_spec(quads: nat, j: int) -> int {
    quads + j
}

impl<T> World<T> {
    pub fn new() -> (r: Self)
        ensures
            r.quads@.len() == 0,
            r.tris@.len() == 0,
    {
        World { quads: Vec::new(), tris: Vec::new() }
    }

    pub open spec fn count(&self) -> nat {
        self.quads@.len() + self.tris@.len()
    }

    /// The number of uniform slots the world needs.
    pub fn object_count(&self) -> (r: usize)
        requires
            self.count() <= usize::MAX,
        ensures
            r == self.count(),
    {
        self.quads.len() + self.tris.len()
    }

    pub fn quad_slot(&self, i: usize) -> (r: usize)
        requires
            i < self.quads@.len(),
        ensures
            r == quad_slot_spec(i as int),
    {
        i
    }

    pub fn tri_slot(&self, j: usize) -> (r: usize)
        requires
            j < self.tris@.len(),
            self.count() <= usize::MAX,
        ensures
            r == tri_slot_spec(self.quads@.len(), j as int),
    {
        self.quads.len() + j
    }

    /// The object whose transform goes to uniform slot `slot`: the quads
    /// first, then the triangles.
    pub fn object(&self, slot: usize) -> (r: &T)
        requires
            slot < self.count(),
        ensures
            slot < self.quads@.len() ==> *r == self.quads@[slot as int],
            slot >= self.quads@.len() ==> *r == self.tris@[slot - self.quads@.len()],
    {
        if slot < self.quads.len() {
            &self.quads[slot]
        } else {
            &self.tris[slot - self.quads.len()]
        }
    }

    /// The commands of one frame's pass, in order.
    pub fn pass_commands(&self) -> (r: Vec<PassCommand>)
        requires
            self.count() <= usize::MAX,
        ensures
            r@ == pass_commands_spec(self.quads@.len(), self.tris@.len()),
    {
        let q = self.quads.len();
        let t = self.tris.len();
        let mut r: Vec<PassCommand> = Vec::new();
        r.push(PassCommand::SetPipeline);
        r.push(PassCommand::SetMaterial(MeshKind::Quad));
        r.push(PassCommand::SetMesh(MeshKind::Quad));
        push_object_commands(&mut r, 0, q, MeshKind::Quad);
        r.push(PassCommand::SetMaterial(MeshKind::Triangle));
        r.push(PassCommand::SetMesh(MeshKind::Triangle));
        push_object_commands(&mut r, q, t, MeshKind::Triangle);
        assert(r@ =~= pass_commands_spec(q as nat, t as nat));
        r
    }
}

/// The slots of all objects are exactly `0..count`, each used by one object:
/// quads and triangles never share a slot, and no slot is left out.
pub proof fn lemma_slots_partition(quads: nat, tris: nat, s: int)
    requires
        0 <= s < quads + tris,
    ensures
        forall|i: int, j: int|
            0 <= i < quads && 0 <= j < tris ==> #[trigger] quad_slot_spec(i) != #[trigger] tri_slot_spec(quads, j),
        forall|i: int| 0 <= i < quads ==> 0 <= #[trigger] quad_slot_spec(i) < quads + tris,
        forall|j: int| 0 <= j < tris ==> 0 <= #[trigger] tri_slot_spec(quads, j) < quads + tris,
        (exists|i: int| 0 <= i < quads && quad_slot_spec(i) == s)
            || (exists|j: int| 0 <= j < tris && tri_slot_spec(quads, j) == s),
{
    if s < quads {
        assert(quad_slot_spec(s) == s);
    } else {
        assert(tri_slot_spec(quads, s - quads) == s);
    }
}

} // verus!
