//! Records a frame's render pass from its command list.
use vstd::prelude::*;
use crate::gpu::{
    draw, draw_indexed, set_bind_group, set_index_buffer, set_pipeline, set_vertex_buffer, GpuBuffer,
    GpuPipeline, Pass, Recorded,
};
use crate::material::Material;
use crate::mesh_builder::Mesh;
use crate::scene::{object_commands, pass_commands_spec, MeshKind, PassCommand, World};
use crate::ubo::UBO;

verus! {

/// What a frame draws with: the pipeline, the two meshes and their materials.
pub struct FrameRenderer {
    pub pipeline: GpuPipeline,
    pub quad_mesh: Mesh,
    pub triangle_mesh: GpuBuffer,
    pub quad_material: Material,
    pub triangle_material: Material,
}

/// Every slot a command list binds is one the pool has.
pub open spec fn slots_within(commands: Seq<PassCommand>, count: nat) -> bool {
    forall|k: int|
        0 <= k < commands.len() ==> match #[trigger] commands[k] {
            PassCommand::SetObject(s) => s < count,
            _ => true,
        }
}

/// The pass of a world binds only slots below its object count.
pub proof fn lemma_pass_slots_within(quads: nat, tris: nat)
    ensures
        slots_within(pass_commands_spec(quads, tris), quads + tris),
{
    let c = pass_commands_spec(quads, tris);
    let a = object_commands(0, quads, MeshKind::Quad);
    let b = object_commands(quads, tris, MeshKind::Triangle);
    assert forall|k: int| 0 <= k < c.len() implies match #[trigger] c[k] {
        PassCommand::SetObject(s) => s < quads + tris,
        _ => true,
    } by {
        if 3 <= k < 3 + a.len() {
            assert(c[k] == a[k - 3]);
        } else if 5 + a.len() <= k {
            assert(c[k] == b[k - 5 - a.len()]);
        }
    }
}

impl FrameRenderer {
    /// What one command records on the pass.
    pub open spec fn recorded_of(&self, c: PassCommand, ubo: &UBO) -> Seq<Recorded> {
        match c {
            PassCommand::SetPipeline => seq![Recorded::Pipeline(self.pipeline.raw())],
            PassCommand::SetMaterial(MeshKind::Quad) => seq![Recorded::BindGroup(0, self.quad_material.bind_group.raw())],
            PassCommand::SetMaterial(MeshKind::Triangle) => seq![
                Recorded::BindGroup(0, self.triangle_material.bind_group.raw()),
            ],
            PassCommand::SetMesh(MeshKind::Quad) => seq![
                Recorded::VertexBuffer(self.quad_mesh.buffer.raw(), 0, self.quad_mesh.offset),
                Recorded::IndexBuffer(self.quad_mesh.buffer.raw(), self.quad_mesh.offset),
            ],
            PassCommand::SetMesh(MeshKind::Triangle) => seq![
                Recorded::VertexBuffer(self.triangle_mesh.raw(), 0, self.triangle_mesh.size()),
            ],
            PassCommand::SetObject(s) => seq![Recorded::BindGroup(1, ubo.groups()[s as int].raw())],
            PassCommand::DrawIndexed(n) => seq![Recorded::DrawIndexed(n)],
            PassCommand::Draw(n) => seq![Recorded::Draw(n)],
        }
    }

    /// What a list of commands records, in order.
    pub open spec fn recorded(&self, cs: Seq<PassCommand>, ubo: &UBO) -> Seq<Recorded>
        decreases cs.len(),
    {
        if cs.len() == 0 {
            Seq::empty()
        } else {
            self.recorded(cs.drop_last(), ubo) + self.recorded_of(cs.last(), ubo)
        }
    }

    /// Issues `commands` on `pass` in order. A quad mesh binds its vertex
    /// data before its recorded offset and its 16-bit indices from it.
    pub fn record(&self, pass: &mut Pass, commands: &Vec<PassCommand>, ubo: &UBO)
        requires
            slots_within(commands@, ubo.object_count()),
            self.quad_mesh.offset <= self.quad_mesh.buffer.size(),
        ensures
            final(pass).log() == old(pass).log() + self.recorded(commands@, ubo),
    {
        let mut k: usize = 0;
        while k < commands.len()
            invariant
                k <= commands@.len(),
                slots_within(commands@, ubo.object_count()),
                self.quad_mesh.offset <= self.quad_mesh.buffer.size(),
                pass.log() == old(pass).log() + self.recorded(commands@.take(k as int), ubo),
            decreases commands@.len() - k,
        {
            let ghost before = pass.log();
            let c = commands[k];
            match c {
                PassCommand::SetPipeline => set_pipeline(pass, &self.pipeline),
                PassCommand::SetMaterial(MeshKind::Quad) => set_bind_group(pass, 0, &self.quad_material.bind_group),
                PassCommand::SetMaterial(MeshKind::Triangle) => set_bind_group(pass, 0, &self.triangle_material.bind_group),
                PassCommand::SetMesh(MeshKind::Quad) => {
                    set_vertex_buffer(pass, &self.quad_mesh.buffer, 0, self.quad_mesh.offset);
                    set_index_buffer(pass, &self.quad_mesh.buffer, self.quad_mesh.offset);
                },
                PassCommand::SetMesh(MeshKind::Triangle) => {
                    let end = self.triangle_mesh.len();
                    set_vertex_buffer(pass, &self.triangle_mesh, 0, end);
                },
                PassCommand::SetObject(s) => set_bind_group(pass, 1, ubo.bind_group(s)),
                PassCommand::DrawIndexed(n) => draw_indexed(pass, n),
                PassCommand::Draw(n) => draw(pass, n),
            }
            proof {
                assert(pass.log() =~= before + self.recorded_of(c, ubo));
                assert(commands@.take(k + 1).drop_last() =~= commands@.take(k as int));
                assert(commands@.take(k + 1).last() == c);
                assert(pass.log() =~= old(pass).log() + self.recorded(commands@.take(k + 1), ubo));
            }
            k = k + 1;
        }
        assert(commands@.take(k as int) =~= commands@);
    }

    /// Records the world's pass: quads at slots `0..quads`, then triangles.
    pub fn record_world<T>(&self, pass: &mut Pass, world: &World<T>, ubo: &UBO)
        requires
            world.count() <= ubo.object_count(),
            ubo.object_count() <= usize::MAX,
            self.quad_mesh.offset <= self.quad_mesh.buffer.size(),
        ensures
            final(pass).log() == old(pass).log() + self.recorded(
                pass_commands_spec(world.quads@.len(), world.tris@.len()),
                ubo,
            ),
    {
        let commands = world.pass_commands();
        proof {
            lemma_pass_slots_within(world.quads@.len(), world.tris@.len());
        }
        self.record(pass, &commands, ubo);
    }
}

} // verus!
