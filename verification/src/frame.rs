//! Per-frame command recording.
//!
//! A frame is one pass over a fixed recipe: bind the pipeline, bind
//! every bind group to its slot in order, bind the vertex buffers,
//! bind the index buffer if the mesh is indexed, and issue exactly
//! one draw call covering the full vertex or index count, one
//! instance. The recorder produces exactly that command sequence, and
//! a pipeline-compatibility check enforces that the bind groups used
//! with a pipeline conform to its declared layouts slot by slot.

use vstd::prelude::*;
use crate::binding::{BindGroup, BindGroupLayout, LayoutEntry, BindingKind};
use crate::error::RenderError;
use crate::geometry::VertexBufferLayout;

verus! {

/// A compiled pipeline, as the engine models it: the bind-group
/// layouts it was declared with, slot by slot, and the vertex-buffer
/// layouts it consumes.
#[derive(Clone, Debug)]
pub struct Pipeline {
    pub bind_group_layouts: Vec<BindGroupLayout>,
    pub vertex_layouts: Vec<VertexBufferLayout>,
}

/// One recorded render-pass command. Resources are named by the small
/// ids the platform layer assigned when it created them.
#[derive(Clone, Copy, Debug, PartialEq, Eq, Structural)]
pub enum RenderCommand {
    /// Bind the pipeline.
    SetPipeline { pipeline: usize },
    /// Bind a group to a bind-group slot.
    SetBindGroup { index: u32, group: usize },
    /// Bind a vertex buffer to a vertex-buffer slot.
    SetVertexBuffer { slot: u32, buffer: usize },
    /// Bind the 16-bit index buffer.
    SetIndexBuffer { buffer: usize },
    /// Draw this many vertices for this many instances.
    Draw { vertices: u32, instances: u32 },
    /// Draw this many indices for this many instances.
    DrawIndexed { indices: u32, instances: u32 },
}

/// Everything one frame's pass needs: the pipeline id, the bind-group
/// ids for slots 0 and up, the vertex-buffer ids for slots 0 and up,
/// the index buffer if the mesh is indexed, and the counts the draw
/// call must cover.
#[derive(Clone, Debug)]
pub struct FramePlan {
    pub pipeline: usize,
    pub bind_groups: Vec<usize>,
    pub vertex_buffers: Vec<usize>,
    pub index_buffer: Option<usize>,
    pub vertex_count: u32,
    pub index_count: u32,
}

/// The bind-group commands: group `k` bound to slot `k`, in order.
pub open spec fn bind_group_commands(groups: Seq<usize>) -> Seq<RenderCommand> {
    Seq::new(groups.len(), |i: int| RenderCommand::SetBindGroup { index: i as u32, group: groups[i] })
}

/// The vertex-buffer commands: buffer `k` bound to slot `k`, in
/// order.
pub open spec fn vertex_buffer_commands(buffers: Seq<usize>) -> Seq<RenderCommand> {
    Seq::new(
        buffers.len(),
        |i: int| RenderCommand::SetVertexBuffer { slot: i as u32, buffer: buffers[i] },
    )
}

/// The index-buffer command, present exactly for indexed meshes.
pub open spec fn index_buffer_commands(index_buffer: Option<usize>) -> Seq<RenderCommand> {
    match index_buffer {
        Some(b) => seq![RenderCommand::SetIndexBuffer { buffer: b }],
        None => Seq::empty(),
    }
}

/// The one draw call of the frame: indexed over the full index count
/// when the mesh is indexed, else over the full vertex count; one
/// instance either way.
pub open spec fn draw_command(plan: FramePlan) -> RenderCommand {
    if plan.index_buffer is Some {
        RenderCommand::DrawIndexed { indices: plan.index_count, instances: 1 }
    } else {
        RenderCommand::Draw { vertices: plan.vertex_count, instances: 1 }
    }
}

/// The full command sequence of one frame.
pub open spec fn frame_commands(plan: FramePlan) -> Seq<RenderCommand> {
    seq![RenderCommand::SetPipeline { pipeline: plan.pipeline }] + bind_group_commands(
        plan.bind_groups@,
    ) + vertex_buffer_commands(plan.vertex_buffers@) + index_buffer_commands(plan.index_buffer)
        + seq![draw_command(plan)]
}

/// Records one frame: exactly the pipeline bind, the bind groups in
/// slot order, the vertex buffers in slot order, the index buffer for
/// an indexed mesh, and one draw call covering the plan's full count,
/// one instance.
pub fn record_frame(plan: &FramePlan) -> (out: Vec<RenderCommand>)
    requires
        plan.bind_groups@.len() <= u32::MAX,
        plan.vertex_buffers@.len() <= u32::MAX,
    ensures
        out@ == frame_commands(*plan),
{
    let mut out: Vec<RenderCommand> = Vec::new();
    out.push(RenderCommand::SetPipeline { pipeline: plan.pipeline });
    let mut k: usize = 0;
    while k < plan.bind_groups.len()
        invariant
            k <= plan.bind_groups@.len(),
            plan.bind_groups@.len() <= u32::MAX,
            out@ == seq![RenderCommand::SetPipeline { pipeline: plan.pipeline }]
                + bind_group_commands(plan.bind_groups@.take(k as int)),
        decreases plan.bind_groups@.len() - k,
    {
        out.push(RenderCommand::SetBindGroup { index: k as u32, group: plan.bind_groups[k] });
        proof {
            assert(out@ =~= seq![RenderCommand::SetPipeline { pipeline: plan.pipeline }]
                + bind_group_commands(plan.bind_groups@.take(k + 1)));
        }
        k = k + 1;
    }
    proof {
        assert(plan.bind_groups@.take(plan.bind_groups@.len() as int) =~= plan.bind_groups@);
    }
    let mut j: usize = 0;
    while j < plan.vertex_buffers.len()
        invariant
            j <= plan.vertex_buffers@.len(),
            plan.vertex_buffers@.len() <= u32::MAX,
            out@ == seq![RenderCommand::SetPipeline { pipeline: plan.pipeline }]
                + bind_group_commands(plan.bind_groups@) + vertex_buffer_commands(
                plan.vertex_buffers@.take(j as int),
            ),
        decreases plan.vertex_buffers@.len() - j,
    {
        out.push(RenderCommand::SetVertexBuffer { slot: j as u32, buffer: plan.vertex_buffers[j] });
        proof {
            assert(out@ =~= seq![RenderCommand::SetPipeline { pipeline: plan.pipeline }]
                + bind_group_commands(plan.bind_groups@) + vertex_buffer_commands(
                plan.vertex_buffers@.take(j + 1),
            ));
        }
        j = j + 1;
    }
    proof {
        assert(plan.vertex_buffers@.take(plan.vertex_buffers@.len() as int)
            =~= plan.vertex_buffers@);
    }
    match plan.index_buffer {
        Some(b) => {
            out.push(RenderCommand::SetIndexBuffer { buffer: b });
            out.push(RenderCommand::DrawIndexed { indices: plan.index_count, instances: 1 });
        },
        None => {
            out.push(RenderCommand::Draw { vertices: plan.vertex_count, instances: 1 });
        },
    }
    proof {
        assert(out@ =~= frame_commands(*plan));
    }
    out
}

/// Whether two layout entries agree in every part.
fn layout_entry_eq(a: &LayoutEntry, b: &LayoutEntry) -> (r: bool)
    ensures
        r == (a == b),
{
    if a.binding != b.binding {
        return false;
    }
    if a.visibility != b.visibility {
        return false;
    }
    match (&a.kind, &b.kind) {
        (BindingKind::SampledTexture, BindingKind::SampledTexture) => true,
        (BindingKind::FilteringSampler, BindingKind::FilteringSampler) => true,
        (
            BindingKind::UniformBuffer { min_binding_size: ma },
            BindingKind::UniformBuffer { min_binding_size: mb },
        ) => *ma == *mb,
        _ => false,
    }
}

/// Whether two bind-group layouts declare the same slots.
pub fn layout_eq(a: &BindGroupLayout, b: &BindGroupLayout) -> (r: bool)
    ensures
        r == (a.entries@ == b.entries@),
{
    if a.entries.len() != b.entries.len() {
        proof {
            assert(a.entries@ != b.entries@);
        }
        return false;
    }
    let mut k: usize = 0;
    while k < a.entries.len()
        invariant
            k <= a.entries@.len(),
            a.entries@.len() == b.entries@.len(),
            forall|i: int| 0 <= i < k ==> a.entries@[i] == b.entries@[i],
        decreases a.entries@.len() - k,
    {
        if !layout_entry_eq(&a.entries[k], &b.entries[k]) {
            return false;
        }
        k = k + 1;
    }
    proof {
        assert(a.entries@ =~= b.entries@);
    }
    true
}

/// Whether bind groups may be used with a pipeline: one group per
/// declared layout slot, each built against exactly that slot's
/// layout.
pub open spec fn groups_match_pipeline(p: Pipeline, groups: Seq<BindGroup>) -> bool {
    &&& groups.len() == p.bind_group_layouts@.len()
    &&& forall|k: int|
        0 <= k < groups.len() ==> (#[trigger] groups[k]).layout.entries@
            == p.bind_group_layouts@[k].entries@
}

/// Checks the groups against the pipeline's declared layouts, slot by
/// slot. A mismatch is the fatal `BindingMismatch`: there is no
/// degraded way to draw with the wrong bindings.
pub fn check_pipeline_compatible(p: &Pipeline, groups: &Vec<BindGroup>) -> (r: Result<
    (),
    RenderError,
>)
    ensures
        match r {
            Ok(_) => groups_match_pipeline(*p, groups@),
            Err(e) => !groups_match_pipeline(*p, groups@) && e == RenderError::BindingMismatch,
        },
{
    if groups.len() != p.bind_group_layouts.len() {
        return Err(RenderError::BindingMismatch);
    }
    let mut k: usize = 0;
    while k < groups.len()
        invariant
            k <= groups@.len(),
            groups@.len() == p.bind_group_layouts@.len(),
            forall|i: int|
                0 <= i < k ==> (#[trigger] groups@[i]).layout.entries@
                    == p.bind_group_layouts@[i].entries@,
        decreases groups@.len() - k,
    {
        if !layout_eq(&groups[k].layout, &p.bind_group_layouts[k]) {
            return Err(RenderError::BindingMismatch);
        }
        k = k + 1;
    }
    Ok(())
}

} // verus!
