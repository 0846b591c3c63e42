use vstd::prelude::*;
use crate::scope::{Command, CommandView, GraphicsScope};
use crate::sort::{insert_by_depth, sort_by_depth};
use crate::vertex::Vertex;

verus! {

/// A render target the backend can bind as the destination of a pass.
#[derive(Clone, Copy, PartialEq, Eq, Structural, Debug)]
pub enum RenderTarget {
    /// The off-screen target where shapes are rasterized and alpha-blended in
    /// a working, linear color space.
    Composite,
    /// The off-screen target holding the gamma-corrected image.
    Intermediary,
    /// The default framebuffer of the window.
    Display,
}

/// One of the two fixed shader programs of the pipeline.
#[derive(Clone, Copy, PartialEq, Eq, Structural, Debug)]
pub enum ProgramKind {
    /// Rasterizes colored, textured triangles into the composite target.
    Composite,
    /// Maps a bound source texture to the bound target with gamma correction.
    Swapchain,
}

/// One GPU operation of a flush, in the order the backend must issue them.
/// The flush plan is the whole of what a scope asks of the GPU: a backend
/// that performs these operations in order, against the plan's vertex
/// stream, renders the scope.
#[derive(Clone, Copy, PartialEq, Eq, Structural, Debug)]
pub enum GpuOp {
    /// Upload the plan's vertex stream to the shared vertex buffer, with a
    /// streaming usage hint: the data is rewritten on every flush.
    UploadVertices,
    /// Bind the given target as the destination of what follows.
    BindTarget(RenderTarget),
    /// Activate the given program for what follows.
    UseProgram(ProgramKind),
    /// Bind the given target's backing texture as the sampler input of the
    /// next full-screen resolve.
    BindSourceTexture(RenderTarget),
    /// One triangle-list draw call over this many vertices of the uploaded
    /// stream, starting at its beginning.
    DrawTriangles(usize),
    /// A full-screen strip of four vertices whose positions the program
    /// derives from the vertex index; no vertex buffer is read.
    DrawScreenStrip,
}

/// The vertices of the given commands, concatenated in command order.
pub open spec fn stream_of(cmds: Seq<CommandView>) -> Seq<Vertex>
    decreases cmds.len(),
{
    if cmds.len() == 0 {
        Seq::empty()
    } else {
        stream_of(cmds.drop_last()) + cmds.last().verts
    }
}

/// The GPU operations of one flush over a stream of `n_verts` vertices: none
/// at all for an empty stream; otherwise upload, rasterize the whole stream
/// into the composite target, resolve composite into the gamma-corrected
/// intermediary, and resolve the intermediary onto the display.
pub open spec fn flush_ops(n_verts: nat) -> Seq<GpuOp> {
    if n_verts == 0 {
        Seq::empty()
    } else {
        seq![
            GpuOp::UploadVertices,
            GpuOp::BindTarget(RenderTarget::Composite),
            GpuOp::UseProgram(ProgramKind::Composite),
            GpuOp::DrawTriangles(n_verts as usize),
            GpuOp::BindTarget(RenderTarget::Intermediary),
            GpuOp::UseProgram(ProgramKind::Swapchain),
            GpuOp::BindSourceTexture(RenderTarget::Composite),
            GpuOp::DrawScreenStrip,
            GpuOp::BindTarget(RenderTarget::Display),
            GpuOp::BindSourceTexture(RenderTarget::Intermediary),
            GpuOp::DrawScreenStrip,
        ]
    }
}

/// Law: one batch per flush. Every sorted command is merged into a single
/// contiguous vertex run, so a non-empty flush issues exactly one
/// triangle-list draw call, over the whole stream, and no other operation of
/// the plan rasterizes vertices. This is an invariant of the design, not a
/// general batching scheduler.
pub proof fn lemma_one_batch_per_flush(n_verts: nat)
    ensures
        n_verts == 0 ==> flush_ops(n_verts).len() == 0,
        n_verts > 0 ==> flush_ops(n_verts)[3] == GpuOp::DrawTriangles(n_verts as usize),
        forall|i: int|
            0 <= i < flush_ops(n_verts).len() && i != 3 ==> !((#[trigger] flush_ops(n_verts)[i])
                is DrawTriangles),
{
}

/// What finishing a scope hands the backend: the sorted vertex stream and
/// the operations to issue, already in order. An empty plan (no vertices,
/// no operations) is the flush of a scope that recorded nothing.
pub struct FlushPlan {
    pub vertices: Vec<Vertex>,
    pub ops: Vec<GpuOp>,
}

proof fn lemma_insert_by_depth_at(s: Seq<CommandView>, c: CommandView, j: int)
    requires
        0 <= j <= s.len(),
        forall|k: int| j <= k < s.len() ==> (#[trigger] s[k]).depth > c.depth,
        j > 0 ==> s[j - 1].depth <= c.depth,
    ensures
        insert_by_depth(s, c) == s.subrange(0, j).push(c) + s.subrange(j, s.len() as int),
    decreases s.len(),
{
    if j == s.len() {
        if s.len() == 0 {
            assert(insert_by_depth(s, c) =~= s.subrange(0, j).push(c) + s.subrange(j, j));
        } else {
            assert(s.last().depth <= c.depth);
            assert(s.push(c) =~= s.subrange(0, j).push(c) + s.subrange(j, j));
        }
    } else {
        assert(s[s.len() - 1].depth > c.depth);
        let dl = s.drop_last();
        lemma_insert_by_depth_at(dl, c, j);
        assert((dl.subrange(0, j).push(c) + dl.subrange(j, dl.len() as int)).push(s.last()) =~= s
            .subrange(0, j).push(c) + s.subrange(j, s.len() as int));
    }
}

impl GraphicsScope {
    /// Finish the scope: depth-sort the recorded commands (stably,
    /// ascending), concatenate their vertices into one stream, and return
    /// the flush plan over that stream. A scope that recorded nothing yields
    /// a plan with no operations: an empty flush asks nothing of the GPU.
    pub fn finish(self) -> (plan: FlushPlan)
        ensures
            plan.vertices@ == stream_of(sort_by_depth(self@.commands)),
            plan.ops@ == flush_ops(plan.vertices@.len()),
            self@.commands.len() == 0 ==> plan.ops@.len() == 0,
    {
        let GraphicsScope { commands, depth: _, color: _ } = self;
        let ghost orig: Seq<CommandView> = commands.deep_view();
        let mut remaining = commands;
        let mut sorted_cmds: Vec<Command> = Vec::new();
        while remaining.len() > 0
            invariant
                remaining.deep_view() == orig.skip(orig.len() - remaining.len()),
                sorted_cmds.deep_view() == sort_by_depth(
                    orig.take(orig.len() - remaining.len()),
                ),
                remaining.len() <= orig.len(),
            decreases remaining.len(),
        {
            let ghost p = orig.len() - remaining.len();
            let ghost prev_sorted = sorted_cmds.deep_view();
            let ghost prev_rem: Seq<Command> = remaining@;
            let ghost prev_dv = remaining.deep_view();
            let cmd = remaining.remove(0);
            proof {
                assert(cmd@ == prev_dv[0]);
                assert(prev_dv[0] == orig.skip(p)[0]);
                assert(orig.skip(p)[0] == orig[p]);
                assert forall|t: int| 0 <= t < remaining@.len() implies remaining.deep_view()[t]
                    == orig.skip(p + 1)[t] by {
                    assert(remaining@[t] == prev_rem[t + 1]);
                    assert(remaining.deep_view()[t] == remaining@[t]@);
                    assert(prev_dv[t + 1] == prev_rem[t + 1]@);
                    assert(prev_dv[t + 1] == orig.skip(p)[t + 1]);
                    assert(orig.skip(p)[t + 1] == orig[p + 1 + t]);
                    assert(orig.skip(p + 1)[t] == orig[p + 1 + t]);
                }
                assert(remaining.deep_view() =~= orig.skip(p + 1));
            }
            let mut j = sorted_cmds.len();
            while j > 0 && sorted_cmds[j - 1].depth > cmd.depth
                invariant
                    j <= sorted_cmds.len(),
                    sorted_cmds.deep_view() == prev_sorted,
                    forall|k: int|
                        j <= k < prev_sorted.len() ==> (#[trigger] prev_sorted[k]).depth
                            > cmd@.depth,
                decreases j,
            {
                j = j - 1;
            }
            proof {
                lemma_insert_by_depth_at(prev_sorted, cmd@, j as int);
            }
            sorted_cmds.insert(j, cmd);
            proof {
                assert(sorted_cmds.deep_view() =~= insert_by_depth(prev_sorted, cmd@));
                assert(orig.take(p + 1).drop_last() =~= orig.take(p));
                assert(orig.take(p + 1).last() == orig[p]);
            }
        }
        proof {
            assert(orig.take(orig.len() as int) =~= orig);
        }
        let ghost flush_order = sorted_cmds.deep_view();
        let mut vertices: Vec<Vertex> = Vec::new();
        let mut i: usize = 0;
        while i < sorted_cmds.len()
            invariant
                i <= sorted_cmds.len(),
                sorted_cmds.deep_view() == flush_order,
                flush_order == sort_by_depth(orig),
                vertices@ == stream_of(flush_order.take(i as int)),
            decreases sorted_cmds.len() - i,
        {
            let n = sorted_cmds[i].verts.len();
            let mut k: usize = 0;
            while k < n
                invariant
                    i < sorted_cmds.len(),
                    k <= n,
                    n == sorted_cmds[i as int]@.verts.len(),
                    sorted_cmds.deep_view() == flush_order,
                    flush_order == sort_by_depth(orig),
                    vertices@ == stream_of(flush_order.take(i as int)) + flush_order[i as int]
                        .verts.take(k as int),
                decreases n - k,
            {
                let vert = sorted_cmds[i].verts[k];
                vertices.push(vert);
                proof {
                    assert(flush_order[i as int].verts.take(k + 1) =~= flush_order[i as int]
                        .verts.take(k as int).push(vert));
                }
                k = k + 1;
            }
            proof {
                assert(flush_order.take(i + 1).drop_last() =~= flush_order.take(i as int));
                assert(flush_order[i as int].verts.take(n as int) =~= flush_order[i as int].verts);
                assert(stream_of(flush_order.take(i + 1)) == stream_of(flush_order.take(i as int))
                    + flush_order[i as int].verts);
            }
            i = i + 1;
        }
        proof {
            assert(flush_order.take(flush_order.len() as int) =~= flush_order);
        }
        let mut ops: Vec<GpuOp> = Vec::new();
        if vertices.len() > 0 {
            let n_verts = vertices.len();
            ops.push(GpuOp::UploadVertices);
            ops.push(GpuOp::BindTarget(RenderTarget::Composite));
            ops.push(GpuOp::UseProgram(ProgramKind::Composite));
            ops.push(GpuOp::DrawTriangles(n_verts));
            ops.push(GpuOp::BindTarget(RenderTarget::Intermediary));
            ops.push(GpuOp::UseProgram(ProgramKind::Swapchain));
            ops.push(GpuOp::BindSourceTexture(RenderTarget::Composite));
            ops.push(GpuOp::DrawScreenStrip);
            ops.push(GpuOp::BindTarget(RenderTarget::Display));
            ops.push(GpuOp::BindSourceTexture(RenderTarget::Intermediary));
            ops.push(GpuOp::DrawScreenStrip);
            proof {
                assert(ops@ =~= flush_ops(vertices@.len()));
            }
        } else {
            proof {
                assert(ops@ =~= flush_ops(vertices@.len()));
            }
        }
        proof {
            if self@.commands.len() == 0 {
                assert(orig =~= Seq::<CommandView>::empty());
            }
        }
        FlushPlan { vertices, ops }
    }
}

} // verus!
