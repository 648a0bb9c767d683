//! The textured-quad pipeline: per-frame request queue, stable layer
//! ordering, and upload into the quad bucket.
//!
//! A frame works in three steps. `push_textured_quad` only queues a
//! request. `render` sorts the queue by layer (stably), encodes each
//! request as an unrotated instance transform, writes it into the quad
//! bucket in sorted order — so the buffer's physical layout equals the
//! paint order — and hands back the buffer writes and the draw call the
//! driver must replay. Requests beyond the bucket's fixed capacity are
//! dropped and counted, never fatal. `clear` empties both the queue and
//! the bucket for the next frame.

use crate::bucket::{BufferWrite, Model, ModelView};
use crate::instance::{
    axis_aligned_cells, raw_bytes_spec, InstanceRaw, TexturedInstance, RAW_BYTES, ZERO_BITS,
};
use crate::layers::{is_stable_layer_sort, sort_by_layer, TexturedQuad};
use vstd::prelude::*;

verus! {

/// Most quad instances one frame can hold.
pub const MAX_QUADS: usize = 1024;

/// Vertices of the shared unit-quad shape.
pub const QUAD_VERTICES: u32 = 4;

/// Indices of the shared unit-quad shape (two triangles).
pub const QUAD_INDICES: u32 = 6;

/// The transform cells a quad request encodes to: its dimensions as the
/// scale, its position as the translation, no rotation.
pub open spec fn quad_cells(q: TexturedQuad) -> Seq<u32> {
    axis_aligned_cells(q.position, q.dimensions)
}

/// The instance-buffer bytes of a run of quad requests, in order.
pub open spec fn quads_bytes(qs: Seq<TexturedQuad>) -> Seq<u8>
    decreases qs.len(),
{
    if qs.len() == 0 {
        Seq::<u8>::empty()
    } else {
        quads_bytes(qs.drop_last()) + raw_bytes_spec(quad_cells(qs.last()))
    }
}

/// How many of `requests` fit when `avail` slots are free.
pub open spec fn fitting(requests: nat, avail: nat) -> nat {
    if requests <= avail {
        requests
    } else {
        avail
    }
}

/// After a clear, a frame with no requests draws nothing: the upload takes
/// nothing, the bucket's bytes stay empty, and the planned draw covers
/// zero instances.
pub proof fn lemma_cleared_frame_is_empty(quad: ModelView)
    requires
        quad.wf(),
    ensures
        ({
            let cleared = quad.emptied();
            let n = fitting(0, (cleared.capacity - cleared.count) as nat);
            &&& n == 0
            &&& cleared.count + n == 0
            &&& cleared.bytes + quads_bytes(Seq::<TexturedQuad>::empty()) == Seq::<u8>::empty()
        }),
{
    assert(quad.emptied().bytes + quads_bytes(Seq::<TexturedQuad>::empty()) =~= Seq::<
        u8,
    >::empty());
}

/// One instanced draw the driver must record: which bucket, and how many
/// vertices, indices and instances to cover.
#[derive(Clone, Copy, PartialEq, Eq, Structural, Debug)]
pub struct DrawCall {
    pub model_index: usize,
    pub num_vertices: u32,
    pub num_indices: u32,
    pub instance_count: u32,
}

/// Everything the driver must replay for one frame: the buffer writes in
/// order, the draw calls, and how many requests the frame dropped for
/// want of capacity.
pub struct FramePlan {
    pub writes: Vec<BufferWrite>,
    pub draws: Vec<DrawCall>,
    pub dropped: usize,
}

/// The abstract state of the pipeline.
pub ghost struct PipelineView {
    /// The quad bucket.
    pub quad: ModelView,
    /// The frame's queued requests, in submission order.
    pub quads: Seq<TexturedQuad>,
}

/// The textured-quad pipeline's bookkeeping: the quad bucket and the
/// frame's request queue.
pub struct TexturedPipeline {
    quad_model: Model,
    textured_quads: Vec<TexturedQuad>,
}

impl View for TexturedPipeline {
    type V = PipelineView;

    closed spec fn view(&self) -> PipelineView {
        PipelineView { quad: self.quad_model@, quads: self.textured_quads@ }
    }
}

impl TexturedPipeline {
    pub open spec fn wf(self) -> bool {
        &&& self@.quad.wf()
        &&& self@.quad.stride == RAW_BYTES
    }

    /// A fresh pipeline: an empty quad bucket sized for `MAX_QUADS`
    /// instances, and an empty request queue.
    pub fn new() -> (p: TexturedPipeline)
        ensures
            p.wf(),
            p@.quads == Seq::<TexturedQuad>::empty(),
            p@.quad == (ModelView {
                num_vertices: QUAD_VERTICES,
                num_indices: QUAD_INDICES,
                stride: RAW_BYTES as nat,
                capacity: MAX_QUADS as nat,
                count: 0,
                bytes: Seq::<u8>::empty(),
            }),
    {
        let p = TexturedPipeline {
            quad_model: Model::new(QUAD_VERTICES, QUAD_INDICES, RAW_BYTES, MAX_QUADS),
            textured_quads: Vec::new(),
        };
        proof {
            assert(p@.quads =~= Seq::<TexturedQuad>::empty());
        }
        p
    }

    /// Queue one quad request for this frame. Nothing is uploaded yet.
    pub fn push_textured_quad(&mut self, quad: TexturedQuad)
        requires
            old(self).wf(),
        ensures
            final(self).wf(),
            final(self)@.quads == old(self)@.quads.push(quad),
            final(self)@.quad == old(self)@.quad,
    {
        self.textured_quads.push(quad);
    }

    /// Sort the frame's requests by layer (stably), encode them in sorted
    /// order into the quad bucket, and return what the driver must replay.
    /// Requests that do not fit into the bucket's remaining capacity are
    /// dropped and counted in the plan.
    pub fn render(&mut self) -> (plan: FramePlan)
        requires
            old(self).wf(),
        ensures
            final(self).wf(),
            is_stable_layer_sort(old(self)@.quads, final(self)@.quads),
            ({
                let s = final(self)@.quads;
                let pre = old(self)@.quad;
                let n = fitting(s.len(), (pre.capacity - pre.count) as nat);
                let post = final(self)@.quad;
                &&& post.count == pre.count + n
                &&& post.bytes == pre.bytes + quads_bytes(s.take(n as int))
                &&& post.num_vertices == pre.num_vertices
                &&& post.num_indices == pre.num_indices
                &&& post.stride == pre.stride
                &&& post.capacity == pre.capacity
                &&& plan.dropped == s.len() - n
                &&& plan.writes@.len() == n
                &&& (forall|k: int|
                    0 <= k < n ==> (#[trigger] plan.writes@[k]).offset == (pre.count + k)
                        * RAW_BYTES && plan.writes@[k].bytes@ == raw_bytes_spec(quad_cells(s[k])))
                &&& plan.draws@ == seq![
                    DrawCall {
                        model_index: 0,
                        num_vertices: post.num_vertices,
                        num_indices: post.num_indices,
                        instance_count: post.count as u32,
                    },
                ]
            }),
    {
        let sorted = sort_by_layer(&self.textured_quads);
        self.textured_quads = sorted;

        let ghost s = self.textured_quads@;
        let ghost pre = self.quad_model@;
        let ghost avail = (pre.capacity - pre.count) as nat;

        let mut writes: Vec<BufferWrite> = Vec::new();
        let mut dropped: usize = 0;
        let mut k: usize = 0;
        while k < self.textured_quads.len()
            invariant
                self.wf(),
                pre == old(self)@.quad,
                pre.wf(),
                avail == pre.capacity - pre.count,
                is_stable_layer_sort(old(self)@.quads, s),
                self.textured_quads@ == s,
                k <= s.len(),
                self.quad_model@.num_vertices == pre.num_vertices,
                self.quad_model@.num_indices == pre.num_indices,
                self.quad_model@.stride == pre.stride,
                self.quad_model@.capacity == pre.capacity,
                self.quad_model@.count == pre.count + fitting(k as nat, avail),
                self.quad_model@.bytes == pre.bytes + quads_bytes(
                    s.take(fitting(k as nat, avail) as int),
                ),
                writes@.len() == fitting(k as nat, avail),
                forall|j: int|
                    0 <= j < writes@.len() ==> (#[trigger] writes@[j]).offset == (pre.count + j)
                        * RAW_BYTES && writes@[j].bytes@ == raw_bytes_spec(quad_cells(s[j])),
                dropped == k - fitting(k as nat, avail),
            decreases s.len() - k,
        {
            let q = self.textured_quads[k];
            let inst = TexturedInstance {
                position: q.position,
                scale: q.dimensions,
                rotation: ZERO_BITS,
            };
            let raw: InstanceRaw = inst.to_raw();
            let bytes = raw.to_bytes();
            let ghost fit = fitting(k as nat, avail);
            match self.quad_model.append(bytes.as_slice()) {
                Ok(w) => {
                    proof {
                        assert(fit == k && (k as nat) < avail);
                        assert(s.take(fit as int + 1).drop_last() =~= s.take(fit as int));
                        assert(s.take(fit as int + 1).last() == s[fit as int]);
                    }
                    writes.push(w);
                }
                Err(_) => {
                    proof {
                        assert(fit == avail);
                        assert(fitting(k as nat + 1, avail) == fit);
                    }
                    dropped = dropped + 1;
                }
            }
            k = k + 1;
        }
        let count = self.quad_model.draw_count();
        let draw = DrawCall {
            model_index: 0,
            num_vertices: self.quad_model.num_vertices(),
            num_indices: self.quad_model.num_indices(),
            instance_count: count,
        };
        let mut draws: Vec<DrawCall> = Vec::new();
        draws.push(draw);
        proof {
            assert(draws@ =~= seq![draw]);
        }
        FramePlan { writes, draws, dropped }
    }

    /// Empty the request queue and the quad bucket for the next frame.
    pub fn clear(&mut self)
        requires
            old(self).wf(),
        ensures
            final(self).wf(),
            final(self)@.quads == Seq::<TexturedQuad>::empty(),
            final(self)@.quad == old(self)@.quad.emptied(),
    {
        self.textured_quads.clear();
        self.quad_model.reset();
        proof {
            assert(final(self)@.quads =~= Seq::<TexturedQuad>::empty());
        }
    }

    /// How many quad instances the frame has written so far.
    pub fn draw_count(&self) -> (n: u32)
        ensures
            n == self@.quad.count,
    {
        self.quad_model.draw_count()
    }

    /// The quad bucket's instance-array bytes, exactly as the device holds
    /// them.
    pub fn instance_data(&self) -> (d: &Vec<u8>)
        ensures
            d@ == self@.quad.bytes,
    {
        self.quad_model.instance_data()
    }

    /// The frame's queued requests, in submission order (sorted once
    /// `render` has run).
    pub fn queued(&self) -> (q: &Vec<TexturedQuad>)
        ensures
            q@ == self@.quads,
    {
        &self.textured_quads
    }
}

} // verus!
