//! The aggregated render state: the scene's draw buckets, the debug
//! overlay, and the camera the surface dimensions feed.
//!
//! This is the explicitly owned context object the driver threads through
//! update and render: model registration, instance writes, the per-frame
//! clear, and the frame's draw list all go through it. Device handles and
//! pipelines live with the driver; this side owns every decision that can
//! be stated exactly.

use crate::bucket::{BufferWrite, Model, ModelView};
use crate::camera::Camera2D;
use crate::debug::{DebugState, DebugView};
use crate::pipeline::DrawCall;
use vstd::prelude::*;

verus! {

/// Why an instance write was refused.
#[derive(Clone, Copy, PartialEq, Eq, Structural, Debug)]
pub enum AppendError {
    /// No model was registered under the given index; nothing was written.
    NoSuchModel,
    /// The model's fixed-capacity instance array is full; the instance was
    /// dropped, nothing was written.
    CapacityExceeded,
}

/// The abstract state of the render context.
#[verifier::ext_equal]
pub ghost struct GraphicsView {
    pub camera: Camera2D,
    pub models: Seq<ModelView>,
    pub debug: DebugView,
}

/// The render context's bookkeeping.
pub struct GraphicsState {
    camera: Camera2D,
    models: Vec<Model>,
    debug: DebugState,
}

impl View for GraphicsState {
    type V = GraphicsView;

    closed spec fn view(&self) -> GraphicsView {
        GraphicsView {
            camera: self.camera,
            models: self.models@.map_values(|m: Model| m@),
            debug: self.debug@,
        }
    }
}

impl GraphicsState {
    pub open spec fn wf(self) -> bool {
        &&& forall|k: int| 0 <= k < self@.models.len() ==> (#[trigger] self@.models[k]).wf()
        &&& self@.debug.wf()
    }

    /// A fresh context over a surface of the given pixel dimensions: no
    /// models, an empty debug overlay.
    pub fn new(width: u32, height: u32) -> (s: GraphicsState)
        ensures
            s.wf(),
            s@.camera == (Camera2D { width, height }),
            s@.models == Seq::<ModelView>::empty(),
            s@.debug == DebugState::new_view(),
    {
        let s = GraphicsState {
            camera: Camera2D::new(width, height),
            models: Vec::new(),
            debug: DebugState::new(),
        };
        proof {
            assert(s@.models =~= Seq::<ModelView>::empty());
        }
        s
    }

    /// Adopt new surface dimensions; the camera's projection follows them
    /// from here on. Buckets and overlay are untouched.
    pub fn resize(&mut self, width: u32, height: u32)
        requires
            old(self).wf(),
        ensures
            final(self).wf(),
            final(self)@.camera == (Camera2D { width, height }),
            final(self)@.models == old(self)@.models,
            final(self)@.debug == old(self)@.debug,
    {
        self.camera.resize(width, height);
        proof {
            assert(self@.models == old(self)@.models);
        }
    }

    /// The camera the current surface dimensions feed.
    pub fn camera(&self) -> (c: Camera2D)
        ensures
            c == self@.camera,
    {
        self.camera
    }

    /// Register a bucket for one shape and return its index. The bounds
    /// keep every later byte offset within the machine's address range.
    pub fn add_model(&mut self, num_vertices: u32, num_indices: u32, stride: usize, capacity: usize) -> (idx: usize)
        requires
            old(self).wf(),
            1 <= stride,
            capacity <= u32::MAX,
            capacity * stride <= usize::MAX,
        ensures
            final(self).wf(),
            idx == old(self)@.models.len(),
            final(self)@.models == old(self)@.models.push(
                ModelView {
                    num_vertices,
                    num_indices,
                    stride: stride as nat,
                    capacity: capacity as nat,
                    count: 0,
                    bytes: Seq::<u8>::empty(),
                },
            ),
            final(self)@.camera == old(self)@.camera,
            final(self)@.debug == old(self)@.debug,
    {
        let idx = self.models.len();
        self.models.push(Model::new(num_vertices, num_indices, stride, capacity));
        proof {
            assert(final(self)@.models =~= old(self)@.models.push(
                ModelView {
                    num_vertices,
                    num_indices,
                    stride: stride as nat,
                    capacity: capacity as nat,
                    count: 0,
                    bytes: Seq::<u8>::empty(),
                },
            ));
        }
        idx
    }

    /// Write one encoded instance at the next free slot of the bucket
    /// registered under `model_index`. An unknown index and a full bucket
    /// are both reported, never fatal, and leave the state unchanged.
    pub fn add_instance(&mut self, model_index: usize, raw: &[u8]) -> (r: Result<
        BufferWrite,
        AppendError,
    >)
        requires
            old(self).wf(),
            model_index < old(self)@.models.len() ==> raw@.len() == old(self)@.models[model_index as int].stride,
        ensures
            final(self).wf(),
            final(self)@.camera == old(self)@.camera,
            final(self)@.debug == old(self)@.debug,
            model_index >= old(self)@.models.len() ==> r == Err::<BufferWrite, AppendError>(
                AppendError::NoSuchModel,
            ) && final(self)@.models == old(self)@.models,
            model_index < old(self)@.models.len() ==> ({
                let m = old(self)@.models[model_index as int];
                &&& (r is Ok <==> m.count < m.capacity)
                &&& (r matches Ok(w) ==> w.offset == m.count * m.stride && w.bytes@ == raw@
                    && final(self)@.models == old(self)@.models.update(
                    model_index as int,
                    m.appended(raw@),
                ))
                &&& (r is Err ==> r == Err::<BufferWrite, AppendError>(
                    AppendError::CapacityExceeded,
                ) && final(self)@.models == old(self)@.models)
            }),
    {
        if model_index < self.models.len() {
            let m = &mut self.models[model_index];
            let r = m.append(raw);
            proof {
                if r is Ok {
                    assert(final(self)@.models =~= old(self)@.models.update(
                        model_index as int,
                        old(self)@.models[model_index as int].appended(raw@),
                    ));
                } else {
                    assert(final(self)@.models =~= old(self)@.models);
                }
            }
            match r {
                Ok(w) => Ok(w),
                Err(_) => Err(AppendError::CapacityExceeded),
            }
        } else {
            Err(AppendError::NoSuchModel)
        }
    }

    /// Write one encoded square transform into the debug overlay.
    pub fn add_debug_square(&mut self, raw: &[u8]) -> (r: Result<BufferWrite, AppendError>)
        requires
            old(self).wf(),
            raw@.len() == crate::instance::RAW_BYTES,
        ensures
            final(self).wf(),
            final(self)@.camera == old(self)@.camera,
            final(self)@.models == old(self)@.models,
            final(self)@.debug.triangles == old(self)@.debug.triangles,
            r is Ok <==> old(self)@.debug.squares.count < old(self)@.debug.squares.capacity,
            r matches Ok(w) ==> w.offset == old(self)@.debug.squares.count
                * crate::instance::RAW_BYTES && w.bytes@ == raw@,
            r is Ok ==> final(self)@.debug.squares == old(self)@.debug.squares.appended(raw@),
            r is Err ==> r == Err::<BufferWrite, AppendError>(AppendError::CapacityExceeded)
                && final(self)@.debug == old(self)@.debug,
    {
        let r = self.debug.add_square(raw);
        proof {
            assert(self@.models == old(self)@.models);
        }
        match r {
            Ok(w) => Ok(w),
            Err(_) => Err(AppendError::CapacityExceeded),
        }
    }

    /// Write one encoded triangle transform into the debug overlay.
    pub fn add_debug_triangle(&mut self, raw: &[u8]) -> (r: Result<BufferWrite, AppendError>)
        requires
            old(self).wf(),
            raw@.len() == crate::instance::RAW_BYTES,
        ensures
            final(self).wf(),
            final(self)@.camera == old(self)@.camera,
            final(self)@.models == old(self)@.models,
            final(self)@.debug.squares == old(self)@.debug.squares,
            r is Ok <==> old(self)@.debug.triangles.count < old(self)@.debug.triangles.capacity,
            r matches Ok(w) ==> w.offset == old(self)@.debug.triangles.count
                * crate::instance::RAW_BYTES && w.bytes@ == raw@,
            r is Ok ==> final(self)@.debug.triangles == old(self)@.debug.triangles.appended(raw@),
            r is Err ==> r == Err::<BufferWrite, AppendError>(AppendError::CapacityExceeded)
                && final(self)@.debug == old(self)@.debug,
    {
        let r = self.debug.add_triangle(raw);
        proof {
            assert(self@.models == old(self)@.models);
        }
        match r {
            Ok(w) => Ok(w),
            Err(_) => Err(AppendError::CapacityExceeded),
        }
    }

    /// The frame's draw list: one instanced call per registered bucket, in
    /// registration order, each covering exactly the instances written so
    /// far.
    pub fn draw_list(&self) -> (draws: Vec<DrawCall>)
        requires
            self.wf(),
        ensures
            draws@.len() == self@.models.len(),
            forall|k: int|
                0 <= k < draws@.len() ==> #[trigger] draws@[k] == (DrawCall {
                    model_index: k as usize,
                    num_vertices: self@.models[k].num_vertices,
                    num_indices: self@.models[k].num_indices,
                    instance_count: self@.models[k].count as u32,
                }),
    {
        let mut draws: Vec<DrawCall> = Vec::new();
        let mut k: usize = 0;
        while k < self.models.len()
            invariant
                self.wf(),
                k <= self@.models.len(),
                draws@.len() == k,
                forall|j: int|
                    0 <= j < k ==> #[trigger] draws@[j] == (DrawCall {
                        model_index: j as usize,
                        num_vertices: self@.models[j].num_vertices,
                        num_indices: self@.models[j].num_indices,
                        instance_count: self@.models[j].count as u32,
                    }),
            decreases self@.models.len() - k,
        {
            let m = &self.models[k];
            draws.push(
                DrawCall {
                    model_index: k,
                    num_vertices: m.num_vertices(),
                    num_indices: m.num_indices(),
                    instance_count: m.draw_count(),
                },
            );
            k = k + 1;
        }
        draws
    }

    /// Forget the frame's instances in every bucket and in the debug
    /// overlay, without touching any allocation.
    pub fn clear_instances(&mut self)
        requires
            old(self).wf(),
        ensures
            final(self).wf(),
            final(self)@.camera == old(self)@.camera,
            final(self)@.models.len() == old(self)@.models.len(),
            forall|k: int|
                0 <= k < old(self)@.models.len() ==> #[trigger] final(self)@.models[k] == old(
                    self,
                )@.models[k].emptied(),
            final(self)@.debug.squares == old(self)@.debug.squares.emptied(),
            final(self)@.debug.triangles == old(self)@.debug.triangles.emptied(),
    {
        let mut k: usize = 0;
        while k < self.models.len()
            invariant
                old(self).wf(),
                self.wf(),
                k <= self@.models.len(),
                self@.camera == old(self)@.camera,
                self@.debug == old(self)@.debug,
                self@.models.len() == old(self)@.models.len(),
                forall|j: int|
                    0 <= j < k ==> #[trigger] self@.models[j] == old(self)@.models[j].emptied(),
                forall|j: int|
                    k <= j < self@.models.len() ==> #[trigger] self@.models[j] == old(
                        self,
                    )@.models[j],
            decreases self@.models.len() - k,
        {
            proof {
                assert(self.models@[k as int]@ == self@.models[k as int]);
            }
            let ghost pre = self@.models;
            let m = &mut self.models[k];
            m.reset();
            proof {
                assert(self@.models =~= pre.update(k as int, pre[k as int].emptied()));
            }
            k = k + 1;
        }
        self.debug.reset();
    }

    /// Forget only the frame's debug overlay instances, leaving the scene
    /// buckets alone — for scenes whose model instances are registered
    /// once at startup.
    pub fn clear_debug(&mut self)
        requires
            old(self).wf(),
        ensures
            final(self).wf(),
            final(self)@.camera == old(self)@.camera,
            final(self)@.models == old(self)@.models,
            final(self)@.debug.squares == old(self)@.debug.squares.emptied(),
            final(self)@.debug.triangles == old(self)@.debug.triangles.emptied(),
    {
        self.debug.reset();
        proof {
            assert(self@.models == old(self)@.models);
        }
    }

    /// The debug overlay, for its counts and instance bytes.
    pub fn debug_state(&self) -> (d: &DebugState)
        ensures
            d@ == self@.debug,
    {
        &self.debug
    }

    /// How many buckets are registered.
    pub fn model_count(&self) -> (n: usize)
        ensures
            n == self@.models.len(),
    {
        self.models.len()
    }
}

} // verus!
