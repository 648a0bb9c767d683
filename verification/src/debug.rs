//! Debug overlay buckets: colored squares and triangles drawn on top of
//! the scene.
//!
//! Both shapes share the bucket discipline of [`crate::bucket::Model`];
//! the overlay only fixes their vertex counts and capacities. A debug
//! instance may be rotated, so its transform cells are computed by the
//! driver (rotation needs trigonometry on the opaque scalars) and handed
//! in as encoded bytes.

use crate::bucket::{BufferWrite, CapacityError, Model, ModelView};
use crate::instance::RAW_BYTES;
use vstd::prelude::*;

verus! {

/// Most debug squares one frame can hold.
pub const MAX_DEBUG_SQUARES: usize = 1000;

/// Most debug triangles one frame can hold.
pub const MAX_DEBUG_TRIANGLES: usize = 1000;

/// Vertices of the shared debug square (drawn indexed, two triangles).
pub const DEBUG_SQUARE_VERTICES: u32 = 4;

/// Indices of the shared debug square.
pub const DEBUG_SQUARE_INDICES: u32 = 6;

/// Vertices of the shared debug triangle (drawn non-indexed).
pub const DEBUG_TRIANGLE_VERTICES: u32 = 3;

/// The abstract state of the overlay: both buckets.
#[verifier::ext_equal]
pub ghost struct DebugView {
    pub squares: ModelView,
    pub triangles: ModelView,
}

impl DebugView {
    pub open spec fn wf(self) -> bool {
        &&& self.squares.wf()
        &&& self.squares.stride == RAW_BYTES
        &&& self.triangles.wf()
        &&& self.triangles.stride == RAW_BYTES
    }
}

/// The overlay's bookkeeping: one bucket of squares, one of triangles.
pub struct DebugState {
    debug_square: Model,
    debug_triangle: Model,
}

impl View for DebugState {
    type V = DebugView;

    closed spec fn view(&self) -> DebugView {
        DebugView { squares: self.debug_square@, triangles: self.debug_triangle@ }
    }
}

impl DebugState {
    /// The abstract state of a fresh overlay.
    pub open spec fn new_view() -> DebugView {
        DebugView {
            squares: ModelView {
                num_vertices: DEBUG_SQUARE_VERTICES,
                num_indices: DEBUG_SQUARE_INDICES,
                stride: RAW_BYTES as nat,
                capacity: MAX_DEBUG_SQUARES as nat,
                count: 0,
                bytes: Seq::<u8>::empty(),
            },
            triangles: ModelView {
                num_vertices: DEBUG_TRIANGLE_VERTICES,
                num_indices: 0,
                stride: RAW_BYTES as nat,
                capacity: MAX_DEBUG_TRIANGLES as nat,
                count: 0,
                bytes: Seq::<u8>::empty(),
            },
        }
    }

    pub open spec fn wf(self) -> bool {
        self@.wf()
    }

    /// A fresh overlay with empty buckets.
    pub fn new() -> (d: DebugState)
        ensures
            d.wf(),
            d@ == DebugState::new_view(),
    {
        DebugState {
            debug_square: Model::new(
                DEBUG_SQUARE_VERTICES,
                DEBUG_SQUARE_INDICES,
                RAW_BYTES,
                MAX_DEBUG_SQUARES,
            ),
            debug_triangle: Model::new(DEBUG_TRIANGLE_VERTICES, 0, RAW_BYTES, MAX_DEBUG_TRIANGLES),
        }
    }

    /// Write one encoded square transform at the next free slot of the
    /// square bucket; at capacity the square is dropped and reported.
    pub fn add_square(&mut self, raw: &[u8]) -> (r: Result<BufferWrite, CapacityError>)
        requires
            old(self).wf(),
            raw@.len() == RAW_BYTES,
        ensures
            final(self).wf(),
            final(self)@.triangles == old(self)@.triangles,
            r is Ok <==> old(self)@.squares.count < old(self)@.squares.capacity,
            r matches Ok(w) ==> w.offset == old(self)@.squares.count * RAW_BYTES && w.bytes@
                == raw@,
            r is Ok ==> final(self)@.squares == old(self)@.squares.appended(raw@),
            r is Err ==> *final(self) == *old(self),
    {
        self.debug_square.append(raw)
    }

    /// Write one encoded triangle transform at the next free slot of the
    /// triangle bucket; at capacity the triangle is dropped and reported.
    pub fn add_triangle(&mut self, raw: &[u8]) -> (r: Result<BufferWrite, CapacityError>)
        requires
            old(self).wf(),
            raw@.len() == RAW_BYTES,
        ensures
            final(self).wf(),
            final(self)@.squares == old(self)@.squares,
            r is Ok <==> old(self)@.triangles.count < old(self)@.triangles.capacity,
            r matches Ok(w) ==> w.offset == old(self)@.triangles.count * RAW_BYTES && w.bytes@
                == raw@,
            r is Ok ==> final(self)@.triangles == old(self)@.triangles.appended(raw@),
            r is Err ==> *final(self) == *old(self),
    {
        self.debug_triangle.append(raw)
    }

    /// Forget both buckets' instances without touching their allocations.
    pub fn reset(&mut self)
        requires
            old(self).wf(),
        ensures
            final(self).wf(),
            final(self)@.squares == old(self)@.squares.emptied(),
            final(self)@.triangles == old(self)@.triangles.emptied(),
    {
        self.debug_square.reset();
        self.debug_triangle.reset();
    }

    /// How many squares the renderer should draw this frame.
    pub fn square_count(&self) -> (n: u32)
        ensures
            n == self@.squares.count,
    {
        self.debug_square.draw_count()
    }

    /// How many triangles the renderer should draw this frame.
    pub fn triangle_count(&self) -> (n: u32)
        ensures
            n == self@.triangles.count,
    {
        self.debug_triangle.draw_count()
    }

    /// The square bucket's instance-array bytes, in write order.
    pub fn square_data(&self) -> (d: &Vec<u8>)
        ensures
            d@ == self@.squares.bytes,
    {
        self.debug_square.instance_data()
    }

    /// The triangle bucket's instance-array bytes, in write order.
    pub fn triangle_data(&self) -> (d: &Vec<u8>)
        ensures
            d@ == self@.triangles.bytes,
    {
        self.debug_triangle.instance_data()
    }
}

} // verus!
