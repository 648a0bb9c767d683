//! Fixed-capacity draw buckets.
//!
//! A [`Model`] owns the bookkeeping for one shape's instance buffer: how
//! many bytes one encoded instance occupies, how many instances the
//! device-side array was allocated for, how many are live this frame, and
//! the exact bytes written so far. Writing into device memory itself is
//! the driver's job; each successful append hands back a [`BufferWrite`]
//! that says which bytes belong at which offset.

use vstd::arithmetic::mul::{lemma_mul_inequality, lemma_mul_is_distributive_add_other_way};
use vstd::prelude::*;
use vstd::slice::slice_to_vec;

verus! {

/// The abstract state of a draw bucket.
#[verifier::ext_equal]
pub ghost struct ModelView {
    /// Vertices of the base shape.
    pub num_vertices: u32,
    /// Indices of the base shape; zero for non-indexed shapes.
    pub num_indices: u32,
    /// Bytes one encoded instance occupies.
    pub stride: nat,
    /// Most instances the device-side array can hold.
    pub capacity: nat,
    /// Instances live for the current frame.
    pub count: nat,
    /// The instance-array bytes written so far, in write order.
    pub bytes: Seq<u8>,
}

impl ModelView {
    pub open spec fn wf(self) -> bool {
        &&& 1 <= self.stride
        &&& self.capacity <= u32::MAX
        &&& self.capacity * self.stride <= usize::MAX
        &&& self.count <= self.capacity
        &&& self.bytes.len() == self.count * self.stride
    }

    /// The bytes of the instance written at position `n`.
    pub open spec fn instance_at(self, n: int) -> Seq<u8> {
        self.bytes.subrange(n * self.stride, n * self.stride + self.stride)
    }

    /// This bucket with no live instances.
    pub open spec fn emptied(self) -> ModelView {
        ModelView { count: 0, bytes: Seq::<u8>::empty(), ..self }
    }

    /// This bucket with one more instance whose bytes are `raw`.
    pub open spec fn appended(self, raw: Seq<u8>) -> ModelView {
        ModelView { count: self.count + 1, bytes: self.bytes + raw, ..self }
    }
}

/// One write the driver must replay into the bucket's device-side instance
/// array: `bytes` belong at byte offset `offset`.
#[derive(Debug)]
pub struct BufferWrite {
    pub offset: usize,
    pub bytes: Vec<u8>,
}

/// A frame asked for more instances than the bucket's fixed capacity; the
/// overflowing instance was dropped, nothing was written.
#[derive(Clone, Copy, PartialEq, Eq, Structural, Debug)]
pub struct CapacityError;

/// A draw bucket for one shape.
pub struct Model {
    num_vertices: u32,
    num_indices: u32,
    stride: usize,
    capacity: usize,
    count: u32,
    data: Vec<u8>,
}

impl View for Model {
    type V = ModelView;

    closed spec fn view(&self) -> ModelView {
        ModelView {
            num_vertices: self.num_vertices,
            num_indices: self.num_indices,
            stride: self.stride as nat,
            capacity: self.capacity as nat,
            count: self.count as nat,
            bytes: self.data@,
        }
    }
}

impl Model {
    pub open spec fn wf(self) -> bool {
        self@.wf()
    }

    /// A fresh bucket with no live instances. The bounds keep every later
    /// byte offset within the machine's address range.
    pub fn new(num_vertices: u32, num_indices: u32, stride: usize, capacity: usize) -> (m: Model)
        requires
            1 <= stride,
            capacity <= u32::MAX,
            capacity * stride <= usize::MAX,
        ensures
            m.wf(),
            m@ == (ModelView {
                num_vertices,
                num_indices,
                stride: stride as nat,
                capacity: capacity as nat,
                count: 0,
                bytes: Seq::<u8>::empty(),
            }),
    {
        let m = Model { num_vertices, num_indices, stride, capacity, count: 0, data: Vec::new() };
        proof {
            assert(m@.bytes =~= Seq::<u8>::empty());
        }
        m
    }

    /// Write one encoded instance at the next free slot. Within capacity
    /// this succeeds and says exactly where the bytes go; at capacity the
    /// instance is dropped and the bucket reports the overflow unchanged.
    pub fn append(&mut self, raw: &[u8]) -> (r: Result<BufferWrite, CapacityError>)
        requires
            old(self).wf(),
            raw@.len() == old(self)@.stride,
        ensures
            final(self).wf(),
            r is Ok <==> old(self)@.count < old(self)@.capacity,
            r matches Ok(w) ==> w.offset == old(self)@.count * old(self)@.stride && w.bytes@
                == raw@,
            r is Ok ==> final(self)@ == old(self)@.appended(raw@),
            r is Err ==> *final(self) == *old(self),
    {
        if (self.count as usize) < self.capacity {
            proof {
                lemma_mul_inequality(
                    self.count as int + 1,
                    self.capacity as int,
                    self.stride as int,
                );
                lemma_mul_is_distributive_add_other_way(
                    self.stride as int,
                    self.count as int,
                    1,
                );
            }
            let offset: usize = (self.count as usize) * self.stride;
            self.data.extend_from_slice(raw);
            self.count = self.count + 1;
            proof {
                assert(self@ =~= old(self)@.appended(raw@));
            }
            Ok(BufferWrite { offset, bytes: slice_to_vec(raw) })
        } else {
            Err(CapacityError)
        }
    }

    /// Forget the frame's instances without touching the allocation.
    pub fn reset(&mut self)
        requires
            old(self).wf(),
        ensures
            final(self).wf(),
            final(self)@ == old(self)@.emptied(),
    {
        self.count = 0;
        self.data.clear();
        proof {
            assert(final(self)@ =~= old(self)@.emptied());
        }
    }

    /// How many instances the renderer should draw this frame.
    pub fn draw_count(&self) -> (n: u32)
        ensures
            n == self@.count,
    {
        self.count
    }

    /// The instance-array bytes written so far, in write order.
    pub fn instance_data(&self) -> (d: &Vec<u8>)
        ensures
            d@ == self@.bytes,
    {
        &self.data
    }

    pub fn num_vertices(&self) -> (n: u32)
        ensures
            n == self@.num_vertices,
    {
        self.num_vertices
    }

    pub fn num_indices(&self) -> (n: u32)
        ensures
            n == self@.num_indices,
    {
        self.num_indices
    }

    pub fn stride(&self) -> (n: usize)
        ensures
            n == self@.stride,
    {
        self.stride
    }

    pub fn capacity(&self) -> (n: usize)
        ensures
            n == self@.capacity,
    {
        self.capacity
    }
}

/// Appending never moves what was already written: instance `n` keeps the
/// byte range starting at `n * stride`, and the new instance's bytes land
/// at offset `count * stride`.
pub proof fn lemma_append_layout(pre: ModelView, post: ModelView, raw: Seq<u8>)
    requires
        pre.wf(),
        raw.len() == pre.stride,
        post.stride == pre.stride,
        post.count == pre.count + 1,
        post.bytes == pre.bytes + raw,
    ensures
        forall|n: int| 0 <= n < pre.count ==> post.instance_at(n) == pre.instance_at(n),
        post.instance_at(pre.count as int) == raw,
{
    assert forall|n: int| 0 <= n < pre.count implies post.instance_at(n) == pre.instance_at(
        n,
    ) by {
        lemma_mul_inequality(n + 1, pre.count as int, pre.stride as int);
        lemma_mul_is_distributive_add_other_way(pre.stride as int, n, 1);
        lemma_mul_inequality(0, n, pre.stride as int);
        assert(post.instance_at(n) =~= pre.instance_at(n));
    }
    assert(post.instance_at(pre.count as int) =~= raw);
}

} // verus!
