//! Per-instance transform records and their GPU encoding.
//!
//! Coordinates, scale factors and angles are carried as opaque 32-bit
//! scalar encodings (the bit patterns of single-precision values). The
//! library never does arithmetic on them: encoding an unrotated instance
//! is pure placement of cells, which is why it can be specified exactly.

use vstd::prelude::*;

verus! {

/// Scalar encoding of the value zero.
pub const ZERO_BITS: u32 = 0;

/// Scalar encoding of the value one.
pub const ONE_BITS: u32 = 0x3F80_0000;

/// Number of bytes one encoded 2D instance occupies in an instance buffer.
pub const RAW_BYTES: usize = 36;

/// A two-component vector whose coordinates are opaque 32-bit scalar
/// encodings.
#[derive(Clone, Copy, PartialEq, Eq, Structural, Debug)]
pub struct Vec2Bits {
    pub x: u32,
    pub y: u32,
}

/// One occurrence of a shared base shape: where it sits, how it is
/// stretched, and the angle it is turned by (an opaque scalar encoding,
/// like the coordinates).
#[derive(Clone, Copy, PartialEq, Eq, Structural, Debug)]
pub struct TexturedInstance {
    pub position: Vec2Bits,
    pub scale: Vec2Bits,
    pub rotation: u32,
}

/// The cells of the transform of an instance whose rotation is zero, in
/// column-major order: the scale on the diagonal, the translation in the
/// last column, and the homogeneous one in the corner.
pub open spec fn axis_aligned_cells(position: Vec2Bits, scale: Vec2Bits) -> Seq<u32> {
    seq![
        scale.x,
        ZERO_BITS,
        ZERO_BITS,
        ZERO_BITS,
        scale.y,
        ZERO_BITS,
        position.x,
        position.y,
        ONE_BITS,
    ]
}

/// The GPU form of one 2D instance: a 3-by-3 transform, cell by cell in
/// column-major order.
#[derive(Clone, Copy, Debug)]
pub struct InstanceRaw {
    model: [u32; 9],
}

impl View for InstanceRaw {
    type V = Seq<u32>;

    closed spec fn view(&self) -> Seq<u32> {
        self.model@
    }
}

impl InstanceRaw {
    /// Wrap a full set of transform cells, given in column-major order.
    pub fn new(model: [u32; 9]) -> (raw: InstanceRaw)
        ensures
            raw@ == model@,
    {
        InstanceRaw { model }
    }

    /// The cell at `i`, counting column-major.
    pub fn cell(&self, i: usize) -> (c: u32)
        requires
            i < 9,
        ensures
            c == self@[i as int],
    {
        self.model[i]
    }

    /// Recover position and scale from a transform, where that is possible
    /// at all: exactly the transforms of unrotated instances have the fixed
    /// zero and one cells this reads back.
    pub fn decode_axis_aligned(&self) -> (r: Option<(Vec2Bits, Vec2Bits)>)
        ensures
            forall|p: Vec2Bits, s: Vec2Bits|
                self@ == #[trigger] axis_aligned_cells(p, s) ==> r == Some((p, s)),
            r matches Some(ps) ==> self@ == axis_aligned_cells(ps.0, ps.1),
    {
        let m = &self.model;
        if m[1] == ZERO_BITS && m[2] == ZERO_BITS && m[3] == ZERO_BITS && m[5] == ZERO_BITS
            && m[8] == ONE_BITS {
            let position = Vec2Bits { x: m[6], y: m[7] };
            let scale = Vec2Bits { x: m[0], y: m[4] };
            proof {
                assert(self@ =~= axis_aligned_cells(position, scale));
            }
            Some((position, scale))
        } else {
            None
        }
    }
}

/// The little-endian bytes of one transform cell.
pub open spec fn le_bytes_of_cell(x: u32) -> Seq<u8> {
    seq![
        (x & 0xff) as u8,
        ((x >> 8) & 0xff) as u8,
        ((x >> 16) & 0xff) as u8,
        ((x >> 24) & 0xff) as u8,
    ]
}

/// The instance-buffer bytes of a run of transform cells: each cell in
/// turn, little-endian, tightly packed.
pub open spec fn raw_bytes_spec(cells: Seq<u32>) -> Seq<u8>
    decreases cells.len(),
{
    if cells.len() == 0 {
        Seq::<u8>::empty()
    } else {
        le_bytes_of_cell(cells[0]) + raw_bytes_spec(cells.drop_first())
    }
}

/// Four bytes per cell, so a run of cells occupies four times as many
/// bytes.
pub proof fn lemma_raw_bytes_len(cells: Seq<u32>)
    ensures
        raw_bytes_spec(cells).len() == 4 * cells.len(),
    decreases cells.len(),
{
    if cells.len() > 0 {
        lemma_raw_bytes_len(cells.drop_first());
    }
}

proof fn lemma_raw_bytes_step(cells: Seq<u32>, i: int)
    requires
        0 <= i < cells.len(),
    ensures
        raw_bytes_spec(cells.skip(i)) == le_bytes_of_cell(cells[i]) + raw_bytes_spec(
            cells.skip(i + 1),
        ),
{
    assert(cells.skip(i).drop_first() =~= cells.skip(i + 1));
    assert(cells.skip(i)[0] == cells[i]);
}

fn push_cell_le(b: &mut Vec<u8>, x: u32)
    ensures
        final(b)@ == old(b)@ + le_bytes_of_cell(x),
{
    proof {
        assert(x & 0xff < 256 && (x >> 8) & 0xff < 256 && (x >> 16) & 0xff < 256 && (x >> 24)
            & 0xff < 256) by (bit_vector);
    }
    b.push((x & 0xff) as u8);
    b.push(((x >> 8) & 0xff) as u8);
    b.push(((x >> 16) & 0xff) as u8);
    b.push(((x >> 24) & 0xff) as u8);
    proof {
        assert(b@ =~= old(b)@ + le_bytes_of_cell(x));
    }
}

impl InstanceRaw {
    /// The exact bytes this transform occupies in an instance buffer.
    pub fn to_bytes(&self) -> (b: Vec<u8>)
        ensures
            b@ == raw_bytes_spec(self@),
            b@.len() == RAW_BYTES,
    {
        let mut b: Vec<u8> = Vec::new();
        proof {
            assert(self@.skip(0) =~= self@);
            assert(b@ + raw_bytes_spec(self@) =~= raw_bytes_spec(self@));
        }
        let mut i: usize = 0;
        while i < 9
            invariant
                i <= 9,
                b@ + raw_bytes_spec(self@.skip(i as int)) == raw_bytes_spec(self@),
            decreases 9 - i,
        {
            proof {
                lemma_raw_bytes_step(self@, i as int);
            }
            let ghost pre = b@;
            push_cell_le(&mut b, self.model[i]);
            proof {
                assert(b@ + raw_bytes_spec(self@.skip(i as int + 1)) =~= pre + raw_bytes_spec(
                    self@.skip(i as int),
                ));
            }
            i = i + 1;
        }
        proof {
            assert(self@.skip(9) =~= Seq::<u32>::empty());
            assert(b@ =~= b@ + raw_bytes_spec(self@.skip(9)));
            lemma_raw_bytes_len(self@);
        }
        b
    }
}

impl TexturedInstance {
    /// Encode this instance as its GPU transform. Only the unrotated form
    /// can be produced here: turning by a general angle needs trigonometry
    /// on the scalar values, which the library keeps opaque.
    pub fn to_raw(&self) -> (raw: InstanceRaw)
        requires
            self.rotation == ZERO_BITS,
        ensures
            raw@ == axis_aligned_cells(self.position, self.scale),
    {
        let raw = InstanceRaw {
            model: [
                self.scale.x,
                ZERO_BITS,
                ZERO_BITS,
                ZERO_BITS,
                self.scale.y,
                ZERO_BITS,
                self.position.x,
                self.position.y,
                ONE_BITS,
            ],
        };
        proof {
            assert(raw@ =~= axis_aligned_cells(self.position, self.scale));
        }
        raw
    }
}

/// Decoding is inverse to encoding: two unrotated instances with the same
/// transform agree on position and scale.
pub proof fn lemma_axis_aligned_cells_injective(
    p1: Vec2Bits,
    s1: Vec2Bits,
    p2: Vec2Bits,
    s2: Vec2Bits,
)
    requires
        axis_aligned_cells(p1, s1) == axis_aligned_cells(p2, s2),
    ensures
        p1 == p2,
        s1 == s2,
{
    let a = axis_aligned_cells(p1, s1);
    let b = axis_aligned_cells(p2, s2);
    assert(a[0] == b[0] && a[4] == b[4] && a[6] == b[6] && a[7] == b[7]);
}

} // verus!
