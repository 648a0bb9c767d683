//! Instance encoding and draw-bucket behaviour.

use instanced_draw::bucket::Model;
use instanced_draw::instance::{
    InstanceRaw, TexturedInstance, Vec2Bits, ONE_BITS, RAW_BYTES, ZERO_BITS,
};

#[test]
fn append_counts_and_offsets() {
    let mut m = Model::new(4, 6, 4, 8);
    assert_eq!(m.draw_count(), 0);

    let w0 = m.append(&[1, 2, 3, 4]).unwrap();
    assert_eq!(w0.offset, 0);
    assert_eq!(w0.bytes, vec![1, 2, 3, 4]);

    let w1 = m.append(&[5, 6, 7, 8]).unwrap();
    assert_eq!(w1.offset, 4);

    let w2 = m.append(&[9, 10, 11, 12]).unwrap();
    assert_eq!(w2.offset, 8);

    assert_eq!(m.draw_count(), 3);
    assert_eq!(
        m.instance_data().as_slice(),
        &[1, 2, 3, 4, 5, 6, 7, 8, 9, 10, 11, 12]
    );
}

#[test]
fn capacity_boundary() {
    let mut m = Model::new(3, 0, 1, 3);
    for i in 0..3u8 {
        assert!(m.append(&[i]).is_ok());
    }
    assert_eq!(m.draw_count(), 3);

    let r = m.append(&[9]);
    assert!(r.is_err());
    assert_eq!(m.draw_count(), 3);
    assert_eq!(m.instance_data().as_slice(), &[0, 1, 2]);
}

#[test]
fn reset_keeps_shape_counts() {
    let mut m = Model::new(4, 6, 2, 4);
    m.append(&[1, 2]).unwrap();
    m.append(&[3, 4]).unwrap();
    m.reset();
    assert_eq!(m.draw_count(), 0);
    assert!(m.instance_data().is_empty());
    assert_eq!(m.num_vertices(), 4);
    assert_eq!(m.num_indices(), 6);
    assert_eq!(m.capacity(), 4);
    assert_eq!(m.stride(), 2);
    let w = m.append(&[5, 6]).unwrap();
    assert_eq!(w.offset, 0);
}

#[test]
fn encode_places_cells() {
    let inst = TexturedInstance {
        position: Vec2Bits { x: 7, y: 8 },
        scale: Vec2Bits { x: 5, y: 6 },
        rotation: ZERO_BITS,
    };
    let raw = inst.to_raw();
    let expected: [u32; 9] = [5, 0, 0, 0, 6, 0, 7, 8, ONE_BITS];
    for (i, want) in expected.iter().enumerate() {
        assert_eq!(raw.cell(i), *want);
    }
}

#[test]
fn raw_round_trip() {
    // position (~3.14159, -2.0), scale (0.5, 5.0), as single-precision bits
    let inst = TexturedInstance {
        position: Vec2Bits { x: 0x4049_0FDB, y: 0xC000_0000 },
        scale: Vec2Bits { x: 0x3F00_0000, y: 0x40A0_0000 },
        rotation: ZERO_BITS,
    };
    let raw = inst.to_raw();
    let (p, s) = raw.decode_axis_aligned().unwrap();
    assert_eq!(p, inst.position);
    assert_eq!(s, inst.scale);
    assert!((f32::from_bits(p.x) - 3.14159274).abs() < 1e-5);
    assert!((f32::from_bits(p.y) + 2.0).abs() < 1e-5);
    assert!((f32::from_bits(s.x) - 0.5).abs() < 1e-5);
    assert!((f32::from_bits(s.y) - 5.0).abs() < 1e-5);
}

#[test]
fn decode_rejects_rotated() {
    // A transform with a nonzero off-diagonal cell is no unrotated instance.
    let raw = InstanceRaw::new([5, 3, 0, 0, 6, 0, 7, 8, ONE_BITS]);
    assert!(raw.decode_axis_aligned().is_none());
    // And one whose corner is not the homogeneous one.
    let raw = InstanceRaw::new([5, 0, 0, 0, 6, 0, 7, 8, 0]);
    assert!(raw.decode_axis_aligned().is_none());
}

#[test]
fn raw_bytes_little_endian() {
    let raw = InstanceRaw::new([
        0x0403_0201,
        0,
        0,
        0,
        0x0807_0605,
        0,
        0x0C0B_0A09,
        0x100F_0E0D,
        ONE_BITS,
    ]);
    let b = raw.to_bytes();
    assert_eq!(b.len(), RAW_BYTES);
    assert_eq!(&b[0..4], &[1, 2, 3, 4]);
    assert_eq!(&b[4..8], &[0, 0, 0, 0]);
    assert_eq!(&b[16..20], &[5, 6, 7, 8]);
    assert_eq!(&b[24..28], &[9, 10, 11, 12]);
    assert_eq!(&b[28..32], &[13, 14, 15, 16]);
    assert_eq!(&b[32..36], &ONE_BITS.to_le_bytes());
}
