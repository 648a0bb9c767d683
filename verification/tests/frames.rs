//! The per-frame protocol: stable layer ordering, upload, overflow, clear.

use instanced_draw::instance::{Vec2Bits, RAW_BYTES};
use instanced_draw::layers::{sort_by_layer, TexturedQuad};
use instanced_draw::pipeline::{TexturedPipeline, MAX_QUADS, QUAD_INDICES, QUAD_VERTICES};

/// A quad on `layer`, tagged through its position's x bits so equal-layer
/// requests can be told apart.
fn quad(layer: u32, tag: u32) -> TexturedQuad {
    TexturedQuad {
        position: Vec2Bits { x: tag, y: 0 },
        dimensions: Vec2Bits { x: 1, y: 2 },
        layer,
    }
}

#[test]
fn sort_is_stable_by_layer() {
    let input = vec![quad(3, 30), quad(1, 11), quad(2, 20), quad(1, 12)];
    let sorted = sort_by_layer(&input);
    let layers: Vec<u32> = sorted.iter().map(|q| q.layer).collect();
    let tags: Vec<u32> = sorted.iter().map(|q| q.position.x).collect();
    assert_eq!(layers, vec![1, 1, 2, 3]);
    assert_eq!(tags, vec![11, 12, 20, 30]);
}

#[test]
fn sort_handles_edges() {
    assert!(sort_by_layer(&Vec::new()).is_empty());

    let one = sort_by_layer(&vec![quad(9, 1)]);
    assert_eq!(one.len(), 1);
    assert_eq!(one[0].position.x, 1);

    // all on one layer: submission order is kept
    let same = sort_by_layer(&vec![quad(5, 1), quad(5, 2), quad(5, 3)]);
    let tags: Vec<u32> = same.iter().map(|q| q.position.x).collect();
    assert_eq!(tags, vec![1, 2, 3]);
}

#[test]
fn render_uploads_in_paint_order() {
    let mut p = TexturedPipeline::new();
    p.push_textured_quad(quad(3, 30));
    p.push_textured_quad(quad(1, 11));
    p.push_textured_quad(quad(2, 20));
    p.push_textured_quad(quad(1, 12));

    let plan = p.render();
    assert_eq!(plan.dropped, 0);
    assert_eq!(plan.writes.len(), 4);
    for (k, w) in plan.writes.iter().enumerate() {
        assert_eq!(w.offset, k * RAW_BYTES);
        assert_eq!(w.bytes.len(), RAW_BYTES);
    }

    // the queue is left in sorted order
    let tags: Vec<u32> = p.queued().iter().map(|q| q.position.x).collect();
    assert_eq!(tags, vec![11, 12, 20, 30]);

    // the buffer's physical layout equals the paint order: the translation's
    // x cell sits at bytes 24..28 of each 36-byte instance
    let data = p.instance_data();
    assert_eq!(data.len(), 4 * RAW_BYTES);
    for (k, tag) in [11u32, 12, 20, 30].iter().enumerate() {
        let at = k * RAW_BYTES + 24;
        assert_eq!(&data[at..at + 4], &tag.to_le_bytes());
    }

    assert_eq!(plan.draws.len(), 1);
    assert_eq!(plan.draws[0].model_index, 0);
    assert_eq!(plan.draws[0].num_vertices, QUAD_VERTICES);
    assert_eq!(plan.draws[0].num_indices, QUAD_INDICES);
    assert_eq!(plan.draws[0].instance_count, 4);
    assert_eq!(p.draw_count(), 4);
}

#[test]
fn clear_resets_frame() {
    let mut p = TexturedPipeline::new();
    p.push_textured_quad(quad(1, 1));
    p.push_textured_quad(quad(2, 2));
    let _ = p.render();
    assert_eq!(p.draw_count(), 2);

    p.clear();
    assert_eq!(p.draw_count(), 0);
    assert!(p.queued().is_empty());
    assert!(p.instance_data().is_empty());

    // a subsequent frame with zero requests draws nothing
    let plan = p.render();
    assert_eq!(plan.writes.len(), 0);
    assert_eq!(plan.dropped, 0);
    assert_eq!(plan.draws.len(), 1);
    assert_eq!(plan.draws[0].instance_count, 0);
}

#[test]
fn overflow_is_reported_not_fatal() {
    let mut p = TexturedPipeline::new();
    for i in 0..(MAX_QUADS + 1) {
        p.push_textured_quad(quad(0, i as u32));
    }
    let plan = p.render();
    assert_eq!(plan.dropped, 1);
    assert_eq!(plan.writes.len(), MAX_QUADS);
    assert_eq!(p.draw_count() as usize, MAX_QUADS);
    assert_eq!(plan.draws[0].instance_count as usize, MAX_QUADS);
}

#[test]
fn exact_capacity_fits() {
    let mut p = TexturedPipeline::new();
    for i in 0..MAX_QUADS {
        p.push_textured_quad(quad(0, i as u32));
    }
    let plan = p.render();
    assert_eq!(plan.dropped, 0);
    assert_eq!(p.draw_count() as usize, MAX_QUADS);
}
