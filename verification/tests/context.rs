//! The render context: model registry, debug overlay, camera.

use instanced_draw::camera::{Camera2D, CameraController, CameraKey};
use instanced_draw::instance::RAW_BYTES;
use instanced_draw::state::{AppendError, GraphicsState};

#[test]
fn model_registry_and_instances() {
    let mut g = GraphicsState::new(640, 480);
    assert_eq!(g.model_count(), 0);

    let idx = g.add_model(3, 0, 4, 2);
    assert_eq!(idx, 0);
    let idx2 = g.add_model(4, 6, 4, 2);
    assert_eq!(idx2, 1);

    let w = g.add_instance(0, &[1, 2, 3, 4]).unwrap();
    assert_eq!(w.offset, 0);
    let w = g.add_instance(0, &[5, 6, 7, 8]).unwrap();
    assert_eq!(w.offset, 4);

    assert_eq!(
        g.add_instance(7, &[1, 2, 3, 4]).unwrap_err(),
        AppendError::NoSuchModel
    );
    assert_eq!(
        g.add_instance(0, &[9, 9, 9, 9]).unwrap_err(),
        AppendError::CapacityExceeded
    );

    let draws = g.draw_list();
    assert_eq!(draws.len(), 2);
    assert_eq!(draws[0].model_index, 0);
    assert_eq!(draws[0].num_vertices, 3);
    assert_eq!(draws[0].num_indices, 0);
    assert_eq!(draws[0].instance_count, 2);
    assert_eq!(draws[1].model_index, 1);
    assert_eq!(draws[1].instance_count, 0);

    g.clear_instances();
    let draws = g.draw_list();
    assert_eq!(draws[0].instance_count, 0);
    assert_eq!(draws[1].instance_count, 0);
    let w = g.add_instance(0, &[1, 1, 1, 1]).unwrap();
    assert_eq!(w.offset, 0);
}

#[test]
fn debug_overlay_counts() {
    let mut g = GraphicsState::new(640, 480);
    let raw = [7u8; 36];
    assert_eq!(raw.len(), RAW_BYTES);

    let w = g.add_debug_square(&raw).unwrap();
    assert_eq!(w.offset, 0);
    let w = g.add_debug_square(&raw).unwrap();
    assert_eq!(w.offset, RAW_BYTES);
    let w = g.add_debug_triangle(&raw).unwrap();
    assert_eq!(w.offset, 0);

    assert_eq!(g.debug_state().square_count(), 2);
    assert_eq!(g.debug_state().triangle_count(), 1);
    assert_eq!(g.debug_state().square_data().len(), 2 * RAW_BYTES);

    g.clear_instances();
    assert_eq!(g.debug_state().square_count(), 0);
    assert_eq!(g.debug_state().triangle_count(), 0);
}

#[test]
fn clear_debug_leaves_models_alone() {
    let mut g = GraphicsState::new(640, 480);
    let idx = g.add_model(4, 6, 4, 4);
    g.add_instance(idx, &[1, 2, 3, 4]).unwrap();
    g.add_debug_square(&[7u8; 36]).unwrap();

    g.clear_debug();
    assert_eq!(g.debug_state().square_count(), 0);
    let draws = g.draw_list();
    assert_eq!(draws[0].instance_count, 1);
}

#[test]
fn controller_tracks_held_keys() {
    let mut c = CameraController::new();
    assert_eq!(c.movement(), (0, 0, 0));

    c.handle_key(CameraKey::Right, true);
    c.handle_key(CameraKey::Up, true);
    c.handle_key(CameraKey::Backward, true);
    assert_eq!(c.movement(), (1, 1, -1));

    // opposing keys cancel out
    c.handle_key(CameraKey::Left, true);
    assert_eq!(c.movement(), (0, 1, -1));

    c.handle_key(CameraKey::Up, false);
    c.handle_key(CameraKey::Backward, false);
    assert_eq!(c.movement(), (0, 0, 0));
}

#[test]
fn resize_recenters_projection() {
    let mut cam = Camera2D::new(800, 600);
    assert_eq!(cam.scaled_clip(400, 300), (0, 0));
    assert_eq!(cam.scaled_clip(0, 0), (-800, -600));
    assert_eq!(cam.scaled_clip(800, 600), (800, 600));

    cam.resize(1024, 768);
    assert_eq!(cam, Camera2D { width: 1024, height: 768 });
    // the point at the new center maps to the middle of clip space
    assert_eq!(cam.scaled_clip(512, 384), (0, 0));
    // and in unscaled clip units the mapping matches 2x/width - 1
    let (sx, sy) = cam.scaled_clip(256, 192);
    assert!((sx as f64 / 1024.0 - (-0.5)).abs() < 1e-5);
    assert!((sy as f64 / 768.0 - (-0.5)).abs() < 1e-5);
}

#[test]
fn resize_updates_state_camera() {
    let mut g = GraphicsState::new(320, 200);
    assert_eq!(g.camera(), Camera2D { width: 320, height: 200 });
    g.resize(640, 400);
    assert_eq!(g.camera(), Camera2D { width: 640, height: 400 });
    let (sx, sy) = g.camera().scaled_clip(320, 200);
    assert_eq!((sx, sy), (0, 0));
}
