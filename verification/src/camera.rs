//! Camera bookkeeping: the key-held state machine that steers the eye,
//! and the orthographic 2D projection's exact integer form.
//!
//! The controller holds one boolean per steering key, set on key-down and
//! cleared on key-up, and is read once per frame as a unit step along each
//! axis; the driver scales the step by its (floating-point) speed. The 2D
//! camera maps a pixel `(x, y)` on a `width` by `height` surface to clip
//! coordinates `(2x/width - 1, 2y/height - 1)`; the library states the
//! mapping scaled by the surface dimension, where it is exact.

use vstd::prelude::*;

verus! {

/// The discrete inputs the camera controller listens to.
#[derive(Clone, Copy, PartialEq, Eq, Structural, Debug)]
pub enum CameraKey {
    Up,
    Down,
    Left,
    Right,
    Forward,
    Backward,
}

/// One boolean per steering key: is it held right now?
#[derive(Clone, Copy, PartialEq, Eq, Structural, Debug)]
pub struct CameraController {
    pub up_held: bool,
    pub down_held: bool,
    pub left_held: bool,
    pub right_held: bool,
    pub forward_held: bool,
    pub backward_held: bool,
}

/// The unit step a pair of opposing held keys asks for: 1, -1, or 0 when
/// neither or both are held.
pub open spec fn axis_step(pos: bool, neg: bool) -> int {
    (if pos {
        1int
    } else {
        0int
    }) - (if neg {
        1int
    } else {
        0int
    })
}

impl CameraController {
    /// This state with one key's flag set to `pressed`.
    pub open spec fn with_key(self, key: CameraKey, pressed: bool) -> CameraController {
        match key {
            CameraKey::Up => CameraController { up_held: pressed, ..self },
            CameraKey::Down => CameraController { down_held: pressed, ..self },
            CameraKey::Left => CameraController { left_held: pressed, ..self },
            CameraKey::Right => CameraController { right_held: pressed, ..self },
            CameraKey::Forward => CameraController { forward_held: pressed, ..self },
            CameraKey::Backward => CameraController { backward_held: pressed, ..self },
        }
    }

    /// A controller with no key held.
    pub fn new() -> (c: CameraController)
        ensures
            c == (CameraController {
                up_held: false,
                down_held: false,
                left_held: false,
                right_held: false,
                forward_held: false,
                backward_held: false,
            }),
    {
        CameraController {
            up_held: false,
            down_held: false,
            left_held: false,
            right_held: false,
            forward_held: false,
            backward_held: false,
        }
    }

    /// Record a key going down (`pressed`) or up (`!pressed`). Only that
    /// key's flag changes.
    pub fn handle_key(&mut self, key: CameraKey, pressed: bool)
        ensures
            *final(self) == old(self).with_key(key, pressed),
    {
        match key {
            CameraKey::Up => self.up_held = pressed,
            CameraKey::Down => self.down_held = pressed,
            CameraKey::Left => self.left_held = pressed,
            CameraKey::Right => self.right_held = pressed,
            CameraKey::Forward => self.forward_held = pressed,
            CameraKey::Backward => self.backward_held = pressed,
        }
    }

    /// The frame's unit step along the horizontal, vertical and depth
    /// axes, read off the held flags. The driver multiplies by its speed.
    pub fn movement(&self) -> (m: (i8, i8, i8))
        ensures
            m.0 as int == axis_step(self.right_held, self.left_held),
            m.1 as int == axis_step(self.up_held, self.down_held),
            m.2 as int == axis_step(self.forward_held, self.backward_held),
    {
        let x: i8 = (if self.right_held {
            1
        } else {
            0
        }) - (if self.left_held {
            1
        } else {
            0
        });
        let y: i8 = (if self.up_held {
            1
        } else {
            0
        }) - (if self.down_held {
            1
        } else {
            0
        });
        let z: i8 = (if self.forward_held {
            1
        } else {
            0
        }) - (if self.backward_held {
            1
        } else {
            0
        });
        (x, y, z)
    }
}

/// The parameters of the orthographic 2D projection: the surface's pixel
/// dimensions. The driver rebuilds the floating-point matrix from them;
/// the library states the mapping they induce in exact integer form.
#[derive(Clone, Copy, PartialEq, Eq, Structural, Debug)]
pub struct Camera2D {
    pub width: u32,
    pub height: u32,
}

impl Camera2D {
    /// The clip coordinate of pixel column `x`, scaled by `width` to stay
    /// an integer: `width` times `2x/width - 1`.
    pub open spec fn scaled_clip_x(self, x: int) -> int {
        2 * x - self.width
    }

    /// The clip coordinate of pixel row `y`, scaled by `height`.
    pub open spec fn scaled_clip_y(self, y: int) -> int {
        2 * y - self.height
    }

    pub fn new(width: u32, height: u32) -> (c: Camera2D)
        ensures
            c == (Camera2D { width, height }),
    {
        Camera2D { width, height }
    }

    /// Adopt new surface dimensions; every projection built afterwards
    /// uses them.
    pub fn resize(&mut self, width: u32, height: u32)
        ensures
            *final(self) == (Camera2D { width, height }),
    {
        self.width = width;
        self.height = height;
    }

    /// The projection's mapping of a pixel, scaled by the surface
    /// dimensions so that it is exact.
    pub fn scaled_clip(&self, x: u32, y: u32) -> (r: (i64, i64))
        ensures
            r.0 == self.scaled_clip_x(x as int),
            r.1 == self.scaled_clip_y(y as int),
    {
        (2 * (x as i64) - (self.width as i64), 2 * (y as i64) - (self.height as i64))
    }
}

/// The projection always sends the surface's center to the middle of clip
/// space: whatever dimensions a resize installs, the pixel at half the
/// new width and height maps to scaled clip coordinates (0, 0). Stated
/// for even dimensions, where the center is a whole pixel.
pub proof fn lemma_center_maps_to_middle(cam: Camera2D)
    requires
        cam.width % 2 == 0,
        cam.height % 2 == 0,
    ensures
        cam.scaled_clip_x(cam.width as int / 2) == 0,
        cam.scaled_clip_y(cam.height as int / 2) == 0,
{
}

} // verus!
