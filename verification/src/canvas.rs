use vstd::prelude::*;

use crate::geom::Vec2;

verus! {

/// Canvas width, fixed at compile time.
pub const SCREEN_WIDTH_PX: u32 = 2048;

/// Canvas height, fixed at compile time.
pub const SCREEN_HEIGHT_PX: u32 = 1400;

/// Half the canvas width, in milli-pixels: the origin sits at the center.
pub const HALF_WIDTH_MILLI: i64 = 1_024_000;

/// Half the canvas height, in milli-pixels.
pub const HALF_HEIGHT_MILLI: i64 = 700_000;

/// Opacity of the full-canvas fade rectangle, in thousandths: a low-opacity
/// black wash drawn over every frame after the first, so that moving
/// particles leave trails instead of being cleared away.
pub const FADE_ALPHA_MILLI: u32 = 50;

/// Whether `v` lies inside the centered canvas rectangle.
pub open spec fn in_canvas(v: Vec2) -> bool {
    &&& -HALF_WIDTH_MILLI <= v.x < HALF_WIDTH_MILLI
    &&& -HALF_HEIGHT_MILLI <= v.y < HALF_HEIGHT_MILLI
}

/// What the renderer lays down before the particles each frame.
#[derive(Clone, Copy, Debug, PartialEq, Eq, Structural)]
pub enum FrameFill {
    /// A fully opaque black background: drawn once, on the first frame.
    OpaqueBlack,
    /// The low-opacity fade rectangle: drawn on every later frame.
    FadeOverlay,
}

/// The driver's own state: one tick per animation frame. The frame counter
/// is explicit state, not an ambient global, so that the first-frame branch
/// of the renderer can be stated and checked.
#[derive(Clone, Copy, Debug, PartialEq, Eq, Structural)]
pub struct AnimationLoop {
    pub frame_index: u64,
}

impl AnimationLoop {
    /// A fresh loop: no frame has been presented yet.
    pub fn new() -> (s: Self)
        ensures
            s.frame_index == 0,
    {
        AnimationLoop { frame_index: 0 }
    }

    /// Advance to the next frame. The counter saturates at the top of its
    /// range rather than wrapping back to the first-frame special case.
    pub fn tick(&mut self)
        ensures
            old(self).frame_index < u64::MAX ==> final(self).frame_index == old(
                self,
            ).frame_index + 1,
            old(self).frame_index == u64::MAX ==> final(self).frame_index == u64::MAX,
    {
        if self.frame_index < u64::MAX {
            self.frame_index = self.frame_index + 1;
        }
    }

    /// Which fill the renderer must draw this frame: a hard black clear on
    /// frame 1 only, the fade overlay on every other frame.
    pub fn fill_kind(&self) -> (f: FrameFill)
        ensures
            (f == FrameFill::OpaqueBlack) <==> self.frame_index == 1,
    {
        if self.frame_index == 1 {
            FrameFill::OpaqueBlack
        } else {
            FrameFill::FadeOverlay
        }
    }
}

} // verus!
