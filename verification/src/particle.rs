use vstd::prelude::*;

use crate::color::{in_palette, Rgb8};
use crate::field::{bump, bump_spec};
use crate::geom::{add_clamped, clamp_int, Vec2, COORD_LIMIT_MILLI};

verus! {

/// A single drawn entity: a position in milli-pixels, a palette color and a
/// radius in milli-pixels. Color and radius never change after construction;
/// the position moves every tick.
#[derive(Clone, Copy, Debug, PartialEq, Eq, Structural)]
pub struct Thing {
    pub position: Vec2,
    pub color: Rgb8,
    pub radius: u32,
}

impl Thing {
    /// Both coordinates inside the saturation limit, the radius inside the
    /// interval it was drawn from, and the color from the palette.
    pub open spec fn wf(self) -> bool {
        &&& -COORD_LIMIT_MILLI <= self.position.x <= COORD_LIMIT_MILLI
        &&& -COORD_LIMIT_MILLI <= self.position.y <= COORD_LIMIT_MILLI
        &&& 1500 <= self.radius < 3500
        &&& in_palette(self.color)
    }

    pub fn new(position: Vec2, color: Rgb8, radius: u32) -> (t: Self)
        ensures
            t.position == position,
            t.color == color,
            t.radius == radius,
    {
        Thing { position, color, radius }
    }
}

/// The particle after one jiggle tick driven by the draws `r1` and `r2`:
/// each axis moves by an independent uniform bump, saturating at the
/// coordinate limit; color and radius stay.
pub open spec fn jiggle_step_spec(t: Thing, r1: u32, r2: u32) -> Thing {
    Thing {
        position: Vec2 {
            x: clamp_int(
                t.position.x + bump_spec(r1),
                -COORD_LIMIT_MILLI as int,
                COORD_LIMIT_MILLI as int,
            ) as i64,
            y: clamp_int(
                t.position.y + bump_spec(r2),
                -COORD_LIMIT_MILLI as int,
                COORD_LIMIT_MILLI as int,
            ) as i64,
        },
        color: t.color,
        radius: t.radius,
    }
}

/// Apply one jiggle tick to a particle, from the two given draws.
pub fn jiggle_step(t: &Thing, r1: u32, r2: u32) -> (s: Thing)
    requires
        t.wf(),
    ensures
        s == jiggle_step_spec(*t, r1, r2),
        s.wf(),
        s.color == t.color,
        s.radius == t.radius,
        -1500 <= s.position.x - t.position.x <= 1500,
        -1500 <= s.position.y - t.position.y <= 1500,
{
    let dx = bump(r1);
    let dy = bump(r2);
    let s = Thing {
        position: Vec2 {
            x: add_clamped(t.position.x, dx),
            y: add_clamped(t.position.y, dy),
        },
        color: t.color,
        radius: t.radius,
    };
    s
}

} // verus!
