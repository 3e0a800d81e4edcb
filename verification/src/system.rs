use vstd::prelude::*;

use crate::canvas::in_canvas;
use crate::color::in_palette;
use crate::field::{radius_from, random_color, random_pt};
use crate::geom::{add_clamped, clamp_int, Vec2, COORD_LIMIT_MILLI};
use crate::particle::{jiggle_step, jiggle_step_spec, Thing};
use crate::rng::draw_u32;

verus! {

/// How many particles the sketch starts with.
pub const N_THINGS: usize = 2000;

/// How per-tick displacements are produced: chosen once, at construction.
#[derive(Clone, Copy, Debug, PartialEq, Eq, Structural)]
pub enum Strategy {
    /// Independent uniform noise of at most 1.5 pixels per axis per tick:
    /// an uncorrelated random walk.
    Jiggle,
    /// Displacements sampled from a smooth spatial noise field by the
    /// outside noise collaborator, at positions this system reports.
    CoherentNoise,
}

/// Particle `b` is particle `a` one jiggle tick later: same color and
/// radius, each axis moved by at most 1.5 pixels, and the move is exactly a
/// saturating bump step for some pair of draws.
pub open spec fn jiggled(a: Thing, b: Thing) -> bool {
    &&& b.color == a.color
    &&& b.radius == a.radius
    &&& -1500 <= b.position.x - a.position.x <= 1500
    &&& -1500 <= b.position.y - a.position.y <= 1500
    &&& exists|r1: u32, r2: u32| b == jiggle_step_spec(a, r1, r2)
}

/// Particle `b` is particle `a` displaced by exactly `d`, saturating at the
/// coordinate limit: same color and radius.
pub open spec fn drifted(a: Thing, b: Thing, d: Vec2) -> bool {
    &&& b.color == a.color
    &&& b.radius == a.radius
    &&& b.position.x == clamp_int(
        a.position.x + d.x,
        -COORD_LIMIT_MILLI as int,
        COORD_LIMIT_MILLI as int,
    )
    &&& b.position.y == clamp_int(
        a.position.y + d.y,
        -COORD_LIMIT_MILLI as int,
        COORD_LIMIT_MILLI as int,
    )
}

/// The population of particles: fixed size after construction, every
/// particle well-formed, positions mutated once per tick.
pub struct ParticleSystem {
    pub things: Vec<Thing>,
    pub strategy: Strategy,
}

impl ParticleSystem {
    /// Every particle is well-formed.
    pub open spec fn wf(self) -> bool {
        forall|i: int| 0 <= i < self.things@.len() ==> (#[trigger] self.things@[i]).wf()
    }

    /// Populate `n` particles: each at a uniform point of the canvas, with a
    /// uniform palette color and a radius uniform over `[1.5, 3.5)` pixels.
    pub fn initialize(n: usize, strategy: Strategy) -> (s: ParticleSystem)
        ensures
            s.strategy == strategy,
            s.things@.len() == n,
            s.wf(),
            forall|i: int|
                0 <= i < n ==> in_canvas((#[trigger] s.things@[i]).position) && 1500
                    <= s.things@[i].radius < 3500 && in_palette(s.things@[i].color),
    {
        ParticleSystem { things: mk_things(n), strategy }
    }

    /// One tick under the jiggle strategy: every particle takes independent
    /// uniform displacements in `[-1.5, 1.5)` pixels per axis; colors, radii
    /// and the population size stay.
    pub fn update(&mut self)
        requires
            old(self).wf(),
            old(self).strategy == Strategy::Jiggle,
        ensures
            final(self).wf(),
            final(self).strategy == old(self).strategy,
            final(self).things@.len() == old(self).things@.len(),
            forall|i: int|
                0 <= i < old(self).things@.len() ==> jiggled(
                    old(self).things@[i],
                    #[trigger] final(self).things@[i],
                ),
    {
        let n = self.things.len();
        let mut i: usize = 0;
        while i < n
            invariant
                i <= n,
                n == old(self).things@.len(),
                self.things@.len() == n,
                self.strategy == old(self).strategy,
                old(self).wf(),
                forall|j: int|
                    0 <= j < i ==> jiggled(old(self).things@[j], #[trigger] self.things@[j]),
                forall|j: int| i <= j < n ==> self.things@[j] == old(self).things@[j],
            decreases n - i,
        {
            let r1 = draw_u32();
            let r2 = draw_u32();
            let t = self.things[i];
            let s = jiggle_step(&t, r1, r2);
            self.things[i] = s;
            i = i + 1;
        }
    }

    /// One tick under the coherent-noise strategy: the caller sampled the
    /// noise field at the points `noise_queries` reported and hands back one
    /// drift vector per particle; each is applied as-is, saturating at the
    /// coordinate limit. Colors, radii and the population size stay.
    pub fn update_coherent(&mut self, drifts: &Vec<Vec2>)
        requires
            old(self).wf(),
            old(self).strategy == Strategy::CoherentNoise,
            drifts@.len() == old(self).things@.len(),
            forall|i: int|
                0 <= i < drifts@.len() ==> -COORD_LIMIT_MILLI <= (#[trigger] drifts@[i]).x
                    <= COORD_LIMIT_MILLI && -COORD_LIMIT_MILLI <= drifts@[i].y
                    <= COORD_LIMIT_MILLI,
        ensures
            final(self).wf(),
            final(self).strategy == old(self).strategy,
            final(self).things@.len() == old(self).things@.len(),
            forall|i: int|
                0 <= i < old(self).things@.len() ==> drifted(
                    old(self).things@[i],
                    #[trigger] final(self).things@[i],
                    drifts@[i],
                ),
    {
        let n = self.things.len();
        let mut i: usize = 0;
        while i < n
            invariant
                i <= n,
                n == old(self).things@.len(),
                self.things@.len() == n,
                self.strategy == old(self).strategy,
                old(self).wf(),
                drifts@.len() == n,
                forall|j: int|
                    0 <= j < drifts@.len() ==> -COORD_LIMIT_MILLI <= (#[trigger] drifts@[j]).x
                        <= COORD_LIMIT_MILLI && -COORD_LIMIT_MILLI <= drifts@[j].y
                        <= COORD_LIMIT_MILLI,
                forall|j: int|
                    0 <= j < i ==> drifted(
                        old(self).things@[j],
                        #[trigger] self.things@[j],
                        drifts@[j],
                    ),
                forall|j: int| i <= j < n ==> self.things@[j] == old(self).things@[j],
            decreases n - i,
        {
            let t = self.things[i];
            let d = drifts[i];
            let s = Thing {
                position: Vec2 {
                    x: add_clamped(t.position.x, d.x),
                    y: add_clamped(t.position.y, d.y),
                },
                color: t.color,
                radius: t.radius,
            };
            self.things[i] = s;
            i = i + 1;
        }
    }

    /// Where the noise field is to be sampled for each particle this tick:
    /// the particle's position scaled by the small factor 0.01, reported in
    /// micro-units (the caller divides by one million to get the field's
    /// input coordinate).
    pub fn noise_queries(&self) -> (q: Vec<Vec2>)
        requires
            self.wf(),
        ensures
            q@.len() == self.things@.len(),
            forall|i: int|
                0 <= i < q@.len() ==> (#[trigger] q@[i]).x == self.things@[i].position.x * 10
                    && q@[i].y == self.things@[i].position.y * 10,
    {
        let n = self.things.len();
        let mut q: Vec<Vec2> = Vec::new();
        let mut i: usize = 0;
        while i < n
            invariant
                i <= n,
                n == self.things@.len(),
                self.wf(),
                q@.len() == i,
                forall|j: int|
                    0 <= j < i ==> (#[trigger] q@[j]).x == self.things@[j].position.x * 10
                        && q@[j].y == self.things@[j].position.y * 10,
            decreases n - i,
        {
            let t = self.things[i];
            q.push(Vec2 { x: t.position.x * 10, y: t.position.y * 10 });
            i = i + 1;
        }
        q
    }
}

/// Build the particle population: `n` fresh particles, each at a uniform
/// canvas point, with a uniform palette color and a radius uniform over
/// `[1.5, 3.5)` pixels.
pub fn mk_things(n: usize) -> (v: Vec<Thing>)
    ensures
        v@.len() == n,
        forall|i: int|
            0 <= i < n ==> (#[trigger] v@[i]).wf() && in_canvas(v@[i].position) && 1500
                <= v@[i].radius < 3500 && in_palette(v@[i].color),
{
    let mut v: Vec<Thing> = Vec::new();
    let mut i: usize = 0;
    while i < n
        invariant
            i <= n,
            v@.len() == i,
            forall|j: int|
                0 <= j < i ==> (#[trigger] v@[j]).wf() && in_canvas(v@[j].position) && 1500
                    <= v@[j].radius < 3500 && in_palette(v@[j].color),
        decreases n - i,
    {
        let radius = radius_from(draw_u32());
        let t = Thing::new(random_pt(), random_color(), radius);
        v.push(t);
        i = i + 1;
    }
    v
}

} // verus!
