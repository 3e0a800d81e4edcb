use sketch_core::canvas::{AnimationLoop, FrameFill};
use sketch_core::color::Rgb8;
use sketch_core::geom::Vec2;
use sketch_core::particle::Thing;
use sketch_core::system::{mk_things, ParticleSystem, Strategy};

fn palette_colors() -> [Rgb8; 5] {
    [
        Rgb8 { red: 30, green: 144, blue: 255 },
        Rgb8 { red: 255, green: 255, blue: 255 },
        Rgb8 { red: 70, green: 130, blue: 180 },
        Rgb8 { red: 135, green: 206, blue: 250 },
        Rgb8 { red: 0, green: 206, blue: 209 },
    ]
}

#[test]
fn thing_new_keeps_its_fields() {
    let t = Thing::new(Vec2 { x: 42, y: -7 }, Rgb8 { red: 1, green: 2, blue: 3 }, 2000);
    assert_eq!(t.position, Vec2 { x: 42, y: -7 });
    assert_eq!(t.color, Rgb8 { red: 1, green: 2, blue: 3 });
    assert_eq!(t.radius, 2000);
}

#[test]
fn initialize_empty_population() {
    let s = ParticleSystem::initialize(0, Strategy::Jiggle);
    assert_eq!(s.things.len(), 0);
}

#[test]
fn initialize_yields_exactly_n_wellformed_particles() {
    let colors = palette_colors();
    let s = ParticleSystem::initialize(50, Strategy::Jiggle);
    assert_eq!(s.things.len(), 50);
    for t in s.things.iter() {
        assert!(1500 <= t.radius && t.radius < 3500);
        assert!(colors.contains(&t.color));
        assert!(-1_024_000 <= t.position.x && t.position.x < 1_024_000);
        assert!(-700_000 <= t.position.y && t.position.y < 700_000);
    }
}

#[test]
fn mk_things_builds_the_population() {
    let v = mk_things(4);
    assert_eq!(v.len(), 4);
    for t in v.iter() {
        assert!(1500 <= t.radius && t.radius < 3500);
    }
}

#[test]
fn zero_updates_leave_positions_unchanged() {
    let s = ParticleSystem::initialize(10, Strategy::Jiggle);
    let before: Vec<Vec2> = s.things.iter().map(|t| t.position).collect();
    let after: Vec<Vec2> = s.things.iter().map(|t| t.position).collect();
    assert_eq!(before, after);
}

#[test]
fn one_jiggle_update_moves_each_particle_a_little() {
    let mut s = ParticleSystem::initialize(3, Strategy::Jiggle);
    let before = s.things.clone();
    s.update();
    assert_eq!(s.things.len(), 3);
    for (old, new) in before.iter().zip(s.things.iter()) {
        assert!((new.position.x - old.position.x).abs() <= 1500);
        assert!((new.position.y - old.position.y).abs() <= 1500);
        assert_eq!(new.color, old.color);
        assert_eq!(new.radius, old.radius);
    }
}

#[test]
fn many_jiggle_updates_keep_colors_and_radii() {
    let mut s = ParticleSystem::initialize(5, Strategy::Jiggle);
    let before = s.things.clone();
    for _ in 0..20 {
        s.update();
    }
    assert_eq!(s.things.len(), 5);
    for (old, new) in before.iter().zip(s.things.iter()) {
        assert_eq!(new.color, old.color);
        assert_eq!(new.radius, old.radius);
        assert!((new.position.x - old.position.x).abs() <= 20 * 1500);
        assert!((new.position.y - old.position.y).abs() <= 20 * 1500);
    }
}

#[test]
fn coherent_update_applies_the_given_drifts() {
    let mut s = ParticleSystem::initialize(2, Strategy::CoherentNoise);
    let before = s.things.clone();
    let drifts = vec![Vec2 { x: 800, y: -300 }, Vec2 { x: 0, y: 1000 }];
    s.update_coherent(&drifts);
    assert_eq!(s.things[0].position.x, before[0].position.x + 800);
    assert_eq!(s.things[0].position.y, before[0].position.y - 300);
    assert_eq!(s.things[1].position.x, before[1].position.x);
    assert_eq!(s.things[1].position.y, before[1].position.y + 1000);
    assert_eq!(s.things[0].color, before[0].color);
    assert_eq!(s.things[1].radius, before[1].radius);
}

#[test]
fn noise_queries_scale_positions() {
    let s = ParticleSystem::initialize(3, Strategy::CoherentNoise);
    let q = s.noise_queries();
    assert_eq!(q.len(), 3);
    for (t, c) in s.things.iter().zip(q.iter()) {
        assert_eq!(c.x, t.position.x * 10);
        assert_eq!(c.y, t.position.y * 10);
    }
}

#[test]
fn first_frame_clears_later_frames_fade() {
    let mut l = AnimationLoop::new();
    assert_eq!(l.frame_index, 0);
    assert_eq!(l.fill_kind(), FrameFill::FadeOverlay);
    l.tick();
    assert_eq!(l.frame_index, 1);
    assert_eq!(l.fill_kind(), FrameFill::OpaqueBlack);
    l.tick();
    assert_eq!(l.frame_index, 2);
    assert_eq!(l.fill_kind(), FrameFill::FadeOverlay);
}
