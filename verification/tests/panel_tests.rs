use sketch_core::geom::Vec2;
use sketch_core::panel::{
    apply_inputs, build_descriptors, ColorMilli, ControlId, ControlState, Descriptor, PanelInputs,
};

fn no_input() -> PanelInputs {
    PanelInputs::none()
}

#[test]
fn initial_state_is_a_magenta_pentagon() {
    let s = ControlState::initial();
    assert_eq!(s.num_sides, 5);
    assert_eq!(s.scale, 200_000);
    assert_eq!(s.rotation, 0);
    assert_eq!(s.color, ColorMilli { red: 1000, green: 0, blue: 1000 });
    assert_eq!(s.position, Vec2 { x: 0, y: 0 });
}

#[test]
fn pad_values_clamp_to_the_pad_domain() {
    let s = ControlState::initial();
    let inp = PanelInputs { pad: Some(Vec2 { x: 350_000, y: -400_000 }), ..no_input() };
    let t = apply_inputs(s, &inp, 0, 0, 0);
    assert_eq!(t.position, Vec2 { x: 300_000, y: -300_000 });
    assert_eq!(t.num_sides, 5);
    assert_eq!(t.scale, 200_000);
    assert_eq!(t.rotation, 0);
    assert_eq!(t.color, ColorMilli { red: 1000, green: 0, blue: 1000 });
}

#[test]
fn sides_slider_truncates_and_clamps() {
    let s = ControlState::initial();
    let t = apply_inputs(s, &PanelInputs { num_sides: Some(5900), ..no_input() }, 0, 0, 0);
    assert_eq!(t.num_sides, 5);
    let t = apply_inputs(s, &PanelInputs { num_sides: Some(7999), ..no_input() }, 0, 0, 0);
    assert_eq!(t.num_sides, 7);
    let t = apply_inputs(s, &PanelInputs { num_sides: Some(-5000), ..no_input() }, 0, 0, 0);
    assert_eq!(t.num_sides, 3);
    let t = apply_inputs(s, &PanelInputs { num_sides: Some(999_999_999), ..no_input() }, 0, 0, 0);
    assert_eq!(t.num_sides, 15);
}

#[test]
fn scale_and_rotation_clamp_under_adversarial_input() {
    let s = ControlState::initial();
    let t = apply_inputs(s, &PanelInputs { scale: Some(-100), ..no_input() }, 0, 0, 0);
    assert_eq!(t.scale, 10_000);
    let t = apply_inputs(s, &PanelInputs { scale: Some(999_999), ..no_input() }, 0, 0, 0);
    assert_eq!(t.scale, 500_000);
    let t = apply_inputs(s, &PanelInputs { scale: Some(123_456), ..no_input() }, 0, 0, 0);
    assert_eq!(t.scale, 123_456);
    let t = apply_inputs(s, &PanelInputs { rotation: Some(i64::MAX), ..no_input() }, 0, 0, 0);
    assert_eq!(t.rotation, 3_141_593);
    let t = apply_inputs(s, &PanelInputs { rotation: Some(i64::MIN), ..no_input() }, 0, 0, 0);
    assert_eq!(t.rotation, -3_141_593);
}

#[test]
fn every_field_stays_in_domain_over_a_hostile_run() {
    let mut s = ControlState::initial();
    let hostile: [i64; 6] = [i64::MIN, -1, 0, 1, 76_543, i64::MAX];
    for &v in hostile.iter() {
        let inp = PanelInputs {
            num_sides: Some(v),
            scale: Some(v),
            rotation: Some(v),
            color_click: true,
            pad: Some(Vec2 { x: v, y: v.wrapping_neg() }),
        };
        s.update(&inp);
        assert!(3 <= s.num_sides && s.num_sides <= 15);
        assert!(10_000 <= s.scale && s.scale <= 500_000);
        assert!(-3_141_593 <= s.rotation && s.rotation <= 3_141_593);
        assert!(s.color.red <= 1000 && s.color.green <= 1000 && s.color.blue <= 1000);
        assert!(s.position.x.abs() <= 300_000 && s.position.y.abs() <= 300_000);
    }
}

#[test]
fn no_click_keeps_the_color() {
    let s = ControlState::initial();
    let inp = PanelInputs { num_sides: Some(9000), scale: Some(50_000), ..no_input() };
    let t = apply_inputs(s, &inp, 123, 456, 789);
    assert_eq!(t.color, s.color);
    let mut u = s;
    u.update(&inp);
    assert_eq!(u.color, s.color);
}

#[test]
fn one_click_recolors_from_the_draws() {
    let s = ControlState::initial();
    let inp = PanelInputs { color_click: true, ..no_input() };
    let t = apply_inputs(s, &inp, 0, 1 << 31, u32::MAX);
    assert_eq!(t.color, ColorMilli { red: 0, green: 500, blue: 999 });
    let mut u = s;
    u.update(&inp);
    assert!(u.color.red < 1000 && u.color.green < 1000 && u.color.blue < 1000);
}

#[test]
fn descriptors_mirror_the_state() {
    let s = ControlState::initial();
    let v = build_descriptors(&s);
    assert_eq!(v.len(), 5);
    assert_eq!(
        v[0],
        Descriptor::Slider { id: ControlId::NumSides, value: 5000, min: 3000, max: 15000 }
    );
    assert_eq!(
        v[1],
        Descriptor::Slider { id: ControlId::Scale, value: 200_000, min: 10_000, max: 500_000 }
    );
    assert_eq!(
        v[2],
        Descriptor::Slider {
            id: ControlId::Rotation,
            value: 0,
            min: -3_141_593,
            max: 3_141_593
        }
    );
    assert_eq!(v[3], Descriptor::Button { id: ControlId::RandomColor });
    assert_eq!(
        v[4],
        Descriptor::Pad { id: ControlId::Position, x: 0, y: 0, limit: 300_000 }
    );
}

#[test]
fn descriptors_follow_a_changed_state() {
    let mut s = ControlState::initial();
    s.update(&PanelInputs { num_sides: Some(8000), ..no_input() });
    let v = build_descriptors(&s);
    assert_eq!(
        v[0],
        Descriptor::Slider { id: ControlId::NumSides, value: 8000, min: 3000, max: 15000 }
    );
}
