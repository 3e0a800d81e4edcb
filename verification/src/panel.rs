use vstd::prelude::*;

use crate::field::{channel_from, channel_spec};
use crate::geom::{clamp_i64, clamp_int, Vec2};
use crate::rng::draw_u32;

verus! {

/// Fewest sides the drawn polygon may have.
pub const SIDES_MIN: u32 = 3;

/// Most sides the drawn polygon may have.
pub const SIDES_MAX: u32 = 15;

/// Smallest scale, in milli-pixels.
pub const SCALE_MIN_MILLI: i64 = 10_000;

/// Largest scale, in milli-pixels.
pub const SCALE_MAX_MILLI: i64 = 500_000;

/// The rotation bound: pi in micro-radians, rounded to the nearest integer.
pub const ROTATION_LIMIT_MICRO: i64 = 3_141_593;

/// How far the shape may sit from the origin, per axis, in milli-pixels:
/// the touch-pad's own domain.
pub const POSITION_LIMIT_MILLI: i64 = 300_000;

/// Full intensity of a color channel, in thousandths.
pub const CHANNEL_FULL_MILLI: u32 = 1000;

/// A color with channels in thousandths of full intensity.
#[derive(Clone, Copy, Debug, PartialEq, Eq, Structural)]
pub struct ColorMilli {
    pub red: u32,
    pub green: u32,
    pub blue: u32,
}

/// The shape parameters that the reactive control panel owns. Every field is
/// kept inside its declared domain by the panel's fold; nothing else mutates
/// them.
#[derive(Clone, Copy, Debug, PartialEq, Eq, Structural)]
pub struct ControlState {
    /// Number of polygon sides, in `[SIDES_MIN, SIDES_MAX]`.
    pub num_sides: u32,
    /// Shape scale in milli-pixels, in `[SCALE_MIN_MILLI, SCALE_MAX_MILLI]`.
    pub scale: i64,
    /// Rotation in micro-radians, within the pi bound either way.
    pub rotation: i64,
    /// Shape color, channels in thousandths.
    pub color: ColorMilli,
    /// Shape position in milli-pixels, each axis within the pad's domain.
    pub position: Vec2,
}

/// The user-driven deltas one tick of the widget system may hand back: at
/// most one pending value per control, absent by default.
#[derive(Clone, Copy, Debug)]
pub struct PanelInputs {
    /// Latest drag value of the sides slider this tick, in milli-sides.
    pub num_sides: Option<i64>,
    /// Latest drag value of the scale slider, in milli-pixels.
    pub scale: Option<i64>,
    /// Latest drag value of the rotation slider, in micro-radians.
    pub rotation: Option<i64>,
    /// Whether the random-color button was clicked this tick.
    pub color_click: bool,
    /// Latest touch-pad value, in milli-pixels per axis.
    pub pad: Option<Vec2>,
}

impl PanelInputs {
    /// A tick on which the user touched nothing.
    pub fn none() -> (inp: PanelInputs)
        ensures
            inp.num_sides is None,
            inp.scale is None,
            inp.rotation is None,
            !inp.color_click,
            inp.pad is None,
    {
        PanelInputs { num_sides: None, scale: None, rotation: None, color_click: false, pad: None }
    }
}

/// One tick's worth of panel input together with the three uniform draws
/// that recolor the shape if the button was clicked.
#[derive(Clone, Copy, Debug)]
pub struct PanelTick {
    pub inputs: PanelInputs,
    pub red_draw: u32,
    pub green_draw: u32,
    pub blue_draw: u32,
}

/// A slider value folded into the sides field: truncated to whole sides and
/// clamped to `[SIDES_MIN, SIDES_MAX]`.
pub open spec fn sides_from(v: int) -> int {
    clamp_int(v, 3000, 15999) / 1000
}

/// A slider value folded into the scale field: clamped to its domain.
pub open spec fn scale_from(v: int) -> int {
    clamp_int(v, SCALE_MIN_MILLI as int, SCALE_MAX_MILLI as int)
}

/// A slider value folded into the rotation field: clamped to the pi bound.
pub open spec fn rotation_from(v: int) -> int {
    clamp_int(v, -ROTATION_LIMIT_MICRO as int, ROTATION_LIMIT_MICRO as int)
}

/// A pad value folded into the position field: each axis clamped to the
/// pad's domain.
pub open spec fn position_from(p: Vec2) -> Vec2 {
    Vec2 {
        x: clamp_int(p.x as int, -POSITION_LIMIT_MILLI as int, POSITION_LIMIT_MILLI as int) as i64,
        y: clamp_int(p.y as int, -POSITION_LIMIT_MILLI as int, POSITION_LIMIT_MILLI as int) as i64,
    }
}

impl ControlState {
    /// Every field inside its declared domain.
    pub open spec fn wf(self) -> bool {
        &&& SIDES_MIN <= self.num_sides <= SIDES_MAX
        &&& SCALE_MIN_MILLI <= self.scale <= SCALE_MAX_MILLI
        &&& -ROTATION_LIMIT_MICRO <= self.rotation <= ROTATION_LIMIT_MICRO
        &&& self.color.red <= CHANNEL_FULL_MILLI
        &&& self.color.green <= CHANNEL_FULL_MILLI
        &&& self.color.blue <= CHANNEL_FULL_MILLI
        &&& -POSITION_LIMIT_MILLI <= self.position.x <= POSITION_LIMIT_MILLI
        &&& -POSITION_LIMIT_MILLI <= self.position.y <= POSITION_LIMIT_MILLI
    }

    /// The state the panel starts in: a magenta pentagon of scale 200
    /// pixels, unrotated, at the origin.
    pub open spec fn initial_spec() -> ControlState {
        ControlState {
            num_sides: 5,
            scale: 200_000,
            rotation: 0,
            color: ColorMilli { red: 1000, green: 0, blue: 1000 },
            position: Vec2 { x: 0, y: 0 },
        }
    }

    /// Build the initial panel state.
    pub fn initial() -> (s: ControlState)
        ensures
            s == ControlState::initial_spec(),
            s.wf(),
    {
        ControlState {
            num_sides: 5,
            scale: 200_000,
            rotation: 0,
            color: ColorMilli { red: 1000, green: 0, blue: 1000 },
            position: Vec2 { x: 0, y: 0 },
        }
    }
}

/// The panel state after one tick: each control's pending value, if any, is
/// folded into its field, clamped to that field's domain; a button click
/// recolors the shape from the three draws; untouched fields stay.
pub open spec fn panel_step(
    s: ControlState,
    inp: PanelInputs,
    r: u32,
    g: u32,
    b: u32,
) -> ControlState {
    ControlState {
        num_sides: match inp.num_sides {
            Some(v) => sides_from(v as int) as u32,
            None => s.num_sides,
        },
        scale: match inp.scale {
            Some(v) => scale_from(v as int) as i64,
            None => s.scale,
        },
        rotation: match inp.rotation {
            Some(v) => rotation_from(v as int) as i64,
            None => s.rotation,
        },
        color: if inp.color_click {
            ColorMilli {
                red: channel_spec(r) as u32,
                green: channel_spec(g) as u32,
                blue: channel_spec(b) as u32,
            }
        } else {
            s.color
        },
        position: match inp.pad {
            Some(p) => position_from(p),
            None => s.position,
        },
    }
}

/// Fold one tick of widget input into the state, with the given color
/// draws. Pure in all its arguments: the deterministic heart of the panel.
pub fn apply_inputs(s: ControlState, inp: &PanelInputs, r: u32, g: u32, b: u32) -> (t: ControlState)
    ensures
        t == panel_step(s, *inp, r, g, b),
        !inp.color_click ==> t.color == s.color,
        inp.color_click ==> t.color == (ColorMilli {
            red: channel_spec(r) as u32,
            green: channel_spec(g) as u32,
            blue: channel_spec(b) as u32,
        }),
        s.wf() ==> t.wf(),
{
    let num_sides: u32 = match inp.num_sides {
        Some(v) => {
            let c = clamp_i64(v, 3000, 15999);
            ((c as u64) / 1000) as u32
        },
        None => s.num_sides,
    };
    let scale: i64 = match inp.scale {
        Some(v) => clamp_i64(v, SCALE_MIN_MILLI, SCALE_MAX_MILLI),
        None => s.scale,
    };
    let rotation: i64 = match inp.rotation {
        Some(v) => clamp_i64(v, -ROTATION_LIMIT_MICRO, ROTATION_LIMIT_MICRO),
        None => s.rotation,
    };
    let color: ColorMilli = if inp.color_click {
        ColorMilli { red: channel_from(r), green: channel_from(g), blue: channel_from(b) }
    } else {
        s.color
    };
    let position: Vec2 = match inp.pad {
        Some(p) => Vec2 {
            x: clamp_i64(p.x, -POSITION_LIMIT_MILLI, POSITION_LIMIT_MILLI),
            y: clamp_i64(p.y, -POSITION_LIMIT_MILLI, POSITION_LIMIT_MILLI),
        },
        None => s.position,
    };
    ControlState { num_sides, scale, rotation, color, position }
}

impl ControlState {
    /// One tick of the panel: read back this tick's pending widget values
    /// and fold them in; a click of the color button draws three fresh
    /// uniform channels. Whatever the draws, the result is one `panel_step`
    /// of the old state, so every field stays in its domain.
    pub fn update(&mut self, inp: &PanelInputs)
        ensures
            old(self).wf() ==> final(self).wf(),
            !inp.color_click ==> *final(self) == panel_step(*old(self), *inp, 0, 0, 0),
            inp.color_click ==> exists|r: u32, g: u32, b: u32|
                *final(self) == panel_step(*old(self), *inp, r, g, b),
            !inp.color_click ==> final(self).color == old(self).color,
    {
        let t = if inp.color_click {
            let r = draw_u32();
            let g = draw_u32();
            let b = draw_u32();
            let t = apply_inputs(*self, inp, r, g, b);
            t
        } else {
            apply_inputs(*self, inp, 0, 0, 0)
        };
        *self = t;
    }
}

/// Which control a descriptor stands for.
#[derive(Clone, Copy, Debug, PartialEq, Eq, Structural)]
pub enum ControlId {
    NumSides,
    Scale,
    Rotation,
    RandomColor,
    Position,
}

/// A transient description of one interactive control, rebuilt from the
/// authoritative state every tick and handed to the widget system — never
/// persisted, so the UI cannot drift from the state. Values and bounds are
/// in the control's own fixed-point unit: milli-sides for the sides slider,
/// milli-pixels for scale and the pad, micro-radians for rotation.
#[derive(Clone, Copy, Debug, PartialEq, Eq, Structural)]
pub enum Descriptor {
    Slider { id: ControlId, value: i64, min: i64, max: i64 },
    Button { id: ControlId },
    Pad { id: ControlId, x: i64, y: i64, limit: i64 },
}

/// The five descriptors that present the state `s`: three sliders, the
/// color button, and the position pad, each showing the current value.
pub open spec fn descriptors_spec(s: ControlState) -> Seq<Descriptor> {
    seq![
        Descriptor::Slider {
            id: ControlId::NumSides,
            value: (s.num_sides * 1000) as i64,
            min: 3000,
            max: 15000,
        },
        Descriptor::Slider {
            id: ControlId::Scale,
            value: s.scale,
            min: SCALE_MIN_MILLI,
            max: SCALE_MAX_MILLI,
        },
        Descriptor::Slider {
            id: ControlId::Rotation,
            value: s.rotation,
            min: -ROTATION_LIMIT_MICRO as int as i64,
            max: ROTATION_LIMIT_MICRO,
        },
        Descriptor::Button { id: ControlId::RandomColor },
        Descriptor::Pad {
            id: ControlId::Position,
            x: s.position.x,
            y: s.position.y,
            limit: POSITION_LIMIT_MILLI,
        },
    ]
}

/// Rebuild the control descriptors from the current state: a pure function
/// of the state, called afresh every tick.
pub fn build_descriptors(s: &ControlState) -> (v: Vec<Descriptor>)
    ensures
        v@ == descriptors_spec(*s),
{
    let mut v: Vec<Descriptor> = Vec::new();
    v.push(
        Descriptor::Slider {
            id: ControlId::NumSides,
            value: (s.num_sides as i64) * 1000,
            min: 3000,
            max: 15000,
        },
    );
    v.push(
        Descriptor::Slider {
            id: ControlId::Scale,
            value: s.scale,
            min: SCALE_MIN_MILLI,
            max: SCALE_MAX_MILLI,
        },
    );
    v.push(
        Descriptor::Slider {
            id: ControlId::Rotation,
            value: s.rotation,
            min: -ROTATION_LIMIT_MICRO,
            max: ROTATION_LIMIT_MICRO,
        },
    );
    v.push(Descriptor::Button { id: ControlId::RandomColor });
    v.push(
        Descriptor::Pad {
            id: ControlId::Position,
            x: s.position.x,
            y: s.position.y,
            limit: POSITION_LIMIT_MILLI,
        },
    );
    proof {
        assert(v@ =~= descriptors_spec(*s));
    }
    v
}

/// The panel state after a whole run of ticks, folded left to right.
pub open spec fn panel_run(s: ControlState, ticks: Seq<PanelTick>) -> ControlState
    decreases ticks.len(),
{
    if ticks.len() == 0 {
        s
    } else {
        panel_run(
            panel_step(s, ticks[0].inputs, ticks[0].red_draw, ticks[0].green_draw, ticks[0].blue_draw),
            ticks.drop_first(),
        )
    }
}

/// One tick keeps every field in its domain, whatever values the widget
/// system hands back — clamping holds under adversarial input.
pub proof fn lemma_panel_step_wf(s: ControlState, inp: PanelInputs, r: u32, g: u32, b: u32)
    requires
        s.wf(),
    ensures
        panel_step(s, inp, r, g, b).wf(),
{
    crate::field::lemma_channel_range(r);
    crate::field::lemma_channel_range(g);
    crate::field::lemma_channel_range(b);
}

/// Clamping holds over every run: for every well-formed start state and
/// every sequence of ticks — slider drags, clicks and pad moves of any
/// values whatever — the state after the run is still well-formed.
pub proof fn lemma_panel_run_wf(s: ControlState, ticks: Seq<PanelTick>)
    requires
        s.wf(),
    ensures
        panel_run(s, ticks).wf(),
    decreases ticks.len(),
{
    if ticks.len() > 0 {
        lemma_panel_step_wf(s, ticks[0].inputs, ticks[0].red_draw, ticks[0].green_draw, ticks[0].blue_draw);
        lemma_panel_run_wf(
            panel_step(s, ticks[0].inputs, ticks[0].red_draw, ticks[0].green_draw, ticks[0].blue_draw),
            ticks.drop_first(),
        );
    }
}

} // verus!
