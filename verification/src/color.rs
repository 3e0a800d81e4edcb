use vstd::prelude::*;

verus! {

/// An 8-bit-per-channel RGB color, as the renderer consumes it.
#[derive(Clone, Copy, Debug, PartialEq, Eq, Structural)]
pub struct Rgb8 {
    pub red: u8,
    pub green: u8,
    pub blue: u8,
}

/// How many colors the fixed palette holds.
pub const PALETTE_SIZE: u32 = 5;

/// The fixed palette, by index: dodger blue, white, steel blue, light sky
/// blue, dark turquoise. Particles draw their color from this small set
/// rather than from the full RGB cube, for visual coherence.
pub open spec fn palette_spec(i: int) -> Rgb8 {
    if i == 0 {
        Rgb8 { red: 30, green: 144, blue: 255 }
    } else if i == 1 {
        Rgb8 { red: 255, green: 255, blue: 255 }
    } else if i == 2 {
        Rgb8 { red: 70, green: 130, blue: 180 }
    } else if i == 3 {
        Rgb8 { red: 135, green: 206, blue: 250 }
    } else {
        Rgb8 { red: 0, green: 206, blue: 209 }
    }
}

/// Whether `c` is one of the five palette colors.
pub open spec fn in_palette(c: Rgb8) -> bool {
    exists|i: int| 0 <= i < PALETTE_SIZE && c == palette_spec(i)
}

/// The palette color at index `i`.
pub fn palette(i: u32) -> (c: Rgb8)
    requires
        i < PALETTE_SIZE,
    ensures
        c == palette_spec(i as int),
        in_palette(c),
{
    let c = if i == 0 {
        Rgb8 { red: 30, green: 144, blue: 255 }
    } else if i == 1 {
        Rgb8 { red: 255, green: 255, blue: 255 }
    } else if i == 2 {
        Rgb8 { red: 70, green: 130, blue: 180 }
    } else if i == 3 {
        Rgb8 { red: 135, green: 206, blue: 250 }
    } else {
        Rgb8 { red: 0, green: 206, blue: 209 }
    };
    assert(in_palette(c)) by {
        assert(c == palette_spec(i as int));
    }
    c
}

/// The color of the `i`-th circle in the revolving-rings view: steel blue
/// and white alternate.
pub fn ring_color(i: u32) -> (c: Rgb8)
    ensures
        i % 2 == 0 ==> c == palette_spec(2),
        i % 2 != 0 ==> c == palette_spec(1),
        in_palette(c),
{
    if i % 2 == 0 {
        palette(2)
    } else {
        palette(1)
    }
}

} // verus!
