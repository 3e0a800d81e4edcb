use vstd::prelude::*;

use crate::canvas::{HALF_HEIGHT_MILLI, HALF_WIDTH_MILLI, SCREEN_HEIGHT_PX, SCREEN_WIDTH_PX};
use crate::color::{in_palette, palette, palette_spec, Rgb8, PALETTE_SIZE};
use crate::geom::Vec2;
use crate::rng::draw_u32;
use vstd::arithmetic::div_mod::{lemma_div_pos_is_pos, lemma_multiply_divide_lt};

verus! {

/// A uniform draw `r` over all of `u32`, scaled into `[0, k)`: the integer
/// part of `(r / 2^32) * k`.
pub open spec fn scaled(r: u32, k: int) -> int {
    (r as int * k) / 0x1_0000_0000
}

/// Scaling a 32-bit draw into `[0, k)` indeed lands in `[0, k)`.
proof fn lemma_scaled_range(r: u32, k: int)
    requires
        0 < k,
    ensures
        0 <= scaled(r, k) < k,
{
    assert(0 <= (r as int) * k && (r as int) * k < 0x1_0000_0000 * k) by (nonlinear_arith)
        requires
            0 <= (r as int) < 0x1_0000_0000,
            0 < k;
    lemma_multiply_divide_lt(r as int * k, 0x1_0000_0000, k);
    lemma_div_pos_is_pos(r as int * k, 0x1_0000_0000);
}

/// Scale the draw `r` into `[0, k)` by fixed-point arithmetic.
fn scale_draw(r: u32, k: u64) -> (q: u64)
    requires
        0 < k <= 2_000_000_000,
    ensures
        q == scaled(r, k as int),
        q < k,
{
    proof {
        assert((r as int) * (k as int) <= 0xFFFF_FFFF * 2_000_000_000) by (nonlinear_arith)
            requires
                0 <= (r as int) <= 0xFFFF_FFFF,
                0 <= (k as int) <= 2_000_000_000;
        lemma_scaled_range(r, k as int);
    }
    let t: u64 = (r as u64) * k;
    t / 0x1_0000_0000
}

/// One axis of the per-tick jiggle, computed from the draw `r`: the
/// fixed-point value of `3.0 * (r / 2^32 - 0.5)` pixels, in milli-pixels.
pub open spec fn bump_spec(r: u32) -> int {
    scaled(r, 3000) - 1500
}

/// One axis of the per-tick jiggle displacement, in milli-pixels: uniform
/// over `[-1.5, 1.5)` pixels.
pub fn bump(r: u32) -> (d: i64)
    ensures
        d == bump_spec(r),
        -1500 <= d < 1500,
{
    let q: u64 = scale_draw(r, 3000);
    (q as i64) - 1500
}

/// A draw scaled into a centered span: the fixed-point value of
/// `(r / 2^32 - 0.5) * size_px` pixels, in milli-pixels.
pub open spec fn offset_spec(r: u32, size_px: int) -> int {
    scaled(r, size_px * 1000) - size_px * 500
}

/// A coordinate uniform over the centered span `[-size_px/2, size_px/2)`
/// pixels, in milli-pixels. The size bound keeps the fixed-point product
/// inside the machine word.
pub fn offset_in_span(r: u32, size_px: u32) -> (d: i64)
    requires
        1 <= size_px <= 1_000_000,
    ensures
        d == offset_spec(r, size_px as int),
        -(size_px as int * 500) <= d < size_px as int * 500,
{
    let q: u64 = scale_draw(r, (size_px as u64) * 1000);
    (q as i64) - (size_px as i64) * 500
}

/// A particle radius computed from the draw `r`: the fixed-point value of
/// `1.5 + 2.0 * (r / 2^32)` pixels, in milli-pixels.
pub open spec fn radius_spec(r: u32) -> int {
    1500 + scaled(r, 2000)
}

/// A particle radius, in milli-pixels: uniform over `[1.5, 3.5)` pixels.
pub fn radius_from(r: u32) -> (rad: u32)
    ensures
        rad == radius_spec(r),
        1500 <= rad < 3500,
{
    let q: u64 = scale_draw(r, 2000);
    1500 + (q as u32)
}

/// A color channel computed from the draw `r`, in thousandths: the
/// fixed-point value of a uniform draw over `[0, 1)`.
pub open spec fn channel_spec(r: u32) -> int {
    scaled(r, 1000)
}

/// A channel value computed from any draw lands in `[0, 1000)`.
pub proof fn lemma_channel_range(r: u32)
    ensures
        0 <= channel_spec(r) < 1000,
{
    lemma_scaled_range(r, 1000);
}

/// A color channel in thousandths, uniform over `[0, 1)`.
pub fn channel_from(r: u32) -> (c: u32)
    ensures
        c == channel_spec(r),
        c < 1000,
{
    let q: u64 = scale_draw(r, 1000);
    q as u32
}

/// The palette color selected by the draw `r`.
pub fn color_from(r: u32) -> (c: Rgb8)
    ensures
        c == palette_spec((r % PALETTE_SIZE) as int),
        in_palette(c),
{
    palette(r % PALETTE_SIZE)
}

/// A point uniform over the centered canvas rectangle
/// `[-width/2, width/2) x [-height/2, height/2)`, in milli-pixels.
pub fn random_pt() -> (v: Vec2)
    ensures
        -HALF_WIDTH_MILLI <= v.x < HALF_WIDTH_MILLI,
        -HALF_HEIGHT_MILLI <= v.y < HALF_HEIGHT_MILLI,
        exists|rx: u32, ry: u32|
            v.x == offset_spec(rx, SCREEN_WIDTH_PX as int) && v.y == offset_spec(
                ry,
                SCREEN_HEIGHT_PX as int,
            ),
{
    let rx = draw_u32();
    let ry = draw_u32();
    let x = offset_in_span(rx, SCREEN_WIDTH_PX);
    let y = offset_in_span(ry, SCREEN_HEIGHT_PX);
    Vec2 { x, y }
}

/// A color drawn uniformly from the fixed five-color palette.
pub fn random_color() -> (c: Rgb8)
    ensures
        in_palette(c),
{
    color_from(draw_u32())
}

/// A small random displacement: independent uniform jiggle of at most 1.5
/// pixels per axis, in milli-pixels.
pub fn jiggle() -> (v: Vec2)
    ensures
        -1500 <= v.x < 1500,
        -1500 <= v.y < 1500,
        exists|rx: u32, ry: u32| v.x == bump_spec(rx) && v.y == bump_spec(ry),
{
    let x = bump(draw_u32());
    let y = bump(draw_u32());
    Vec2 { x, y }
}

} // verus!
