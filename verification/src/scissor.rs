//! Scissor rectangles: clip rectangles clamped to the canvas and flipped to
//! OpenGL's bottom-left origin.

use vstd::prelude::*;
use vstd::arithmetic::div_mod::{
    lemma_div_is_ordered,
    lemma_div_multiples_vanish_fancy,
    lemma_div_pos_is_pos,
};

verus! {

/// A clip rectangle in physical pixels, measured from the top-left corner of
/// the canvas. The coordinates are already scaled from logical points and
/// rounded to whole pixels.
#[derive(Clone, Copy, Debug, PartialEq, Eq, Structural)]
pub struct PixelRect {
    pub min_x: i32,
    pub min_y: i32,
    pub max_x: i32,
    pub max_y: i32,
}

/// A scissor box in physical pixels, measured from the bottom-left corner of
/// the canvas, as OpenGL expects it.
#[derive(Clone, Copy, Debug, PartialEq, Eq, Structural)]
pub struct Scissor {
    pub x: u32,
    pub y: u32,
    pub width: u32,
    pub height: u32,
}

/// `v` limited to the interval `[lo, hi]`.
pub open spec fn clamp(v: int, lo: int, hi: int) -> int {
    if v < lo {
        lo
    } else if v > hi {
        hi
    } else {
        v
    }
}

/// Left edge of the clamped rectangle: `min` limited to `[0, extent]`.
pub open spec fn clamped_min(min: int, extent: int) -> int {
    clamp(min, 0, extent)
}

/// Right edge of the clamped rectangle: `max` limited to
/// `[clamped_min(min, extent), extent]`.
pub open spec fn clamped_max(min: int, max: int, extent: int) -> int {
    clamp(max, clamped_min(min, extent), extent)
}

/// The scissor box of `clip` on a canvas of `canvas_width` by `canvas_height`
/// pixels. Each axis is clamped on its own; the vertical axis is flipped.
pub open spec fn scissor_of(canvas_width: u32, canvas_height: u32, clip: PixelRect) -> Scissor {
    let w = canvas_width as int;
    let h = canvas_height as int;
    Scissor {
        x: clamped_min(clip.min_x as int, w) as u32,
        y: (h - clamped_max(clip.min_y as int, clip.max_y as int, h)) as u32,
        width: (clamped_max(clip.min_x as int, clip.max_x as int, w) - clamped_min(
            clip.min_x as int,
            w,
        )) as u32,
        height: (clamped_max(clip.min_y as int, clip.max_y as int, h) - clamped_min(
            clip.min_y as int,
            h,
        )) as u32,
    }
}

/// One axis of the clamping: returns the clamped `(min, max)` pair.
fn clamp_axis(min: i32, max: i32, extent: u32) -> (r: (u32, u32))
    ensures
        r.0 == clamped_min(min as int, extent as int),
        r.1 == clamped_max(min as int, max as int, extent as int),
        r.0 <= r.1 <= extent,
{
    let lo: u32 = if min < 0 {
        0
    } else if min as u32 > extent {
        extent
    } else {
        min as u32
    };
    let hi: u32 = if max < 0 {
        lo
    } else if (max as u32) < lo {
        lo
    } else if max as u32 > extent {
        extent
    } else {
        max as u32
    };
    (lo, hi)
}

/// Computes the scissor box for a clip rectangle.
///
/// The box never leaves the canvas: `x + width <= canvas_width` and
/// `y + height <= canvas_height`, whatever the clip rectangle is.
pub fn scissor_rect(canvas_width: u32, canvas_height: u32, clip: PixelRect) -> (s: Scissor)
    ensures
        s == scissor_of(canvas_width, canvas_height, clip),
        s.x + s.width <= canvas_width,
        s.y + s.height <= canvas_height,
{
    let (left, right) = clamp_axis(clip.min_x, clip.max_x, canvas_width);
    let (top, bottom) = clamp_axis(clip.min_y, clip.max_y, canvas_height);
    Scissor { x: left, y: canvas_height - bottom, width: right - left, height: bottom - top }
}

/// The whole number nearest to the fraction `p / q`, where `q` is positive;
/// a fraction halfway between two whole numbers goes to the one farther
/// from zero.
pub open spec fn rounded(p: int, q: int) -> int {
    if p >= 0 {
        (2 * p + q) / (2 * q)
    } else {
        -((2 * (-p) + q) / (2 * q))
    }
}

/// The fraction `p / q` limited to `[lo, hi]`, as a numerator over `q`.
pub open spec fn clamped_numerator(p: int, q: int, lo: int, hi: int) -> int {
    if p < lo * q {
        lo * q
    } else if p > hi * q {
        hi * q
    } else {
        p
    }
}

/// Rounding leaves a whole number as it is.
proof fn lemma_rounded_whole(k: int, q: int)
    requires
        q > 0,
    ensures
        rounded(k * q, q) == k,
{
    if k >= 0 {
        assert(k * q >= 0) by (nonlinear_arith)
            requires
                k >= 0,
                q > 0,
        ;
        assert(2 * (k * q) + q == (2 * q) * k + q) by (nonlinear_arith);
        lemma_div_multiples_vanish_fancy(k, q, 2 * q);
    } else {
        assert(k * q < 0) by (nonlinear_arith)
            requires
                k < 0,
                q > 0,
        ;
        assert(2 * (-(k * q)) + q == (2 * q) * (-k) + q) by (nonlinear_arith);
        lemma_div_multiples_vanish_fancy(-k, q, 2 * q);
    }
}

/// Rounding keeps the order of fractions with one denominator.
proof fn lemma_rounded_ordered(lower: int, upper: int, q: int)
    requires
        q > 0,
        lower <= upper,
    ensures
        rounded(lower, q) <= rounded(upper, q),
{
    if lower >= 0 {
        lemma_div_is_ordered(2 * lower + q, 2 * upper + q, 2 * q);
    } else if upper >= 0 {
        lemma_div_pos_is_pos(2 * (-lower) + q, 2 * q);
        lemma_div_pos_is_pos(2 * upper + q, 2 * q);
    } else {
        lemma_div_is_ordered(2 * (-upper) + q, 2 * (-lower) + q, 2 * q);
    }
}

/// Limiting a fraction to an interval between whole numbers and rounding
/// the result gives the same whole number as rounding the fraction and
/// limiting that. So a clip rectangle may be rounded to whole pixels before
/// [`scissor_rect`] clamps it to the canvas: the scissor box is the one of
/// the rectangle clamped first and rounded afterwards.
pub proof fn theorem_rounding_commutes_with_clamping(p: int, q: int, lo: int, hi: int)
    requires
        q > 0,
        lo <= hi,
    ensures
        rounded(clamped_numerator(p, q, lo, hi), q) == clamp(rounded(p, q), lo, hi),
{
    lemma_rounded_whole(lo, q);
    lemma_rounded_whole(hi, q);
    if p < lo * q {
        lemma_rounded_ordered(p, lo * q, q);
    } else if p > hi * q {
        lemma_rounded_ordered(hi * q, p, q);
    } else {
        lemma_rounded_ordered(lo * q, p, q);
        lemma_rounded_ordered(p, hi * q, q);
    }
}

} // verus!
