//! Drawable primitives handed to the rendering surface.
//!
//! Coordinates are exact fixed-point numbers: an `i128` holds the real
//! coordinate multiplied by [`SCALE`]. `SCALE` is divisible by every
//! denominator the renderer's transform produces (the lane counts 4 and 5,
//! their squares, 10, 2, and the spacing numerators 47 and 39), so no
//! coordinate is ever rounded.

use vstd::prelude::*;

verus! {

/// Fixed-point scale of all coordinates: 2^4 * 3 * 5^2 * 13 * 47.
pub const SCALE: i128 = 733200;

/// A display colour: one of the named terminal colours or an RGB triple.
#[derive(Clone, Copy, Debug, PartialEq, Eq, Structural)]
pub enum Color {
    White,
    Green,
    Red,
    Yellow,
    Blue,
    Rgb(u8, u8, u8),
}

/// A straight line between two points, in fixed-point coordinates.
#[derive(Clone, Copy, Debug, PartialEq, Eq, Structural)]
pub struct LineShape {
    pub x1: i128,
    pub y1: i128,
    pub x2: i128,
    pub y2: i128,
    pub color: Color,
}

/// A filled circle, in fixed-point coordinates.
#[derive(Clone, Copy, Debug, PartialEq, Eq, Structural)]
pub struct CircleShape {
    pub x: i128,
    pub y: i128,
    pub radius: i128,
    pub color: Color,
}

/// One element of the ordered list a frame is drawn from. `LayerBreak`
/// separates the visual layers (lane separators, scroll grid, note markers).
#[derive(Clone, Copy, Debug, PartialEq, Eq, Structural)]
pub enum Primitive {
    Line(LineShape),
    Circle(CircleShape),
    LayerBreak,
}

} // verus!
