//! Plain value types: 2-D points and RGBA colors.
//!
//! Coordinates and color channels are Q16.16 fixed-point scalars
//! (see `crate::fixed`), so `SCALE` stands for 1.0.

use vstd::prelude::*;
use crate::fixed::fx_wf;

verus! {

/// An (x, y) coordinate pair in device space. A pure value with no identity.
#[derive(Clone, Copy, Debug, PartialEq, Eq, Structural)]
pub struct Point {
    pub x: i64,
    pub y: i64,
}

impl Point {
    pub fn new(x: i64, y: i64) -> (p: Point)
        ensures
            p == (Point { x, y }),
    {
        Point { x, y }
    }
}

/// A well-formed point: both coordinates are well-formed scalars.
pub open spec fn point_wf(p: Point) -> bool {
    fx_wf(p.x as int) && fx_wf(p.y as int)
}

/// An RGBA color; each channel is a fixed-point scalar where `SCALE` is
/// full intensity.
#[derive(Clone, Copy, Debug, PartialEq, Eq, Structural)]
pub struct Color {
    pub red: i64,
    pub green: i64,
    pub blue: i64,
    pub alpha: i64,
}

impl Color {
    pub fn new(red: i64, green: i64, blue: i64, alpha: i64) -> (c: Color)
        ensures
            c == (Color { red, green, blue, alpha }),
    {
        Color { red, green, blue, alpha }
    }
}

} // verus!
