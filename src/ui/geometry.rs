//! Positions, sizes and alignment on the terminal grid.

use vstd::prelude::*;

verus! {

/// A position or a size on the terminal grid.
#[derive(Clone, Copy, Debug, PartialEq, Eq, Structural)]
pub struct Vec2 {
    pub x: usize,
    pub y: usize,
}

impl Vec2 {
    pub fn new(x: usize, y: usize) -> (r: Vec2)
        ensures
            r.x == x,
            r.y == y,
    {
        Vec2 { x, y }
    }

    pub fn zero() -> (r: Vec2)
        ensures
            r.x == 0,
            r.y == 0,
    {
        Vec2 { x: 0, y: 0 }
    }
}

} // verus!

verus! {

/// Where content sits horizontally in a wider container.
#[derive(Clone, Copy, Debug, PartialEq, Eq, Structural)]
pub enum HAlign {
    Left,
    Center,
    Right,
}

/// Where content sits vertically in a taller container.
#[derive(Clone, Copy, Debug, PartialEq, Eq, Structural)]
pub enum VAlign {
    Top,
    Center,
    Bottom,
}

/// Horizontal and vertical alignment together.
#[derive(Clone, Copy, Debug, PartialEq, Eq, Structural)]
pub struct Align {
    pub h: HAlign,
    pub v: VAlign,
}

impl Align {
    pub fn top_left() -> (r: Align)
        ensures
            r.h == HAlign::Left,
            r.v == VAlign::Top,
    {
        Align { h: HAlign::Left, v: VAlign::Top }
    }
}

} // verus!
