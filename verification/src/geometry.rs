//! Integer geometry: vectors, rectangles and layout constraints.
//!
//! All coordinates are whole pixels. An unbounded constraint axis is
//! written as `UNBOUNDED` (the largest `u32`), which plays the role of an
//! infinite upper bound in the layout protocol.

use vstd::prelude::*;

verus! {

/// The sentinel for an unbounded constraint axis.
pub const UNBOUNDED: u32 = 0xFFFF_FFFF;

/// A two-dimensional vector of unsigned pixel coordinates.
#[derive(Clone, Copy, Debug, PartialEq, Eq, Structural)]
pub struct UVec2 {
    pub x: u32,
    pub y: u32,
}

impl UVec2 {
    pub fn new(x: u32, y: u32) -> (r: UVec2)
        ensures
            r.x == x,
            r.y == y,
    {
        UVec2 { x, y }
    }

    /// The origin.
    pub fn zero() -> (r: UVec2)
        ensures
            r.x == 0,
            r.y == 0,
    {
        UVec2 { x: 0, y: 0 }
    }

    /// Component-wise maximum of two vectors.
    pub fn max(self, other: UVec2) -> (r: UVec2)
        ensures
            r == self.spec_max(other),
    {
        UVec2 {
            x: if self.x >= other.x {
                self.x
            } else {
                other.x
            },
            y: if self.y >= other.y {
                self.y
            } else {
                other.y
            },
        }
    }

    pub open spec fn spec_max(self, other: UVec2) -> UVec2 {
        UVec2 {
            x: if self.x >= other.x {
                self.x
            } else {
                other.x
            },
            y: if self.y >= other.y {
                self.y
            } else {
                other.y
            },
        }
    }
}

/// An axis-aligned rectangle in atlas pixel coordinates: origin plus size.
#[derive(Clone, Copy, Debug, PartialEq, Eq, Structural)]
pub struct URect {
    pub pos: UVec2,
    pub size: UVec2,
}

impl URect {
    pub fn from_pos_size(pos: UVec2, size: UVec2) -> (r: URect)
        ensures
            r.pos == pos,
            r.size == size,
    {
        URect { pos, size }
    }

    /// Two rectangles are disjoint when they share no pixel; an empty
    /// rectangle is disjoint from everything.
    pub open spec fn disjoint(self, other: URect) -> bool {
        ||| self.pos.x + self.size.x <= other.pos.x
        ||| other.pos.x + other.size.x <= self.pos.x
        ||| self.pos.y + self.size.y <= other.pos.y
        ||| other.pos.y + other.size.y <= self.pos.y
    }
}

/// A constraint box handed to a node during layout: the node must report
/// a size between `min` and `max` (component-wise).
#[derive(Clone, Copy, Debug, PartialEq, Eq, Structural)]
pub struct Constraints {
    pub min: UVec2,
    pub max: UVec2,
}

impl Constraints {
    /// A loose constraint: anything up to `max`.
    pub fn loose(max: UVec2) -> (r: Constraints)
        ensures
            r.min == (UVec2 { x: 0, y: 0 }),
            r.max == max,
    {
        Constraints { min: UVec2::zero(), max }
    }

    /// Clamps `size` into the constraint box.
    pub fn constrain(self, size: UVec2) -> (r: UVec2)
        ensures
            r == self.spec_constrain(size),
    {
        UVec2 { x: clamp_u32(size.x, self.min.x, self.max.x), y: clamp_u32(size.y, self.min.y, self.max.y) }
    }

    pub open spec fn spec_constrain(self, size: UVec2) -> UVec2 {
        UVec2 {
            x: spec_clamp_u32(size.x, self.min.x, self.max.x),
            y: spec_clamp_u32(size.y, self.min.y, self.max.y),
        }
    }
}

/// Clamp `v` to `[lo, hi]`; when `lo > hi` the lower bound wins, as with
/// a minimum size that exceeds the available space.
pub fn clamp_u32(v: u32, lo: u32, hi: u32) -> (r: u32)
    ensures
        r == spec_clamp_u32(v, lo, hi),
{
    let capped: u32 = if v <= hi {
        v
    } else {
        hi
    };
    if capped >= lo {
        capped
    } else {
        lo
    }
}

pub open spec fn spec_clamp_u32(v: u32, lo: u32, hi: u32) -> u32 {
    let capped = if v <= hi {
        v
    } else {
        hi
    };
    if capped >= lo {
        capped
    } else {
        lo
    }
}

/// How a flex participant wants its share of space filled.
#[derive(Clone, Copy, Debug, PartialEq, Eq, Structural)]
pub enum FlexFit {
    Loose,
    Tight,
}

} // verus!
