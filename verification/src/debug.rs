//! Lines that the simulation draws into the snapshot for debugging.
use vstd::prelude::*;
use crate::arith::abs;
use crate::math::{Vec2, LENGTH_LIMIT};

verus! {

/// A line from `start` to `end` in the given colour: red, green, blue and
/// opacity.
#[derive(Clone, Copy, Debug)]
pub struct DebugLine {
    pub start: Vec2,
    pub end: Vec2,
    pub color: (u8, u8, u8, u8),
}

impl DebugLine {
    /// A white line from `start` to `end`.
    pub fn new(start: Vec2, end: Vec2) -> (r: DebugLine)
        ensures
            r == (DebugLine { start, end, color: (255u8, 255u8, 255u8, 255u8) }),
    {
        DebugLine { start, end, color: (255, 255, 255, 255) }
    }

    /// A white line of the given length from `start` along `angle`.
    pub fn from_angle(start: Vec2, angle: i64, length: i64) -> (r: DebugLine)
        requires
            start.within(LENGTH_LIMIT as int),
            abs(length as int) <= LENGTH_LIMIT,
        ensures
            r.start == start,
            r.end.x == start.x + Vec2::direction(angle as int, length as int).x,
            r.end.y == start.y + Vec2::direction(angle as int, length as int).y,
            r.color == (255u8, 255u8, 255u8, 255u8),
    {
        DebugLine {
            start,
            end: start.add(Vec2::from_direction(angle, length)),
            color: (255, 255, 255, 255),
        }
    }

    /// The line in the given colour, opaque.
    pub fn rgb(self, r: u8, g: u8, b: u8) -> (line: DebugLine)
        ensures
            line == (DebugLine { color: (r, g, b, 255u8), ..self }),
    {
        self.rgba(r, g, b, 255)
    }

    /// The line in the given colour.
    pub fn rgba(self, r: u8, g: u8, b: u8, a: u8) -> (line: DebugLine)
        ensures
            line == (DebugLine { color: (r, g, b, a), ..self }),
    {
        DebugLine { color: (r, g, b, a), ..self }
    }
}

} // verus!
