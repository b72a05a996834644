//! A directed stretch from a point: where it starts, which way it heads and
//! how far it reaches.

use vstd::prelude::*;
use crate::position::Position;

verus! {

/// A stretch from `start` along `heading` (millidegrees, clockwise from
/// north) over `distance` (millimetres).
#[derive(Clone, Copy, Debug, PartialEq, Eq, Structural)]
pub struct Vector {
    pub start: Position,
    pub heading: i32,
    pub distance: i64,
}

impl Vector {
    /// The stretch from `start` along `heading` over `distance`.
    pub fn new(start: Position, heading: i32, distance: i64) -> (r: Vector)
        ensures
            r == (Vector { start, heading, distance }),
    {
        Vector { start, heading, distance }
    }

    /// The stretch from where a vehicle is along the heading it holds.
    pub fn from_heading(position: Position, heading: i32, distance: i64) -> (r: Vector)
        ensures
            r == (Vector { start: position, heading, distance }),
    {
        Vector::new(position, heading, distance)
    }
}

} // verus!
