//! Two-dimensional vectors for sizes and positions.

use vstd::prelude::*;

verus! {

/// A pair of coordinates: a size in pixels, a position, or a pointer report.
#[derive(Clone, Copy, Debug, PartialEq, Eq)]
pub struct Vector2<T> {
    pub x: T,
    pub y: T,
}

impl<T> Vector2<T> {
    pub fn new(x: T, y: T) -> (r: Vector2<T>)
        ensures
            r.x == x,
            r.y == y,
    {
        Vector2 { x, y }
    }
}

} // verus!
