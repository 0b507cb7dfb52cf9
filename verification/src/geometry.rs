//! Plain geometry values carried alongside captured frames.

use vstd::prelude::*;

verus! {

/// A two-component vector, used for frame dimensions.
#[derive(Debug, Clone, Copy, PartialEq, Eq, Structural)]
pub struct Vector2<N> {
    pub x: N,
    pub y: N,
}

impl<N> Vector2<N> {
    pub fn new(x: N, y: N) -> (r: Vector2<N>)
        ensures
            r.x == x,
            r.y == y,
    {
        Vector2 { x, y }
    }
}

/// A dirty rectangle: a region of a frame reported as changed since the
/// previous frame. Advisory only; the pipeline passes these through.
#[derive(Debug, Clone, Copy, PartialEq, Eq, Structural)]
pub struct Rect {
    pub x: i32,
    pub y: i32,
    pub w: i32,
    pub h: i32,
}

impl Rect {
    pub fn new(x: i32, y: i32, w: i32, h: i32) -> (r: Rect)
        ensures
            r == (Rect { x, y, w, h }),
    {
        Rect { x, y, w, h }
    }
}

} // verus!
