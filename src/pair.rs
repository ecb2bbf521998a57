use vstd::prelude::*;

verus! {

/// A pair of two independently typed fields.
pub struct Point<T, U> {
    pub x: T,
    pub y: U,
}

impl<T: Copy, U> Point<T, U> {
    /// A new pair that takes its first field from `self` and its second
    /// field from `other`. Neither input is changed.
    pub fn swap<V, W: Copy>(&self, other: &Point<V, W>) -> (r: Point<T, W>)
        ensures
            r.x == self.x,
            r.y == other.y,
    {
        Point { x: self.x, y: other.y }
    }
}

} // verus!
