use vstd::prelude::*;

verus! {

/// A point or a direction on the grid; equal when equal component by component.
#[derive(PartialEq, Eq, Structural, Clone, Copy, Debug)]
pub struct Vector2 {
    pub x: i32,
    pub y: i32,
}

impl Vector2 {
    pub fn new(x: i32, y: i32) -> (v: Vector2)
        ensures
            v == (Vector2 { x: x, y: y }),
    {
        Vector2 { x, y }
    }

    /// Component-wise sum, added into the receiver.
    pub fn add(&mut self, vector: Vector2)
        requires
            i32::MIN <= old(self).x + vector.x <= i32::MAX,
            i32::MIN <= old(self).y + vector.y <= i32::MAX,
        ensures
            final(self).x == old(self).x + vector.x,
            final(self).y == old(self).y + vector.y,
    {
        self.x = self.x + vector.x;
        self.y = self.y + vector.y;
    }
}

} // verus!
