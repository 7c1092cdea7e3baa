use vstd::prelude::*;

verus! {

/// A two-dimensional integer vector, used for pixel and cell coordinates.
#[derive(Debug, Clone, Copy, PartialEq, Eq, Structural)]
pub struct Vector {
    pub x: usize,
    pub y: usize,
}

impl Vector {
    /// Creates a vector with the given components.
    pub fn new(x: usize, y: usize) -> (v: Vector)
        ensures
            v == (Vector { x, y }),
    {
        Vector { x, y }
    }

    /// Componentwise sum.
    pub fn add(self, other: Vector) -> (v: Vector)
        requires
            self.x + other.x <= usize::MAX,
            self.y + other.y <= usize::MAX,
        ensures
            v.x == self.x + other.x,
            v.y == self.y + other.y,
    {
        Vector { x: self.x + other.x, y: self.y + other.y }
    }

    /// Componentwise difference.
    pub fn sub(self, other: Vector) -> (v: Vector)
        requires
            other.x <= self.x,
            other.y <= self.y,
        ensures
            v.x == self.x - other.x,
            v.y == self.y - other.y,
    {
        Vector { x: self.x - other.x, y: self.y - other.y }
    }

    /// Componentwise product.
    pub fn mul(self, other: Vector) -> (v: Vector)
        requires
            self.x * other.x <= usize::MAX,
            self.y * other.y <= usize::MAX,
        ensures
            v.x == self.x * other.x,
            v.y == self.y * other.y,
    {
        Vector { x: self.x * other.x, y: self.y * other.y }
    }
}

impl Default for Vector {
    /// The origin.
    fn default() -> (v: Vector)
        ensures
            v == (Vector { x: 0usize, y: 0usize }),
    {
        Vector { x: 0, y: 0 }
    }
}

} // verus!
