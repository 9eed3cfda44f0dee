use vstd::prelude::*;

verus! {

/// The largest magnitude of a coordinate, a size or a speed.
///
/// Whole numbers up to this magnitude are exactly representable in single
/// precision, so a renderer converts them without loss, and sums of a few of
/// them stay far from the limits of `i32`.
pub const COORD_LIMIT: i32 = 16_777_216;

/// Whether `value` lies within the coordinate limit.
pub open spec fn in_range(value: int) -> bool {
    -COORD_LIMIT <= value <= COORD_LIMIT
}

/// A point or a displacement in whole pixels.
#[derive(Clone, Copy, Debug, PartialEq, Eq, Structural)]
pub struct Vector2 {
    pub x: i32,
    pub y: i32,
}

impl Vector2 {
    /// Whether both components lie within the coordinate limit.
    pub open spec fn in_range(self) -> bool {
        in_range(self.x as int) && in_range(self.y as int)
    }

    /// Creates the vector `(x, y)`.
    pub fn new(x: i32, y: i32) -> (v: Vector2)
        ensures
            v == (Vector2 { x, y }),
    {
        Vector2 { x, y }
    }

    /// Tells whether both components lie within the coordinate limit.
    pub fn is_in_range(&self) -> (b: bool)
        ensures
            b == self.in_range(),
    {
        -COORD_LIMIT <= self.x && self.x <= COORD_LIMIT && -COORD_LIMIT <= self.y && self.y
            <= COORD_LIMIT
    }
}

} // verus!
