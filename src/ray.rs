use vstd::prelude::*;

use crate::model::fits;
use crate::point::Point;
use crate::vector::Vector;

verus! {

/// A half-line: an origin and a direction.
#[derive(Debug, Clone, Copy)]
pub struct Ray {
    pub origin: Point,
    pub direction: Vector,
}

impl Ray {
    pub fn from(origin: Point, direction: Vector) -> (r: Ray)
        ensures
            r.origin == origin,
            r.direction == direction,
    {
        Ray { origin, direction }
    }

    /// The point at parameter `t`: origin + direction · t.
    pub fn at(&self, t: i64) -> (r: Point)
        requires
            fits(self.direction.x * t),
            fits(self.direction.y * t),
            fits(self.direction.z * t),
            fits(self.origin.x + self.direction.x * t),
            fits(self.origin.y + self.direction.y * t),
            fits(self.origin.z + self.direction.z * t),
        ensures
            r == (Point {
                x: (self.origin.x + self.direction.x * t) as i64,
                y: (self.origin.y + self.direction.y * t) as i64,
                z: (self.origin.z + self.direction.z * t) as i64,
                w: 1,
            }),
    {
        self.origin.add_vector(&self.direction.scale(t))
    }
}

} // verus!
