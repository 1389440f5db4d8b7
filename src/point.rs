use vstd::prelude::*;

use crate::model::{fits, COORD_LIMIT};
use crate::vector::Vector;

verus! {

/// A position in space: homogeneous coordinates with `w` = 1.
///
/// Two points are equal when their x, y and z agree; `w` is not compared.
#[derive(Debug, Clone, Copy)]
pub struct Point {
    pub x: i64,
    pub y: i64,
    pub z: i64,
    pub w: i64,
}

impl PartialEq for Point {
    fn eq(&self, other: &Point) -> (r: bool) {
        self.x == other.x && self.y == other.y && self.z == other.z
    }
}

impl vstd::std_specs::cmp::PartialEqSpecImpl for Point {
    open spec fn obeys_eq_spec() -> bool {
        true
    }

    open spec fn eq_spec(&self, other: &Point) -> bool {
        self.same(*other)
    }
}

impl Point {
    /// Every coordinate, `w` included, lies within `[-COORD_LIMIT, COORD_LIMIT]`.
    pub open spec fn in_range(self) -> bool {
        &&& -COORD_LIMIT <= self.x <= COORD_LIMIT
        &&& -COORD_LIMIT <= self.y <= COORD_LIMIT
        &&& -COORD_LIMIT <= self.z <= COORD_LIMIT
        &&& -COORD_LIMIT <= self.w <= COORD_LIMIT
    }

    /// Equality as the `==` of this type sees it: x, y and z agree.
    pub open spec fn same(self, other: Point) -> bool {
        self.x == other.x && self.y == other.y && self.z == other.z
    }

    /// The point moved by `v`; its `w` is 1.
    pub open spec fn plus_vector(self, v: Vector) -> Point {
        Point { x: (self.x + v.x) as i64, y: (self.y + v.y) as i64, z: (self.z + v.z) as i64, w: 1 }
    }

    /// The point moved by the opposite of `v`; its `w` is 1.
    pub open spec fn minus_vector(self, v: Vector) -> Point {
        Point { x: (self.x - v.x) as i64, y: (self.y - v.y) as i64, z: (self.z - v.z) as i64, w: 1 }
    }

    pub fn new(x: i64, y: i64, z: i64) -> (r: Point)
        ensures
            r == (Point { x, y, z, w: 1 }),
    {
        Point { x, y, z, w: 1 }
    }

    /// The point moved by `v`.
    pub fn add_vector(&self, v: &Vector) -> (r: Point)
        requires
            fits(self.x + v.x),
            fits(self.y + v.y),
            fits(self.z + v.z),
        ensures
            r == self.plus_vector(*v),
    {
        Point { x: self.x + v.x, y: self.y + v.y, z: self.z + v.z, w: 1 }
    }

    /// The vector that leads from `p` to this point.
    pub fn sub_point(&self, p: &Point) -> (r: Vector)
        requires
            fits(self.x - p.x),
            fits(self.y - p.y),
            fits(self.z - p.z),
        ensures
            r == (Vector {
                x: (self.x - p.x) as i64,
                y: (self.y - p.y) as i64,
                z: (self.z - p.z) as i64,
                w: 0,
            }),
    {
        Vector { x: self.x - p.x, y: self.y - p.y, z: self.z - p.z, w: 0 }
    }

    /// The point moved by the opposite of `v`.
    pub fn sub_vector(&self, v: &Vector) -> (r: Point)
        requires
            fits(self.x - v.x),
            fits(self.y - v.y),
            fits(self.z - v.z),
        ensures
            r == self.minus_vector(*v),
    {
        Point { x: self.x - v.x, y: self.y - v.y, z: self.z - v.z, w: 1 }
    }

    /// The point reflected through the origin; `w` stays 1.
    pub fn neg(&self) -> (r: Point)
        requires
            fits(-self.x),
            fits(-self.y),
            fits(-self.z),
        ensures
            r == (Point { x: -self.x as i64, y: -self.y as i64, z: -self.z as i64, w: 1 }),
    {
        Point { x: -self.x, y: -self.y, z: -self.z, w: 1 }
    }

    /// Every coordinate multiplied by `s`, `w` included: unless `s` is 1 the
    /// result no longer has the `w` of a point, which a matrix applied to it
    /// then sees. Equality ignores `w`.
    pub fn scale(&self, s: i64) -> (r: Point)
        requires
            fits(self.x * s),
            fits(self.y * s),
            fits(self.z * s),
            fits(self.w * s),
        ensures
            r == (Point {
                x: (self.x * s) as i64,
                y: (self.y * s) as i64,
                z: (self.z * s) as i64,
                w: (self.w * s) as i64,
            }),
    {
        Point { x: self.x * s, y: self.y * s, z: self.z * s, w: self.w * s }
    }
}

/// Moving a point by a vector and back again gives the point it started
/// from.
pub proof fn lemma_add_then_sub_vector(p: Point, v: Vector)
    requires
        fits(p.x + v.x),
        fits(p.y + v.y),
        fits(p.z + v.z),
    ensures
        p.plus_vector(v).minus_vector(v).same(p),
{
}

} // verus!
