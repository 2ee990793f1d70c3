use vstd::prelude::*;

use crate::vector::{Vec2, Vec3};

verus! {

/// A position in the plane.
#[derive(Debug, Clone, Copy, PartialEq)]
pub struct Point2<T> {
    pub x: T,
    pub y: T,
}

/// A position in space.
#[derive(Debug, Clone, Copy, PartialEq)]
pub struct Point3<T> {
    pub x: T,
    pub y: T,
    pub z: T,
}

impl<T: Copy> Point2<T> {
    pub fn new(x: T, y: T) -> (r: Self)
        ensures
            r.x == x,
            r.y == y,
    {
        Point2 { x, y }
    }

    /// The point reached from the origin by the displacement `v`.
    pub fn fromVec(v: Vec2<T>) -> (r: Self)
        ensures
            r.x == v.x,
            r.y == v.y,
    {
        Point2 { x: v.x, y: v.y }
    }
}

impl<T: Copy> Point3<T> {
    pub fn new(x: T, y: T, z: T) -> (r: Self)
        ensures
            r.x == x,
            r.y == y,
            r.z == z,
    {
        Point3 { x, y, z }
    }

    /// The point reached from the origin by the displacement `v`.
    pub fn fromVec(v: Vec3<T>) -> (r: Self)
        ensures
            r.x == v.x,
            r.y == v.y,
            r.z == v.z,
    {
        Point3 { x: v.x, y: v.y, z: v.z }
    }
}

} // verus!
