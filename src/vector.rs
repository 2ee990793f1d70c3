use vstd::prelude::*;

use crate::point::{Point2, Point3};

verus! {

/// A two-component vector.
#[derive(Debug, Clone, Copy, PartialEq)]
pub struct Vec2<T> {
    pub x: T,
    pub y: T,
}

/// A three-component vector.
#[derive(Debug, Clone, Copy, PartialEq)]
pub struct Vec3<T> {
    pub x: T,
    pub y: T,
    pub z: T,
}

/// A four-component vector.
#[derive(Debug, Clone, Copy, PartialEq)]
pub struct Vec4<T> {
    pub x: T,
    pub y: T,
    pub z: T,
    pub w: T,
}

impl<T> View for Vec2<T> {
    type V = Seq<T>;

    /// The components in order `x, y`.
    open spec fn view(&self) -> Seq<T> {
        seq![self.x, self.y]
    }
}

impl<T> View for Vec3<T> {
    type V = Seq<T>;

    /// The components in order `x, y, z`.
    open spec fn view(&self) -> Seq<T> {
        seq![self.x, self.y, self.z]
    }
}

impl<T> View for Vec4<T> {
    type V = Seq<T>;

    /// The components in order `x, y, z, w`.
    open spec fn view(&self) -> Seq<T> {
        seq![self.x, self.y, self.z, self.w]
    }
}

impl<T: Copy> Vec2<T> {
    pub fn new(x: T, y: T) -> (r: Self)
        ensures
            r.x == x,
            r.y == y,
    {
        Vec2 { x, y }
    }

    /// The displacement from the origin to `p`.
    pub fn fromPoint(p: Point2<T>) -> (r: Self)
        ensures
            r.x == p.x,
            r.y == p.y,
    {
        Vec2 { x: p.x, y: p.y }
    }

    pub fn xx(&self) -> (r: Vec2<T>)
        ensures
            r.x == self.x,
            r.y == self.x,
    {
        Vec2 { x: self.x, y: self.x }
    }

    pub fn xy(&self) -> (r: Vec2<T>)
        ensures
            r.x == self.x,
            r.y == self.y,
    {
        Vec2 { x: self.x, y: self.y }
    }

    pub fn yx(&self) -> (r: Vec2<T>)
        ensures
            r.x == self.y,
            r.y == self.x,
    {
        Vec2 { x: self.y, y: self.x }
    }

    pub fn yy(&self) -> (r: Vec2<T>)
        ensures
            r.x == self.y,
            r.y == self.y,
    {
        Vec2 { x: self.y, y: self.y }
    }
}

impl<T: Copy> Vec3<T> {
    pub fn new(x: T, y: T, z: T) -> (r: Self)
        ensures
            r.x == x,
            r.y == y,
            r.z == z,
    {
        Vec3 { x, y, z }
    }

    /// The displacement from the origin to `p`.
    pub fn fromPoint(p: Point3<T>) -> (r: Self)
        ensures
            r.x == p.x,
            r.y == p.y,
            r.z == p.z,
    {
        Vec3 { x: p.x, y: p.y, z: p.z }
    }
}

impl<T: Copy> Vec4<T> {
    pub fn new(x: T, y: T, z: T, w: T) -> (r: Self)
        ensures
            r.x == x,
            r.y == y,
            r.z == z,
            r.w == w,
    {
        Vec4 { x, y, z, w }
    }
}

} // verus!
