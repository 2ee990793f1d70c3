use vstd::prelude::*;

use crate::vector::{Vec2, Vec3};

verus! {

/// A Bézier curve in the plane of any degree, given by its control points.
pub struct Bezier2<T> {
    points: Vec<Vec2<T>>,
    degree: i8,
}

/// A Bézier curve in space of any degree, given by its control points.
pub struct Bezier3<T> {
    points: Vec<Vec3<T>>,
    degree: i8,
}

impl<T> Bezier2<T> {
    /// The control points, in order.
    pub closed spec fn points(&self) -> Seq<Vec2<T>> {
        self.points@
    }

    /// The recorded degree: the number of control points, as an `i8`.
    pub closed spec fn degree(&self) -> i8 {
        self.degree
    }

    /// The curve with the given control points.
    pub fn new(points: Vec<Vec2<T>>) -> (r: Self)
        ensures
            r.points() == points@,
            r.degree() == points@.len() as i8,
    {
        let n = points.len();
        Bezier2 { points, degree: #[verifier::truncate] (n as i8) }
    }
}

impl<T> Bezier3<T> {
    /// The control points, in order.
    pub closed spec fn points(&self) -> Seq<Vec3<T>> {
        self.points@
    }

    /// The recorded degree: the number of control points, as an `i8`.
    pub closed spec fn degree(&self) -> i8 {
        self.degree
    }

    /// The curve with the given control points.
    pub fn new(points: Vec<Vec3<T>>) -> (r: Self)
        ensures
            r.points() == points@,
            r.degree() == points@.len() as i8,
    {
        let n = points.len();
        Bezier3 { points, degree: #[verifier::truncate] (n as i8) }
    }
}

} // verus!
