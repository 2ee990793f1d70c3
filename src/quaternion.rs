use vstd::prelude::*;

use crate::vector::Vec3;

verus! {

/// A quaternion in scalar/vector form: `s + v.x i + v.y j + v.z k`.
#[derive(Debug, Clone, Copy, PartialEq)]
pub struct Quat<T> {
    pub s: T,
    pub v: Vec3<T>,
}

impl<T: Copy> Quat<T> {
    pub fn new(s: T, v: Vec3<T>) -> (r: Self)
        ensures
            r.s == s,
            r.v == v,
    {
        Quat { s, v }
    }
}

} // verus!
