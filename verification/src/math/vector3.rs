use vstd::prelude::*;

verus! {

/// A 3-component vector of exact rationals sharing one denominator:
/// the point `(x/den, y/den, z/den)`.
///
/// The shared denominator keeps products of vectors and matrices inside
/// 64-bit range and makes component arithmetic exact. Used for
/// positions, scales and sprite pivots.
#[derive(Clone, Copy, PartialEq, Eq, Structural, Debug)]
pub struct Vector3 {
    pub x: i64,
    pub y: i64,
    pub z: i64,
    pub den: i64,
}

impl Vector3 {
    /// A vector is well formed when its denominator is positive.
    pub open spec fn wf(self) -> bool {
        self.den >= 1
    }

    /// Every numerator and the denominator lie within `limit`.
    pub open spec fn bounded(self, limit: int) -> bool {
        &&& -limit <= self.x <= limit
        &&& -limit <= self.y <= limit
        &&& -limit <= self.z <= limit
        &&& self.den <= limit
    }

    /// The two vectors denote the same point (componentwise cross
    /// multiplication).
    pub open spec fn same_value(self, other: Vector3) -> bool {
        &&& self.x * other.den == other.x * self.den
        &&& self.y * other.den == other.y * self.den
        &&& self.z * other.den == other.z * self.den
    }

    pub fn new(x: i64, y: i64, z: i64, den: i64) -> (r: Vector3)
        requires
            den >= 1,
        ensures
            r == (Vector3 { x, y, z, den }),
            r.wf(),
    {
        Vector3 { x, y, z, den }
    }

    /// The origin.
    pub fn zero() -> (r: Vector3)
        ensures
            r == (Vector3 { x: 0i64, y: 0i64, z: 0i64, den: 1i64 }),
            r.wf(),
    {
        Vector3 { x: 0, y: 0, z: 0, den: 1 }
    }

    /// The vector (1, 1, 1): the neutral scale factor.
    pub fn one() -> (r: Vector3)
        ensures
            r == (Vector3 { x: 1i64, y: 1i64, z: 1i64, den: 1i64 }),
            r.wf(),
    {
        Vector3 { x: 1, y: 1, z: 1, den: 1 }
    }
}

} // verus!
