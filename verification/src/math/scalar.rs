use vstd::prelude::*;

verus! {

/// An exact rational scalar: the value `num / den`, with `den >= 1`.
///
/// This is the number type every geometric quantity in the engine is
/// measured in. Keeping numerator and denominator as integers makes all
/// of the matrix and vertex arithmetic in this crate exact; the layer
/// that hands data to the GPU divides the two out into the device's
/// floating-point format.
#[derive(Clone, Copy, PartialEq, Eq, Structural, Debug)]
pub struct Scalar {
    pub num: i64,
    pub den: i64,
}

impl Scalar {
    /// A scalar is well formed when its denominator is positive.
    pub open spec fn wf(self) -> bool {
        self.den >= 1
    }

    /// The numerator and the denominator lie within `limit`.
    pub open spec fn bounded(self, limit: int) -> bool {
        &&& -limit <= self.num <= limit
        &&& self.den <= limit
    }

    /// Two scalars denote the same rational number (cross multiplication).
    pub open spec fn same_value(self, other: Scalar) -> bool {
        self.num * other.den == other.num * self.den
    }

    pub fn new(num: i64, den: i64) -> (r: Scalar)
        requires
            den >= 1,
        ensures
            r.num == num,
            r.den == den,
            r.wf(),
    {
        Scalar { num, den }
    }

    /// The whole number `n`.
    pub fn from_int(n: i64) -> (r: Scalar)
        ensures
            r.num == n,
            r.den == 1,
            r.wf(),
    {
        Scalar { num: n, den: 1 }
    }
}

} // verus!
