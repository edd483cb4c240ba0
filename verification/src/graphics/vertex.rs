use vstd::prelude::*;

use crate::math::vector3::Vector3;

verus! {

/// One geometry point: a position in the sprite's local space.
#[derive(Clone, Copy, PartialEq, Eq, Structural, Debug)]
pub struct Vertex {
    pub position: Vector3,
}

impl Vertex {
    pub open spec fn wf(self) -> bool {
        self.position.wf()
    }

    /// The vertex at `(x / den, y / den, z / den)`.
    pub fn new(x: i64, y: i64, z: i64, den: i64) -> (v: Vertex)
        requires
            den >= 1,
        ensures
            v == (Vertex { position: Vector3 { x, y, z, den } }),
            v.wf(),
    {
        Vertex { position: Vector3 { x, y, z, den } }
    }
}

} // verus!
