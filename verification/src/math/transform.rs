use vstd::prelude::*;

use crate::math::matrix4x4::{
    apply_val, identity_vals, lemma_mul_bounds, lemma_mul_entry_bound, lemma_mul_identity_left,
    lemma_mul_identity_right, mat_vals, mul_vals, rotation_z_vals, scale_vals, translation_vals,
    Matrix4x4, RotationZ, MUL_LIMIT,
};
use crate::math::vector3::Vector3;

verus! {

/// Largest numerator / denominator magnitude a transform's fields may
/// carry so that its world matrix stays within 64-bit range.
pub const TRANSFORM_LIMIT: i64 = 8192;

/// A scene object's placement: position, rotation about the Z axis,
/// and axis-aligned scale. The world matrix is recomputed from the
/// current fields on every query, never cached, so a mutation is
/// reflected by the next query.
#[derive(Clone, Copy, PartialEq, Eq, Structural, Debug)]
pub struct Transform {
    pub position: Vector3,
    pub rotation: RotationZ,
    pub scale: Vector3,
}

/// Entry numerators of the world matrix of `t`:
/// `Translation(position) * RotationZ(rotation) * Scale(scale)`, so a
/// point is scaled first, then rotated, then translated.
pub open spec fn transform_vals(t: Transform) -> Seq<int> {
    mul_vals(
        mul_vals(translation_vals(t.position), rotation_z_vals(t.rotation)),
        scale_vals(t.scale),
    )
}

/// Denominator of the world matrix of `t`.
pub open spec fn transform_den(t: Transform) -> int {
    t.position.den * t.rotation.den * t.scale.den
}

/// The fields a `Transform::new()` starts from: zero position, null
/// rotation, unit scale.
pub open spec fn is_identity_transform(t: Transform) -> bool {
    &&& t.position == (Vector3 { x: 0i64, y: 0i64, z: 0i64, den: 1i64 })
    &&& t.rotation == (RotationZ { cos: 1i64, sin: 0i64, den: 1i64 })
    &&& t.scale == (Vector3 { x: 1i64, y: 1i64, z: 1i64, den: 1i64 })
}

impl Transform {
    pub open spec fn wf(self) -> bool {
        &&& self.position.wf()
        &&& self.rotation.wf()
        &&& self.scale.wf()
    }

    pub open spec fn bounded(self, limit: int) -> bool {
        &&& self.position.bounded(limit)
        &&& self.rotation.den <= limit
        &&& self.scale.bounded(limit)
    }

    /// Identity defaults: zero position, null rotation, unit scale.
    pub fn new() -> (t: Transform)
        ensures
            t.wf(),
            is_identity_transform(t),
            t.bounded(TRANSFORM_LIMIT as int),
    {
        Transform {
            position: Vector3::zero(),
            rotation: RotationZ::identity(),
            scale: Vector3::one(),
        }
    }

    /// The world matrix: translation of the position, times rotation
    /// about Z, times scale, composed exactly.
    pub fn get_transformation_matrix(&self) -> (m: Matrix4x4)
        requires
            self.wf(),
            self.bounded(TRANSFORM_LIMIT as int),
        ensures
            m.wf(),
            m.den as int == transform_den(*self),
            mat_vals(m) == transform_vals(*self),
    {
        let tm = Matrix4x4::translation(&self.position);
        let rm = Matrix4x4::rotation_z(&self.rotation);
        proof {
            assert forall|i: int| 0 <= i < 16 implies
                -(MUL_LIMIT as int) <= #[trigger] tm.data@[i] <= MUL_LIMIT as int by {
                assert(tm.data@[i] as int == translation_vals(self.position)[i]);
            }
            assert forall|i: int| 0 <= i < 16 implies
                -(MUL_LIMIT as int) <= #[trigger] rm.data@[i] <= MUL_LIMIT as int by {
                assert(rm.data@[i] as int == rotation_z_vals(self.rotation)[i]);
            }
        }
        let trm = Matrix4x4::multiply(&tm, &rm);
        let sm = Matrix4x4::scale(&self.scale);
        proof {
            assert forall|i: int| 0 <= i < 16 implies
                -(MUL_LIMIT as int) <= #[trigger] trm.data@[i] <= MUL_LIMIT as int by {
                assert(trm.data@[i] as int
                    == mul_vals(mat_vals(tm), mat_vals(rm))[i]);
                lemma_mul_entry_bound(mat_vals(tm), mat_vals(rm), i, TRANSFORM_LIMIT as int,
                    TRANSFORM_LIMIT as int);
            }
            lemma_mul_bounds(self.position.den as int, self.rotation.den as int,
                TRANSFORM_LIMIT as int, TRANSFORM_LIMIT as int);
            assert forall|i: int| 0 <= i < 16 implies
                -(MUL_LIMIT as int) <= #[trigger] sm.data@[i] <= MUL_LIMIT as int by {
                assert(sm.data@[i] as int == scale_vals(self.scale)[i]);
            }
        }
        let m = Matrix4x4::multiply(&trm, &sm);
        m
    }
}

/// The world matrix acts on a homogeneous point in the composition
/// order the pivot math depends on: the point is scaled first, the
/// result rotated, and that result translated. Component `row` of the
/// world matrix's image equals the translation matrix applied to the
/// rotation matrix's image of the scale matrix's image.
pub proof fn lemma_world_matrix_scales_rotates_translates(
    t: Transform,
    x: int,
    y: int,
    z: int,
    w: int,
    row: int,
)
    requires
        0 <= row < 4,
    ensures
        apply_val(transform_vals(t), x, y, z, w, row) == apply_val(
            translation_vals(t.position),
            apply_val(
                rotation_z_vals(t.rotation),
                apply_val(scale_vals(t.scale), x, y, z, w, 0),
                apply_val(scale_vals(t.scale), x, y, z, w, 1),
                apply_val(scale_vals(t.scale), x, y, z, w, 2),
                apply_val(scale_vals(t.scale), x, y, z, w, 3),
                0,
            ),
            apply_val(
                rotation_z_vals(t.rotation),
                apply_val(scale_vals(t.scale), x, y, z, w, 0),
                apply_val(scale_vals(t.scale), x, y, z, w, 1),
                apply_val(scale_vals(t.scale), x, y, z, w, 2),
                apply_val(scale_vals(t.scale), x, y, z, w, 3),
                1,
            ),
            apply_val(
                rotation_z_vals(t.rotation),
                apply_val(scale_vals(t.scale), x, y, z, w, 0),
                apply_val(scale_vals(t.scale), x, y, z, w, 1),
                apply_val(scale_vals(t.scale), x, y, z, w, 2),
                apply_val(scale_vals(t.scale), x, y, z, w, 3),
                2,
            ),
            apply_val(
                rotation_z_vals(t.rotation),
                apply_val(scale_vals(t.scale), x, y, z, w, 0),
                apply_val(scale_vals(t.scale), x, y, z, w, 1),
                apply_val(scale_vals(t.scale), x, y, z, w, 2),
                apply_val(scale_vals(t.scale), x, y, z, w, 3),
                3,
            ),
            row,
        ),
{
    let tv = translation_vals(t.position);
    let rv = rotation_z_vals(t.rotation);
    let sv = scale_vals(t.scale);
    let sx = apply_val(sv, x, y, z, w, 0);
    let sy = apply_val(sv, x, y, z, w, 1);
    let sz = apply_val(sv, x, y, z, w, 2);
    let sw = apply_val(sv, x, y, z, w, 3);
    crate::math::matrix4x4::lemma_multiply_applies_in_sequence(
        mul_vals(tv, rv),
        sv,
        x,
        y,
        z,
        w,
        row,
    );
    crate::math::matrix4x4::lemma_multiply_applies_in_sequence(tv, rv, sx, sy, sz, sw, row);
}

/// A default-constructed transform's matrix leaves every homogeneous
/// point `(x, y, z, w)` unchanged: its denominator is one and each
/// image numerator equals the point's own coordinate.
pub proof fn lemma_identity_transform_fixes_points(t: Transform, x: int, y: int, z: int, w: int)
    requires
        is_identity_transform(t),
    ensures
        transform_den(t) == 1,
        apply_val(transform_vals(t), x, y, z, w, 0) == x,
        apply_val(transform_vals(t), x, y, z, w, 1) == y,
        apply_val(transform_vals(t), x, y, z, w, 2) == z,
        apply_val(transform_vals(t), x, y, z, w, 3) == w,
{
    assert(translation_vals(t.position) =~= identity_vals());
    assert(rotation_z_vals(t.rotation) =~= identity_vals());
    assert(scale_vals(t.scale) =~= identity_vals());
    lemma_mul_identity_left(identity_vals());
    assert(mul_vals(translation_vals(t.position), rotation_z_vals(t.rotation))
        =~= identity_vals());
    lemma_mul_identity_right(identity_vals());
    assert(transform_vals(t) =~= identity_vals());
    let iv = identity_vals();
    assert(iv[0] == 1 && iv[5] == 1 && iv[10] == 1 && iv[15] == 1);
    assert(iv[1] == 0 && iv[2] == 0 && iv[3] == 0 && iv[4] == 0 && iv[6] == 0 && iv[7] == 0
        && iv[8] == 0 && iv[9] == 0 && iv[11] == 0 && iv[12] == 0 && iv[13] == 0 && iv[14] == 0);
    assert(iv[0] * x == x && iv[5] * y == y && iv[10] * z == z && iv[15] * w == w);
    assert(iv[4] * y == 0 && iv[8] * z == 0 && iv[12] * w == 0);
    assert(iv[1] * x == 0 && iv[9] * z == 0 && iv[13] * w == 0);
    assert(iv[2] * x == 0 && iv[6] * y == 0 && iv[14] * w == 0);
    assert(iv[3] * x == 0 && iv[7] * y == 0 && iv[11] * z == 0);
    assert(apply_val(iv, x, y, z, w, 0) == iv[0] * x + iv[4] * y + iv[8] * z + iv[12] * w);
    assert(apply_val(iv, x, y, z, w, 1) == iv[1] * x + iv[5] * y + iv[9] * z + iv[13] * w);
    assert(apply_val(iv, x, y, z, w, 2) == iv[2] * x + iv[6] * y + iv[10] * z + iv[14] * w);
    assert(apply_val(iv, x, y, z, w, 3) == iv[3] * x + iv[7] * y + iv[11] * z + iv[15] * w);
}

} // verus!
