use vstd::prelude::*;

use crate::math::vector3::Vector3;

verus! {

/// Largest numerator / denominator magnitude accepted by `multiply`.
pub const MUL_LIMIT: i64 = 0x4000_0000;

/// Largest matrix entry magnitude accepted by `transform_point`.
pub const APPLY_MAT_LIMIT: i64 = 0x2000_0000_0000;

/// Largest vector numerator / denominator accepted by `transform_point`.
pub const APPLY_VEC_LIMIT: i64 = 32768;

/// Largest extent magnitude accepted by `orthographic`.
pub const ORTHO_LIMIT: i64 = 16384;

/// A planar rotation, held as the cosine and sine of the angle over a
/// shared positive denominator: the rotation whose cosine is
/// `cos / den` and whose sine is `sin / den`.
///
/// Quarter turns are exact; for other angles the caller supplies a
/// rational approximation of the trigonometric pair (the engine's
/// outer layer derives one from an angle in degrees).
#[derive(Clone, Copy, PartialEq, Eq, Structural, Debug)]
pub struct RotationZ {
    pub cos: i64,
    pub sin: i64,
    pub den: i64,
}

impl RotationZ {
    /// Well formed: positive denominator, and both components within
    /// it in magnitude (a cosine or sine never exceeds one).
    pub open spec fn wf(self) -> bool {
        &&& self.den >= 1
        &&& -self.den <= self.cos <= self.den
        &&& -self.den <= self.sin <= self.den
    }

    /// The null rotation.
    pub fn identity() -> (r: RotationZ)
        ensures
            r == (RotationZ { cos: 1i64, sin: 0i64, den: 1i64 }),
            r.wf(),
    {
        RotationZ { cos: 1, sin: 0, den: 1 }
    }

    /// The exact rotation by `q` counter-clockwise quarter turns
    /// (`q = 1` is ninety degrees).
    pub fn from_quarter_turns(q: u32) -> (r: RotationZ)
        ensures
            r.wf(),
            r.den == 1,
            q % 4 == 0 ==> r == (RotationZ { cos: 1i64, sin: 0i64, den: 1i64 }),
            q % 4 == 1 ==> r == (RotationZ { cos: 0i64, sin: 1i64, den: 1i64 }),
            q % 4 == 2 ==> r == (RotationZ { cos: -1i64, sin: 0i64, den: 1i64 }),
            q % 4 == 3 ==> r == (RotationZ { cos: 0i64, sin: -1i64, den: 1i64 }),
    {
        let m = q % 4;
        if m == 0 {
            RotationZ { cos: 1, sin: 0, den: 1 }
        } else if m == 1 {
            RotationZ { cos: 0, sin: 1, den: 1 }
        } else if m == 2 {
            RotationZ { cos: -1, sin: 0, den: 1 }
        } else {
            RotationZ { cos: 0, sin: -1, den: 1 }
        }
    }
}

/// A 4 x 4 matrix of exact rationals: sixteen integer numerators over
/// one shared positive denominator. Entry storage is column-major
/// (`data[column * 4 + row]`), the layout GPU uniform uploads expect,
/// so a matrix can be handed to the device as a flat sixteen-value
/// stream.
///
/// All constructors and products are exact integer arithmetic; the
/// denominators multiply through composition.
#[derive(Debug)]
pub struct Matrix4x4 {
    pub data: Vec<i64>,
    pub den: i64,
}

/// The sixteen entry numerators of `m`, as unbounded integers.
pub open spec fn mat_vals(m: Matrix4x4) -> Seq<int> {
    Seq::new(16, |i: int| m.data@[i] as int)
}

/// Entry numerators of the multiplicative identity (denominator one).
pub open spec fn identity_vals() -> Seq<int> {
    Seq::new(16, |i: int| if i == 0 || i == 5 || i == 10 || i == 15 { 1int } else { 0int })
}

/// Entry numerators of the translation by `v` (denominator `v.den`).
pub open spec fn translation_vals(v: Vector3) -> Seq<int> {
    Seq::new(
        16,
        |i: int|
            if i == 0 || i == 5 || i == 10 || i == 15 {
                v.den as int
            } else if i == 12 {
                v.x as int
            } else if i == 13 {
                v.y as int
            } else if i == 14 {
                v.z as int
            } else {
                0int
            },
    )
}

/// Entry numerators of the axis-aligned scale by `v` (denominator
/// `v.den`).
pub open spec fn scale_vals(v: Vector3) -> Seq<int> {
    Seq::new(
        16,
        |i: int|
            if i == 0 {
                v.x as int
            } else if i == 5 {
                v.y as int
            } else if i == 10 {
                v.z as int
            } else if i == 15 {
                v.den as int
            } else {
                0int
            },
    )
}

/// Entry numerators of the rotation about the Z axis (denominator
/// `r.den`).
pub open spec fn rotation_z_vals(r: RotationZ) -> Seq<int> {
    Seq::new(
        16,
        |i: int|
            if i == 0 || i == 5 {
                r.cos as int
            } else if i == 1 {
                r.sin as int
            } else if i == 4 {
                -(r.sin as int)
            } else if i == 10 || i == 15 {
                r.den as int
            } else {
                0int
            },
    )
}

/// The shared denominator of the orthographic projection over the box
/// `[l, r] x [b, t] x [n, f]`.
pub open spec fn ortho_den(l: int, r: int, b: int, t: int, n: int, f: int) -> int {
    (r - l) * (t - b) * (f - n)
}

/// Entry numerators of the orthographic projection. Over the shared
/// denominator they are the usual `2 / (r - l)` diagonal and
/// `-(r + l) / (r - l)` translation column; the convention maps
/// `x = l` to clip `-1`, `x = r` to `+1`, likewise `b`/`t` on Y and
/// `n`/`f` on Z (Y-up, origin at the left-bottom corner).
pub open spec fn ortho_vals(l: int, r: int, b: int, t: int, n: int, f: int) -> Seq<int> {
    Seq::new(
        16,
        |i: int|
            if i == 0 {
                2 * (t - b) * (f - n)
            } else if i == 5 {
                2 * (r - l) * (f - n)
            } else if i == 10 {
                2 * (r - l) * (t - b)
            } else if i == 12 {
                -((r + l) * (t - b) * (f - n))
            } else if i == 13 {
                -((t + b) * (r - l) * (f - n))
            } else if i == 14 {
                -((f + n) * (r - l) * (t - b))
            } else if i == 15 {
                (r - l) * (t - b) * (f - n)
            } else {
                0int
            },
    )
}

/// Numerator of entry `i` of the matrix product `a * b` (both given as
/// entry-numerator sequences; the product's denominator is the product
/// of the factors' denominators).
pub open spec fn mul_entry(a: Seq<int>, b: Seq<int>, i: int) -> int {
    let r = i % 4;
    let c = i / 4;
    a[r] * b[4 * c] + a[r + 4] * b[4 * c + 1] + a[r + 8] * b[4 * c + 2] + a[r + 12] * b[4 * c + 3]
}

/// Entry numerators of the matrix product `a * b`.
pub open spec fn mul_vals(a: Seq<int>, b: Seq<int>) -> Seq<int> {
    Seq::new(16, |i: int| mul_entry(a, b, i))
}

/// Numerator of component `row` of the image of the homogeneous point
/// `(x, y, z, w)` under the matrix with entry numerators `md`; the
/// image's denominator is the matrix denominator times the point's.
pub open spec fn apply_val(md: Seq<int>, x: int, y: int, z: int, w: int, row: int) -> int {
    md[row] * x + md[row + 4] * y + md[row + 8] * z + md[row + 12] * w
}

/// `|x * y| <= bx * by` when `|x| <= bx` and `|y| <= by`.
pub proof fn lemma_mul_bounds(x: int, y: int, bx: int, by: int)
    requires
        -bx <= x <= bx,
        -by <= y <= by,
        0 <= bx,
        0 <= by,
    ensures
        -(bx * by) <= x * y <= bx * by,
{
    assert(-(bx * by) <= x * y <= bx * by) by (nonlinear_arith)
        requires
            -bx <= x <= bx,
            -by <= y <= by,
            0 <= bx,
            0 <= by,
    ;
}

/// A product entry of matrices bounded by `ba` and `bb` is within
/// four times `ba * bb`.
pub proof fn lemma_mul_entry_bound(a: Seq<int>, b: Seq<int>, i: int, ba: int, bb: int)
    requires
        0 <= i < 16,
        a.len() == 16,
        b.len() == 16,
        forall|j: int| 0 <= j < 16 ==> -ba <= #[trigger] a[j] <= ba,
        forall|j: int| 0 <= j < 16 ==> -bb <= #[trigger] b[j] <= bb,
        0 <= ba,
        0 <= bb,
    ensures
        -(4 * (ba * bb)) <= mul_entry(a, b, i) <= 4 * (ba * bb),
{
    let r = i % 4;
    let c = i / 4;
    lemma_mul_bounds(a[r], b[4 * c], ba, bb);
    lemma_mul_bounds(a[r + 4], b[4 * c + 1], ba, bb);
    lemma_mul_bounds(a[r + 8], b[4 * c + 2], ba, bb);
    lemma_mul_bounds(a[r + 12], b[4 * c + 3], ba, bb);
}

/// One entry of a product with the identity entries on the left.
proof fn lemma_mul_entry_id_left(a: Seq<int>, i: int)
    requires
        a.len() == 16,
        0 <= i < 16,
    ensures
        mul_entry(identity_vals(), a, i) == a[i],
{
    let id = identity_vals();
    let r = i % 4;
    let c = i / 4;
    assert(i == 4 * c + r);
    if r == 0 {
        assert(id[0] == 1 && id[4] == 0 && id[8] == 0 && id[12] == 0);
        assert(id[0] * a[4 * c] == a[4 * c]);
        assert(id[4] * a[4 * c + 1] == 0 && id[8] * a[4 * c + 2] == 0 && id[12] * a[4 * c + 3]
            == 0);
    } else if r == 1 {
        assert(id[1] == 0 && id[5] == 1 && id[9] == 0 && id[13] == 0);
        assert(id[5] * a[4 * c + 1] == a[4 * c + 1]);
        assert(id[1] * a[4 * c] == 0 && id[9] * a[4 * c + 2] == 0 && id[13] * a[4 * c + 3] == 0);
    } else if r == 2 {
        assert(id[2] == 0 && id[6] == 0 && id[10] == 1 && id[14] == 0);
        assert(id[10] * a[4 * c + 2] == a[4 * c + 2]);
        assert(id[2] * a[4 * c] == 0 && id[6] * a[4 * c + 1] == 0 && id[14] * a[4 * c + 3] == 0);
    } else {
        assert(id[3] == 0 && id[7] == 0 && id[11] == 0 && id[15] == 1);
        assert(id[15] * a[4 * c + 3] == a[4 * c + 3]);
        assert(id[3] * a[4 * c] == 0 && id[7] * a[4 * c + 1] == 0 && id[11] * a[4 * c + 2] == 0);
    }
}

/// One entry of a product with the identity entries on the right.
proof fn lemma_mul_entry_id_right(a: Seq<int>, i: int)
    requires
        a.len() == 16,
        0 <= i < 16,
    ensures
        mul_entry(a, identity_vals(), i) == a[i],
{
    let id = identity_vals();
    let r = i % 4;
    let c = i / 4;
    assert(i == 4 * c + r);
    if c == 0 {
        assert(id[0] == 1 && id[1] == 0 && id[2] == 0 && id[3] == 0);
        assert(a[r] * id[0] + a[r + 4] * id[1] + a[r + 8] * id[2] + a[r + 12] * id[3] == a[r])
            by (nonlinear_arith)
            requires
                id[0] == 1,
                id[1] == 0,
                id[2] == 0,
                id[3] == 0,
        ;
    } else if c == 1 {
        assert(id[4] == 0 && id[5] == 1 && id[6] == 0 && id[7] == 0);
        assert(a[r] * id[4] + a[r + 4] * id[5] + a[r + 8] * id[6] + a[r + 12] * id[7] == a[r + 4])
            by (nonlinear_arith)
            requires
                id[4] == 0,
                id[5] == 1,
                id[6] == 0,
                id[7] == 0,
        ;
    } else if c == 2 {
        assert(id[8] == 0 && id[9] == 0 && id[10] == 1 && id[11] == 0);
        assert(a[r] * id[8] + a[r + 4] * id[9] + a[r + 8] * id[10] + a[r + 12] * id[11] == a[r
            + 8]) by (nonlinear_arith)
            requires
                id[8] == 0,
                id[9] == 0,
                id[10] == 1,
                id[11] == 0,
        ;
    } else {
        assert(id[12] == 0 && id[13] == 0 && id[14] == 0 && id[15] == 1);
        assert(a[r] * id[12] + a[r + 4] * id[13] + a[r + 8] * id[14] + a[r + 12] * id[15] == a[r
            + 12]) by (nonlinear_arith)
            requires
                id[12] == 0,
                id[13] == 0,
                id[14] == 0,
                id[15] == 1,
        ;
    }
}

/// Multiplying by the identity entries on the left changes nothing.
pub proof fn lemma_mul_identity_left(a: Seq<int>)
    requires
        a.len() == 16,
    ensures
        mul_vals(identity_vals(), a) =~= a,
{
    assert forall|i: int| 0 <= i < 16 implies mul_vals(identity_vals(), a)[i] == a[i] by {
        lemma_mul_entry_id_left(a, i);
    }
}

/// Multiplying by the identity entries on the right changes nothing.
pub proof fn lemma_mul_identity_right(a: Seq<int>)
    requires
        a.len() == 16,
    ensures
        mul_vals(a, identity_vals()) =~= a,
{
    assert forall|i: int| 0 <= i < 16 implies mul_vals(a, identity_vals())[i] == a[i] by {
        lemma_mul_entry_id_right(a, i);
    }
}

impl Matrix4x4 {
    /// Sixteen entries over a positive denominator.
    pub open spec fn wf(self) -> bool {
        &&& self.data@.len() == 16
        &&& self.den >= 1
    }

    /// Every entry numerator and the denominator lie within `limit`.
    pub open spec fn bounded(self, limit: int) -> bool {
        &&& self.den <= limit
        &&& forall|i: int| 0 <= i < 16 ==> -limit <= #[trigger] self.data@[i] <= limit
    }

    /// The multiplicative identity.
    pub fn identity() -> (r: Matrix4x4)
        ensures
            r.wf(),
            r.den == 1,
            mat_vals(r) == identity_vals(),
    {
        let mut data: Vec<i64> = Vec::new();
        let mut i: usize = 0;
        while i < 16
            invariant
                i <= 16,
                data@.len() == i,
                forall|j: int| 0 <= j < i ==> #[trigger] data@[j] as int == identity_vals()[j],
            decreases 16 - i,
        {
            let e: i64 = if i == 0 || i == 5 || i == 10 || i == 15 { 1 } else { 0 };
            data.push(e);
            i += 1;
        }
        let r = Matrix4x4 { data, den: 1 };
        proof {
            assert(mat_vals(r) =~= identity_vals());
        }
        r
    }

    /// The translation taking the origin to `v`.
    pub fn translation(v: &Vector3) -> (r: Matrix4x4)
        requires
            v.wf(),
        ensures
            r.wf(),
            r.den == v.den,
            mat_vals(r) == translation_vals(*v),
    {
        let mut data: Vec<i64> = Vec::new();
        let mut i: usize = 0;
        while i < 16
            invariant
                i <= 16,
                data@.len() == i,
                forall|j: int| 0 <= j < i ==> #[trigger] data@[j] as int == translation_vals(*v)[j],
            decreases 16 - i,
        {
            let e: i64 = if i == 0 || i == 5 || i == 10 || i == 15 {
                v.den
            } else if i == 12 {
                v.x
            } else if i == 13 {
                v.y
            } else if i == 14 {
                v.z
            } else {
                0
            };
            data.push(e);
            i += 1;
        }
        let r = Matrix4x4 { data, den: v.den };
        proof {
            assert(mat_vals(r) =~= translation_vals(*v));
        }
        r
    }

    /// The axis-aligned scale by `v`.
    pub fn scale(v: &Vector3) -> (r: Matrix4x4)
        requires
            v.wf(),
        ensures
            r.wf(),
            r.den == v.den,
            mat_vals(r) == scale_vals(*v),
    {
        let mut data: Vec<i64> = Vec::new();
        let mut i: usize = 0;
        while i < 16
            invariant
                i <= 16,
                data@.len() == i,
                forall|j: int| 0 <= j < i ==> #[trigger] data@[j] as int == scale_vals(*v)[j],
            decreases 16 - i,
        {
            let e: i64 = if i == 0 {
                v.x
            } else if i == 5 {
                v.y
            } else if i == 10 {
                v.z
            } else if i == 15 {
                v.den
            } else {
                0
            };
            data.push(e);
            i += 1;
        }
        let r = Matrix4x4 { data, den: v.den };
        proof {
            assert(mat_vals(r) =~= scale_vals(*v));
        }
        r
    }

    /// The rotation about the Z axis by `rot`.
    pub fn rotation_z(rot: &RotationZ) -> (r: Matrix4x4)
        requires
            rot.wf(),
        ensures
            r.wf(),
            r.den == rot.den,
            mat_vals(r) == rotation_z_vals(*rot),
    {
        let mut data: Vec<i64> = Vec::new();
        let mut i: usize = 0;
        while i < 16
            invariant
                i <= 16,
                data@.len() == i,
                rot.wf(),
                forall|j: int| 0 <= j < i ==> #[trigger] data@[j] as int == rotation_z_vals(*rot)[j],
            decreases 16 - i,
        {
            let e: i64 = if i == 0 || i == 5 {
                rot.cos
            } else if i == 1 {
                rot.sin
            } else if i == 4 {
                -rot.sin
            } else if i == 10 || i == 15 {
                rot.den
            } else {
                0
            };
            data.push(e);
            i += 1;
        }
        let r = Matrix4x4 { data, den: rot.den };
        proof {
            assert(mat_vals(r) =~= rotation_z_vals(*rot));
        }
        r
    }

    /// The orthographic projection of the box `[l, r] x [b, t] x [n, f]`
    /// onto the canonical clip volume: `(l, b, n)` goes to clip
    /// `(-1, -1, -1)` and `(r, t, f)` to `(1, 1, 1)` (Y up, origin at
    /// the left-bottom corner).
    pub fn orthographic(l: i64, r: i64, b: i64, t: i64, n: i64, f: i64) -> (m: Matrix4x4)
        requires
            l < r,
            b < t,
            n < f,
            -ORTHO_LIMIT <= l <= ORTHO_LIMIT,
            -ORTHO_LIMIT <= r <= ORTHO_LIMIT,
            -ORTHO_LIMIT <= b <= ORTHO_LIMIT,
            -ORTHO_LIMIT <= t <= ORTHO_LIMIT,
            -ORTHO_LIMIT <= n <= ORTHO_LIMIT,
            -ORTHO_LIMIT <= f <= ORTHO_LIMIT,
        ensures
            m.wf(),
            m.den as int == ortho_den(l as int, r as int, b as int, t as int, n as int, f as int),
            mat_vals(m) == ortho_vals(l as int, r as int, b as int, t as int, n as int, f as int),
    {
        let dx = r - l;
        let dy = t - b;
        let dz = f - n;
        proof {
            lemma_mul_bounds(2 * (dy as int), dz as int, 65536, 32768);
            lemma_mul_bounds(2 * (dx as int), dz as int, 65536, 32768);
            lemma_mul_bounds(2 * (dx as int), dy as int, 65536, 32768);
            lemma_mul_bounds((r + l) as int, dy as int, 32768, 32768);
            lemma_mul_bounds((t + b) as int, dx as int, 32768, 32768);
            lemma_mul_bounds((f + n) as int, dx as int, 32768, 32768);
            lemma_mul_bounds(dx as int, dy as int, 32768, 32768);
        }
        let e0 = (2 * dy) * dz;
        let e5 = (2 * dx) * dz;
        let e10 = (2 * dx) * dy;
        let rl = (r + l) * dy;
        let tb = (t + b) * dx;
        let fnm = (f + n) * dx;
        let dxdy = dx * dy;
        proof {
            lemma_mul_bounds(rl as int, dz as int, 0x40000000, 32768);
            lemma_mul_bounds(tb as int, dz as int, 0x40000000, 32768);
            lemma_mul_bounds(fnm as int, dy as int, 0x40000000, 32768);
            lemma_mul_bounds(dxdy as int, dz as int, 0x40000000, 32768);
            assert(dxdy * dz >= 1) by (nonlinear_arith)
                requires
                    dxdy as int == (dx as int) * (dy as int),
                    dx >= 1,
                    dy >= 1,
                    dz >= 1,
            ;
        }
        let e12 = -(rl * dz);
        let e13 = -(tb * dz);
        let e14 = -(fnm * dy);
        let den = dxdy * dz;
        let ghost li = l as int;
        let ghost ri = r as int;
        let ghost bi = b as int;
        let ghost ti = t as int;
        let ghost ni = n as int;
        let ghost fi = f as int;
        let mut data: Vec<i64> = Vec::new();
        let mut i: usize = 0;
        while i < 16
            invariant
                i <= 16,
                data@.len() == i,
                e0 as int == 2 * (ti - bi) * (fi - ni),
                e5 as int == 2 * (ri - li) * (fi - ni),
                e10 as int == 2 * (ri - li) * (ti - bi),
                e12 as int == -((ri + li) * (ti - bi) * (fi - ni)),
                e13 as int == -((ti + bi) * (ri - li) * (fi - ni)),
                e14 as int == -((fi + ni) * (ri - li) * (ti - bi)),
                den as int == (ri - li) * (ti - bi) * (fi - ni),
                forall|j: int| 0 <= j < i ==>
                    #[trigger] data@[j] as int == ortho_vals(li, ri, bi, ti, ni, fi)[j],
            decreases 16 - i,
        {
            let e: i64 = if i == 0 {
                e0
            } else if i == 5 {
                e5
            } else if i == 10 {
                e10
            } else if i == 12 {
                e12
            } else if i == 13 {
                e13
            } else if i == 14 {
                e14
            } else if i == 15 {
                den
            } else {
                0
            };
            data.push(e);
            i += 1;
        }
        let m = Matrix4x4 { data, den };
        proof {
            assert(mat_vals(m) =~= ortho_vals(li, ri, bi, ti, ni, fi));
        }
        m
    }

    /// The matrix product `a * b`: applied to a point, `b` acts first
    /// and `a` second. Exact: entry numerators are the integer dot
    /// products and the denominators multiply.
    pub fn multiply(a: &Matrix4x4, b: &Matrix4x4) -> (r: Matrix4x4)
        requires
            a.wf(),
            b.wf(),
            a.bounded(MUL_LIMIT as int),
            b.bounded(MUL_LIMIT as int),
        ensures
            r.wf(),
            r.den == a.den * b.den,
            mat_vals(r) == mul_vals(mat_vals(*a), mat_vals(*b)),
    {
        proof {
            lemma_mul_bounds(a.den as int, b.den as int, MUL_LIMIT as int, MUL_LIMIT as int);
            assert(a.den * b.den >= 1) by (nonlinear_arith)
                requires
                    a.den >= 1,
                    b.den >= 1,
            ;
        }
        let den = a.den * b.den;
        let mut data: Vec<i64> = Vec::new();
        let mut i: usize = 0;
        while i < 16
            invariant
                i <= 16,
                data@.len() == i,
                a.wf(),
                b.wf(),
                a.bounded(MUL_LIMIT as int),
                b.bounded(MUL_LIMIT as int),
                forall|j: int| 0 <= j < i ==>
                    #[trigger] data@[j] as int == mul_entry(mat_vals(*a), mat_vals(*b), j),
            decreases 16 - i,
        {
            let row = i % 4;
            let col = i / 4;
            let x0 = a.data[row];
            let x1 = a.data[row + 4];
            let x2 = a.data[row + 8];
            let x3 = a.data[row + 12];
            let y0 = b.data[4 * col];
            let y1 = b.data[4 * col + 1];
            let y2 = b.data[4 * col + 2];
            let y3 = b.data[4 * col + 3];
            proof {
                lemma_mul_bounds(x0 as int, y0 as int, MUL_LIMIT as int, MUL_LIMIT as int);
                lemma_mul_bounds(x1 as int, y1 as int, MUL_LIMIT as int, MUL_LIMIT as int);
                lemma_mul_bounds(x2 as int, y2 as int, MUL_LIMIT as int, MUL_LIMIT as int);
                lemma_mul_bounds(x3 as int, y3 as int, MUL_LIMIT as int, MUL_LIMIT as int);
            }
            let e = x0 * y0 + x1 * y1 + x2 * y2 + x3 * y3;
            proof {
                assert((i as int) % 4 == row as int && (i as int) / 4 == col as int);
                assert(e as int == mul_entry(mat_vals(*a), mat_vals(*b), i as int));
            }
            data.push(e);
            i += 1;
        }
        let r = Matrix4x4 { data, den };
        proof {
            assert(mat_vals(r) =~= mul_vals(mat_vals(*a), mat_vals(*b)));
        }
        r
    }

    /// The image of the point `v` (homogeneous coordinate one) under
    /// this matrix: component numerators are the integer dot products
    /// against the columns and the denominators multiply.
    pub fn transform_point(&self, v: &Vector3) -> (r: Vector3)
        requires
            self.wf(),
            v.wf(),
            self.bounded(APPLY_MAT_LIMIT as int),
            v.bounded(APPLY_VEC_LIMIT as int),
        ensures
            r.wf(),
            r.den == self.den * v.den,
            r.x as int == apply_val(
                mat_vals(*self), v.x as int, v.y as int, v.z as int, v.den as int, 0),
            r.y as int == apply_val(
                mat_vals(*self), v.x as int, v.y as int, v.z as int, v.den as int, 1),
            r.z as int == apply_val(
                mat_vals(*self), v.x as int, v.y as int, v.z as int, v.den as int, 2),
    {
        proof {
            lemma_mul_bounds(self.den as int, v.den as int, APPLY_MAT_LIMIT as int,
                APPLY_VEC_LIMIT as int);
            assert(self.den * v.den >= 1) by (nonlinear_arith)
                requires
                    self.den >= 1,
                    v.den >= 1,
            ;
        }
        let den = self.den * v.den;
        let x = self.apply_component(v, 0);
        let y = self.apply_component(v, 1);
        let z = self.apply_component(v, 2);
        Vector3 { x, y, z, den }
    }

    /// One component of `transform_point`'s dot product.
    fn apply_component(&self, v: &Vector3, row: usize) -> (r: i64)
        requires
            self.wf(),
            v.wf(),
            row < 4,
            self.bounded(APPLY_MAT_LIMIT as int),
            v.bounded(APPLY_VEC_LIMIT as int),
        ensures
            r as int == apply_val(
                mat_vals(*self), v.x as int, v.y as int, v.z as int, v.den as int, row as int),
    {
        let m0 = self.data[row];
        let m1 = self.data[row + 4];
        let m2 = self.data[row + 8];
        let m3 = self.data[row + 12];
        proof {
            lemma_mul_bounds(m0 as int, v.x as int, APPLY_MAT_LIMIT as int, APPLY_VEC_LIMIT as int);
            lemma_mul_bounds(m1 as int, v.y as int, APPLY_MAT_LIMIT as int, APPLY_VEC_LIMIT as int);
            lemma_mul_bounds(m2 as int, v.z as int, APPLY_MAT_LIMIT as int, APPLY_VEC_LIMIT as int);
            lemma_mul_bounds(m3 as int, v.den as int, APPLY_MAT_LIMIT as int,
                APPLY_VEC_LIMIT as int);
        }
        m0 * v.x + m1 * v.y + m2 * v.z + m3 * v.den
    }
}

/// Matrix composition composes actions in right-to-left order:
/// applying the product `a * b` to a homogeneous point is applying `b`
/// first and `a` to the result (numerators shown; the denominators
/// multiply on both sides alike). In particular
/// `Translation * RotationZ * Scale` scales a point first, then
/// rotates it, then translates it.
pub proof fn lemma_multiply_applies_in_sequence(
    a: Seq<int>,
    b: Seq<int>,
    x: int,
    y: int,
    z: int,
    w: int,
    row: int,
)
    requires
        a.len() == 16,
        b.len() == 16,
        0 <= row < 4,
    ensures
        apply_val(mul_vals(a, b), x, y, z, w, row) == apply_val(
            a,
            apply_val(b, x, y, z, w, 0),
            apply_val(b, x, y, z, w, 1),
            apply_val(b, x, y, z, w, 2),
            apply_val(b, x, y, z, w, 3),
            row,
        ),
{
    let m0 = mul_entry(a, b, row);
    let m1 = mul_entry(a, b, row + 4);
    let m2 = mul_entry(a, b, row + 8);
    let m3 = mul_entry(a, b, row + 12);
    let bx = apply_val(b, x, y, z, w, 0);
    let by = apply_val(b, x, y, z, w, 1);
    let bz = apply_val(b, x, y, z, w, 2);
    let bw = apply_val(b, x, y, z, w, 3);
    assert(row % 4 == row && row / 4 == 0);
    assert((row + 4) % 4 == row && (row + 4) / 4 == 1);
    assert((row + 8) % 4 == row && (row + 8) / 4 == 2);
    assert((row + 12) % 4 == row && (row + 12) / 4 == 3);
    assert(m0 == a[row] * b[0] + a[row + 4] * b[1] + a[row + 8] * b[2] + a[row + 12] * b[3]);
    assert(m1 == a[row] * b[4] + a[row + 4] * b[5] + a[row + 8] * b[6] + a[row + 12] * b[7]);
    assert(m2 == a[row] * b[8] + a[row + 4] * b[9] + a[row + 8] * b[10] + a[row + 12] * b[11]);
    assert(m3 == a[row] * b[12] + a[row + 4] * b[13] + a[row + 8] * b[14] + a[row + 12] * b[15]);
    assert(bx == b[0] * x + b[4] * y + b[8] * z + b[12] * w);
    assert(by == b[1] * x + b[5] * y + b[9] * z + b[13] * w);
    assert(bz == b[2] * x + b[6] * y + b[10] * z + b[14] * w);
    assert(bw == b[3] * x + b[7] * y + b[11] * z + b[15] * w);
    assert(m0 * x == (a[row] * b[0]) * x + (a[row + 4] * b[1]) * x + (a[row + 8] * b[2]) * x + (a[
        row + 12] * b[3]) * x) by (nonlinear_arith)
        requires
            m0 == a[row] * b[0] + a[row + 4] * b[1] + a[row + 8] * b[2] + a[row + 12] * b[3],
    ;
    assert(m1 * y == (a[row] * b[4]) * y + (a[row + 4] * b[5]) * y + (a[row + 8] * b[6]) * y + (a[
        row + 12] * b[7]) * y) by (nonlinear_arith)
        requires
            m1 == a[row] * b[4] + a[row + 4] * b[5] + a[row + 8] * b[6] + a[row + 12] * b[7],
    ;
    assert(m2 * z == (a[row] * b[8]) * z + (a[row + 4] * b[9]) * z + (a[row + 8] * b[10]) * z + (
        a[row + 12] * b[11]) * z) by (nonlinear_arith)
        requires
            m2 == a[row] * b[8] + a[row + 4] * b[9] + a[row + 8] * b[10] + a[row + 12] * b[11],
    ;
    assert(m3 * w == (a[row] * b[12]) * w + (a[row + 4] * b[13]) * w + (a[row + 8] * b[14]) * w
        + (a[row + 12] * b[15]) * w) by (nonlinear_arith)
        requires
            m3 == a[row] * b[12] + a[row + 4] * b[13] + a[row + 8] * b[14] + a[row + 12] * b[15],
    ;
    assert((a[row] * b[0]) * x == a[row] * (b[0] * x)) by (nonlinear_arith);
    assert((a[row + 4] * b[1]) * x == a[row + 4] * (b[1] * x)) by (nonlinear_arith);
    assert((a[row + 8] * b[2]) * x == a[row + 8] * (b[2] * x)) by (nonlinear_arith);
    assert((a[row + 12] * b[3]) * x == a[row + 12] * (b[3] * x)) by (nonlinear_arith);
    assert((a[row] * b[4]) * y == a[row] * (b[4] * y)) by (nonlinear_arith);
    assert((a[row + 4] * b[5]) * y == a[row + 4] * (b[5] * y)) by (nonlinear_arith);
    assert((a[row + 8] * b[6]) * y == a[row + 8] * (b[6] * y)) by (nonlinear_arith);
    assert((a[row + 12] * b[7]) * y == a[row + 12] * (b[7] * y)) by (nonlinear_arith);
    assert((a[row] * b[8]) * z == a[row] * (b[8] * z)) by (nonlinear_arith);
    assert((a[row + 4] * b[9]) * z == a[row + 4] * (b[9] * z)) by (nonlinear_arith);
    assert((a[row + 8] * b[10]) * z == a[row + 8] * (b[10] * z)) by (nonlinear_arith);
    assert((a[row + 12] * b[11]) * z == a[row + 12] * (b[11] * z)) by (nonlinear_arith);
    assert((a[row] * b[12]) * w == a[row] * (b[12] * w)) by (nonlinear_arith);
    assert((a[row + 4] * b[13]) * w == a[row + 4] * (b[13] * w)) by (nonlinear_arith);
    assert((a[row + 8] * b[14]) * w == a[row + 8] * (b[14] * w)) by (nonlinear_arith);
    assert((a[row + 12] * b[15]) * w == a[row + 12] * (b[15] * w)) by (nonlinear_arith);
    assert(a[row] * bx == a[row] * (b[0] * x) + a[row] * (b[4] * y) + a[row] * (b[8] * z) + a[row]
        * (b[12] * w)) by (nonlinear_arith)
        requires
            bx == b[0] * x + b[4] * y + b[8] * z + b[12] * w,
    ;
    assert(a[row + 4] * by == a[row + 4] * (b[1] * x) + a[row + 4] * (b[5] * y) + a[row + 4] * (b[
        9] * z) + a[row + 4] * (b[13] * w)) by (nonlinear_arith)
        requires
            by == b[1] * x + b[5] * y + b[9] * z + b[13] * w,
    ;
    assert(a[row + 8] * bz == a[row + 8] * (b[2] * x) + a[row + 8] * (b[6] * y) + a[row + 8] * (b[
        10] * z) + a[row + 8] * (b[14] * w)) by (nonlinear_arith)
        requires
            bz == b[2] * x + b[6] * y + b[10] * z + b[14] * w,
    ;
    assert(a[row + 12] * bw == a[row + 12] * (b[3] * x) + a[row + 12] * (b[7] * y) + a[row + 12]
        * (b[11] * z) + a[row + 12] * (b[15] * w)) by (nonlinear_arith)
        requires
            bw == b[3] * x + b[7] * y + b[11] * z + b[15] * w,
    ;
    assert(m0 * x + m1 * y + m2 * z + m3 * w == a[row] * bx + a[row + 4] * by + a[row + 8] * bz
        + a[row + 12] * bw);
    assert(mul_vals(a, b)[row] == m0 && mul_vals(a, b)[row + 4] == m1 && mul_vals(a, b)[row + 8]
        == m2 && mul_vals(a, b)[row + 12] == m3);
}

/// The orthographic projection takes the box's low corner to clip
/// `(-1, -1, -1)` and its high corner to `(1, 1, 1)`: each image
/// numerator below equals minus (resp. plus) the image's denominator,
/// which is `ortho_den` times the corner's denominator one.
pub proof fn lemma_orthographic_round_trip(l: int, r: int, b: int, t: int, n: int, f: int)
    requires
        l < r,
        b < t,
        n < f,
    ensures
        ortho_den(l, r, b, t, n, f) >= 1,
        apply_val(ortho_vals(l, r, b, t, n, f), l, b, n, 1, 0) == -ortho_den(l, r, b, t, n, f),
        apply_val(ortho_vals(l, r, b, t, n, f), l, b, n, 1, 1) == -ortho_den(l, r, b, t, n, f),
        apply_val(ortho_vals(l, r, b, t, n, f), l, b, n, 1, 2) == -ortho_den(l, r, b, t, n, f),
        apply_val(ortho_vals(l, r, b, t, n, f), r, t, f, 1, 0) == ortho_den(l, r, b, t, n, f),
        apply_val(ortho_vals(l, r, b, t, n, f), r, t, f, 1, 1) == ortho_den(l, r, b, t, n, f),
        apply_val(ortho_vals(l, r, b, t, n, f), r, t, f, 1, 2) == ortho_den(l, r, b, t, n, f),
        apply_val(ortho_vals(l, r, b, t, n, f), l, b, n, 1, 3) == ortho_den(l, r, b, t, n, f),
        apply_val(ortho_vals(l, r, b, t, n, f), r, t, f, 1, 3) == ortho_den(l, r, b, t, n, f),
{
    let ov = ortho_vals(l, r, b, t, n, f);
    assert((r - l) * (t - b) * (f - n) >= 1) by (nonlinear_arith)
        requires
            l < r,
            b < t,
            n < f,
    ;
    assert(ov[0] == 2 * (t - b) * (f - n) && ov[4] == 0 && ov[8] == 0 && ov[12] == -((r + l) * (t
        - b) * (f - n)));
    assert(ov[1] == 0 && ov[5] == 2 * (r - l) * (f - n) && ov[9] == 0 && ov[13] == -((t + b) * (r
        - l) * (f - n)));
    assert(ov[2] == 0 && ov[6] == 0 && ov[10] == 2 * (r - l) * (t - b) && ov[14] == -((f + n) * (r
        - l) * (t - b)));
    assert(ov[4] * b == 0 && ov[8] * n == 0 && ov[1] * l == 0 && ov[9] * n == 0 && ov[2] * l == 0
        && ov[6] * b == 0);
    assert(ov[4] * t == 0 && ov[8] * f == 0 && ov[1] * r == 0 && ov[9] * f == 0 && ov[2] * r == 0
        && ov[6] * t == 0);
    assert(ov[0] * l == 2 * (t - b) * (f - n) * l && ov[0] * r == 2 * (t - b) * (f - n) * r);
    assert(ov[5] * b == 2 * (r - l) * (f - n) * b && ov[5] * t == 2 * (r - l) * (f - n) * t);
    assert(ov[10] * n == 2 * (r - l) * (t - b) * n && ov[10] * f == 2 * (r - l) * (t - b) * f);
    assert(2 * (t - b) * (f - n) * l + (-((r + l) * (t - b) * (f - n))) * 1 == -((r - l) * (t - b)
        * (f - n))) by (nonlinear_arith);
    assert(2 * (r - l) * (f - n) * b + (-((t + b) * (r - l) * (f - n))) * 1 == -((r - l) * (t - b)
        * (f - n))) by (nonlinear_arith);
    assert(2 * (r - l) * (t - b) * n + (-((f + n) * (r - l) * (t - b))) * 1 == -((r - l) * (t - b)
        * (f - n))) by (nonlinear_arith);
    assert(2 * (t - b) * (f - n) * r + (-((r + l) * (t - b) * (f - n))) * 1 == (r - l) * (t - b)
        * (f - n)) by (nonlinear_arith);
    assert(2 * (r - l) * (f - n) * t + (-((t + b) * (r - l) * (f - n))) * 1 == (r - l) * (t - b)
        * (f - n)) by (nonlinear_arith);
    assert(2 * (r - l) * (t - b) * f + (-((f + n) * (r - l) * (t - b))) * 1 == (r - l) * (t - b)
        * (f - n)) by (nonlinear_arith);
    assert(apply_val(ov, l, b, n, 1, 0) == ov[0] * l + ov[4] * b + ov[8] * n + ov[12] * 1);
    assert(apply_val(ov, l, b, n, 1, 1) == ov[1] * l + ov[5] * b + ov[9] * n + ov[13] * 1);
    assert(apply_val(ov, l, b, n, 1, 2) == ov[2] * l + ov[6] * b + ov[10] * n + ov[14] * 1);
    assert(apply_val(ov, r, t, f, 1, 0) == ov[0] * r + ov[4] * t + ov[8] * f + ov[12] * 1);
    assert(apply_val(ov, r, t, f, 1, 1) == ov[1] * r + ov[5] * t + ov[9] * f + ov[13] * 1);
    assert(apply_val(ov, r, t, f, 1, 2) == ov[2] * r + ov[6] * t + ov[10] * f + ov[14] * 1);
    assert(ov[3] == 0 && ov[7] == 0 && ov[11] == 0 && ov[15] == (r - l) * (t - b) * (f - n));
    assert(ov[3] * l == 0 && ov[7] * b == 0 && ov[11] * n == 0);
    assert(ov[3] * r == 0 && ov[7] * t == 0 && ov[11] * f == 0);
    assert(apply_val(ov, l, b, n, 1, 3) == ov[3] * l + ov[7] * b + ov[11] * n + ov[15] * 1);
    assert(apply_val(ov, r, t, f, 1, 3) == ov[3] * r + ov[7] * t + ov[11] * f + ov[15] * 1);
}

} // verus!
