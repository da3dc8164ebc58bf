//! Fixed-point vectors and 4x4 matrices. Matrices are stored column-major
//! (entry `(row, col)` at index `col * 4 + row`), the layout the graphics
//! API consumes directly. The view of a matrix is the mathematical sequence
//! of its sixteen entries, and every constructor and product is proved
//! equal to its specification-level counterpart.

use vstd::prelude::*;

use crate::fx::{
    cos_fx, cos_fx_spec, fx_div, fx_mul, fx_mul_spec, lemma_tdiv_bound, sin_fx,
    sin_fx_spec, tdiv, FX_ONE,
};

verus! {

/// Largest magnitude an entry of a matrix handed to `multiply` may have.
pub const MAT_LIMIT: i64 = 0x100_0000_0000;

/// A two-component fixed-point vector (texture coordinates).
#[derive(Clone, Copy, Debug, PartialEq, Eq, Structural)]
pub struct Vector2 {
    pub x: i64,
    pub y: i64,
}

impl Vector2 {
    pub fn new(x: i64, y: i64) -> (r: Vector2)
        ensures
            r == (Vector2 { x, y }),
    {
        Vector2 { x, y }
    }

    pub fn zero() -> (r: Vector2)
        ensures
            r == (Vector2 { x: 0i64, y: 0i64 }),
    {
        Vector2 { x: 0, y: 0 }
    }

    pub fn one() -> (r: Vector2)
        ensures
            r == (Vector2 { x: FX_ONE, y: FX_ONE }),
    {
        Vector2 { x: FX_ONE, y: FX_ONE }
    }
}

/// A three-component fixed-point vector.
#[derive(Clone, Copy, Debug, PartialEq, Eq, Structural)]
pub struct Vector3 {
    pub x: i64,
    pub y: i64,
    pub z: i64,
}

/// All three components within `[-lim, lim]`.
pub open spec fn v3_bounded(v: Vector3, lim: int) -> bool {
    &&& -lim <= v.x <= lim
    &&& -lim <= v.y <= lim
    &&& -lim <= v.z <= lim
}

impl Vector3 {
    pub fn new(x: i64, y: i64, z: i64) -> (r: Vector3)
        ensures
            r == (Vector3 { x, y, z }),
    {
        Vector3 { x, y, z }
    }

    pub fn zero() -> (r: Vector3)
        ensures
            r == (Vector3 { x: 0i64, y: 0i64, z: 0i64 }),
    {
        Vector3 { x: 0, y: 0, z: 0 }
    }

    pub fn one() -> (r: Vector3)
        ensures
            r == (Vector3 { x: FX_ONE, y: FX_ONE, z: FX_ONE }),
    {
        Vector3 { x: FX_ONE, y: FX_ONE, z: FX_ONE }
    }

    /// Componentwise sum.
    pub fn add(&self, other: &Vector3) -> (r: Vector3)
        requires
            i64::MIN <= self.x + other.x <= i64::MAX,
            i64::MIN <= self.y + other.y <= i64::MAX,
            i64::MIN <= self.z + other.z <= i64::MAX,
        ensures
            r == (Vector3 {
                x: (self.x + other.x) as i64,
                y: (self.y + other.y) as i64,
                z: (self.z + other.z) as i64,
            }),
    {
        Vector3 { x: self.x + other.x, y: self.y + other.y, z: self.z + other.z }
    }

    /// Componentwise difference.
    pub fn sub(&self, other: &Vector3) -> (r: Vector3)
        requires
            i64::MIN <= self.x - other.x <= i64::MAX,
            i64::MIN <= self.y - other.y <= i64::MAX,
            i64::MIN <= self.z - other.z <= i64::MAX,
        ensures
            r == (Vector3 {
                x: (self.x - other.x) as i64,
                y: (self.y - other.y) as i64,
                z: (self.z - other.z) as i64,
            }),
    {
        Vector3 { x: self.x - other.x, y: self.y - other.y, z: self.z - other.z }
    }

    /// Componentwise negation.
    pub fn neg(&self) -> (r: Vector3)
        requires
            self.x != i64::MIN,
            self.y != i64::MIN,
            self.z != i64::MIN,
        ensures
            r == (Vector3 { x: (-self.x) as i64, y: (-self.y) as i64, z: (-self.z) as i64 }),
    {
        Vector3 { x: -self.x, y: -self.y, z: -self.z }
    }

    /// Rescale by a fixed-point factor.
    pub fn scale(&self, factor: i64) -> (r: Vector3)
        requires
            -0x7fff_ffff_ffff_ffff <= self.x * factor <= 0x7fff_ffff_ffff_ffff,
            -0x7fff_ffff_ffff_ffff <= self.y * factor <= 0x7fff_ffff_ffff_ffff,
            -0x7fff_ffff_ffff_ffff <= self.z * factor <= 0x7fff_ffff_ffff_ffff,
        ensures
            r.x == fx_mul_spec(self.x as int, factor as int),
            r.y == fx_mul_spec(self.y as int, factor as int),
            r.z == fx_mul_spec(self.z as int, factor as int),
    {
        Vector3 {
            x: fx_mul(self.x, factor),
            y: fx_mul(self.y, factor),
            z: fx_mul(self.z, factor),
        }
    }
}

/// A four-component fixed-point vector (clear colors).
#[derive(Clone, Copy, Debug, PartialEq, Eq, Structural)]
pub struct Vector4 {
    pub x: i64,
    pub y: i64,
    pub z: i64,
    pub w: i64,
}

impl Vector4 {
    pub fn new(x: i64, y: i64, z: i64, w: i64) -> (r: Vector4)
        ensures
            r == (Vector4 { x, y, z, w }),
    {
        Vector4 { x, y, z, w }
    }

    pub fn zero() -> (r: Vector4)
        ensures
            r == (Vector4 { x: 0i64, y: 0i64, z: 0i64, w: 0i64 }),
    {
        Vector4 { x: 0, y: 0, z: 0, w: 0 }
    }

    pub fn one() -> (r: Vector4)
        ensures
            r == (Vector4 { x: FX_ONE, y: FX_ONE, z: FX_ONE, w: FX_ONE }),
    {
        Vector4 { x: FX_ONE, y: FX_ONE, z: FX_ONE, w: FX_ONE }
    }
}

/// The identity matrix, as a sequence of entries.
pub open spec fn identity_m() -> Seq<int> {
    let one = FX_ONE as int;
    seq![
        one, 0, 0, 0,
        0, one, 0, 0,
        0, 0, one, 0,
        0, 0, 0, one,
    ]
}

/// The translation matrix by `t`.
pub open spec fn translation_m(t: Vector3) -> Seq<int> {
    let one = FX_ONE as int;
    seq![
        one, 0, 0, 0,
        0, one, 0, 0,
        0, 0, one, 0,
        t.x as int, t.y as int, t.z as int, one,
    ]
}

/// The rotation matrix about the x axis by `a` (fixed-point radians).
pub open spec fn rot_x_m(a: int) -> Seq<int> {
    let one = FX_ONE as int;
    let c = cos_fx_spec(a);
    let s = sin_fx_spec(a);
    seq![
        one, 0, 0, 0,
        0, c, s, 0,
        0, -s, c, 0,
        0, 0, 0, one,
    ]
}

/// The rotation matrix about the y axis by `a`.
pub open spec fn rot_y_m(a: int) -> Seq<int> {
    let one = FX_ONE as int;
    let c = cos_fx_spec(a);
    let s = sin_fx_spec(a);
    seq![
        c, 0, -s, 0,
        0, one, 0, 0,
        s, 0, c, 0,
        0, 0, 0, one,
    ]
}

/// The rotation matrix about the z axis by `a`.
pub open spec fn rot_z_m(a: int) -> Seq<int> {
    let one = FX_ONE as int;
    let c = cos_fx_spec(a);
    let s = sin_fx_spec(a);
    seq![
        c, s, 0, 0,
        -s, c, 0, 0,
        0, 0, one, 0,
        0, 0, 0, one,
    ]
}

/// The nonuniform scale matrix by `s`.
pub open spec fn scale_m(s: Vector3) -> Seq<int> {
    let one = FX_ONE as int;
    seq![
        s.x as int, 0, 0, 0,
        0, s.y as int, 0, 0,
        0, 0, s.z as int, 0,
        0, 0, 0, one,
    ]
}

/// The model matrix of a transform: the fixed composition
/// `translation * rotationZ * rotationY * rotationX * scale`.
pub open spec fn model_m(pos: Vector3, rot: Vector3, scale: Vector3) -> Seq<int> {
    smm(
        smm(
            smm(smm(translation_m(pos), rot_z_m(rot.z as int)), rot_y_m(rot.y as int)),
            rot_x_m(rot.x as int),
        ),
        scale_m(scale),
    )
}


/// The right-handed perspective projection matrix for a vertical field of
/// view, aspect ratio, and near/far planes (all fixed-point), mirroring
/// the standard `f = cot(fovy / 2)` construction.
pub open spec fn perspective_m(fovy: int, aspect: int, near: int, far: int) -> Seq<int> {
    let half = tdiv(fovy, 2);
    let f = crate::fx::fx_div_spec(cos_fx_spec(half), sin_fx_spec(half));
    let r = crate::fx::fx_div_spec(far, near - far);
    seq![
        crate::fx::fx_div_spec(f, aspect), 0, 0, 0,
        0, f, 0, 0,
        0, 0, r, -(FX_ONE as int),
        0, 0, fx_mul_spec(r, near), 0,
    ]
}

/// Fixed-point matrix product of two entry sequences: each entry is the
/// row-by-column sum of products, rescaled by one fixed-point unit.
pub open spec fn smm(a: Seq<int>, b: Seq<int>) -> Seq<int> {
    Seq::new(16, |i: int| {
        let r = i % 4;
        let c = i / 4;
        tdiv(
            a[r] * b[c * 4] + a[4 + r] * b[c * 4 + 1] + a[8 + r] * b[c * 4 + 2]
                + a[12 + r] * b[c * 4 + 3],
            FX_ONE as int,
        )
    })
}

/// Sixteen entries, all within `[-lim, lim]`.
pub open spec fn mat_bounded(m: Seq<int>, lim: int) -> bool {
    &&& m.len() == 16
    &&& -lim <= m[0] <= lim
    &&& -lim <= m[1] <= lim
    &&& -lim <= m[2] <= lim
    &&& -lim <= m[3] <= lim
    &&& -lim <= m[4] <= lim
    &&& -lim <= m[5] <= lim
    &&& -lim <= m[6] <= lim
    &&& -lim <= m[7] <= lim
    &&& -lim <= m[8] <= lim
    &&& -lim <= m[9] <= lim
    &&& -lim <= m[10] <= lim
    &&& -lim <= m[11] <= lim
    &&& -lim <= m[12] <= lim
    &&& -lim <= m[13] <= lim
    &&& -lim <= m[14] <= lim
    &&& -lim <= m[15] <= lim
}

/// Every entry of the product fits an `i64`.
pub open spec fn smm_fits(a: Seq<int>, b: Seq<int>) -> bool {
    mat_bounded(smm(a, b), 0x7fff_ffff_ffff_ffff)
}

/// A 4x4 fixed-point matrix, stored column-major.
#[derive(Clone, Copy, Debug)]
pub struct Matrix4 {
    pub data: [i64; 16],
}

impl View for Matrix4 {
    type V = Seq<int>;

    open spec fn view(&self) -> Seq<int> {
        Seq::new(16, |i: int| self.data@[i] as int)
    }
}

impl Matrix4 {
    /// The identity matrix.
    pub fn identity() -> (r: Matrix4)
        ensures
            r@ == identity_m(),
    {
        let r = Matrix4 {
            data: [
                FX_ONE, 0, 0, 0,
                0, FX_ONE, 0, 0,
                0, 0, FX_ONE, 0,
                0, 0, 0, FX_ONE,
            ],
        };
        proof {
            assert(r@ =~= identity_m());
        }
        r
    }

    /// The entries in memory order, ready for a graphics-API upload.
    pub fn to_array(&self) -> (r: [i64; 16])
        ensures
            r@ == self.data@,
    {
        self.data
    }

    /// The translation matrix by `t`.
    pub fn from_translation(t: Vector3) -> (r: Matrix4)
        ensures
            r@ == translation_m(t),
    {
        let r = Matrix4 {
            data: [
                FX_ONE, 0, 0, 0,
                0, FX_ONE, 0, 0,
                0, 0, FX_ONE, 0,
                t.x, t.y, t.z, FX_ONE,
            ],
        };
        proof {
            assert(r@ =~= translation_m(t));
        }
        r
    }

    /// The rotation matrix about the x axis by `a` (fixed-point radians).
    pub fn from_rotation_x(a: i64) -> (r: Matrix4)
        requires
            a != i64::MIN,
        ensures
            r@ == rot_x_m(a as int),
    {
        let c = cos_fx(a);
        let s = sin_fx(a);
        let r = Matrix4 {
            data: [
                FX_ONE, 0, 0, 0,
                0, c, s, 0,
                0, -s, c, 0,
                0, 0, 0, FX_ONE,
            ],
        };
        proof {
            assert(r@ =~= rot_x_m(a as int));
        }
        r
    }

    /// The rotation matrix about the y axis by `a`.
    pub fn from_rotation_y(a: i64) -> (r: Matrix4)
        requires
            a != i64::MIN,
        ensures
            r@ == rot_y_m(a as int),
    {
        let c = cos_fx(a);
        let s = sin_fx(a);
        let r = Matrix4 {
            data: [
                c, 0, -s, 0,
                0, FX_ONE, 0, 0,
                s, 0, c, 0,
                0, 0, 0, FX_ONE,
            ],
        };
        proof {
            assert(r@ =~= rot_y_m(a as int));
        }
        r
    }

    /// The rotation matrix about the z axis by `a`.
    pub fn from_rotation_z(a: i64) -> (r: Matrix4)
        requires
            a != i64::MIN,
        ensures
            r@ == rot_z_m(a as int),
    {
        let c = cos_fx(a);
        let s = sin_fx(a);
        let r = Matrix4 {
            data: [
                c, s, 0, 0,
                -s, c, 0, 0,
                0, 0, FX_ONE, 0,
                0, 0, 0, FX_ONE,
            ],
        };
        proof {
            assert(r@ =~= rot_z_m(a as int));
        }
        r
    }

    /// The nonuniform scale matrix by `s`.
    pub fn from_scale(s: Vector3) -> (r: Matrix4)
        ensures
            r@ == scale_m(s),
    {
        let r = Matrix4 {
            data: [
                s.x, 0, 0, 0,
                0, s.y, 0, 0,
                0, 0, s.z, 0,
                0, 0, 0, FX_ONE,
            ],
        };
        proof {
            assert(r@ =~= scale_m(s));
        }
        r
    }

    /// The fixed-point matrix product `self * other`.
    pub fn multiply(&self, other: &Matrix4) -> (r: Matrix4)
        requires
            mat_bounded(self@, MAT_LIMIT as int),
            mat_bounded(other@, MAT_LIMIT as int),
            smm_fits(self@, other@),
        ensures
            r@ == smm(self@, other@),
    {
        let r = Matrix4 {
            data: [
                mm_entry(self, other, 0, 0),
                mm_entry(self, other, 1, 0),
                mm_entry(self, other, 2, 0),
                mm_entry(self, other, 3, 0),
                mm_entry(self, other, 0, 1),
                mm_entry(self, other, 1, 1),
                mm_entry(self, other, 2, 1),
                mm_entry(self, other, 3, 1),
                mm_entry(self, other, 0, 2),
                mm_entry(self, other, 1, 2),
                mm_entry(self, other, 2, 2),
                mm_entry(self, other, 3, 2),
                mm_entry(self, other, 0, 3),
                mm_entry(self, other, 1, 3),
                mm_entry(self, other, 2, 3),
                mm_entry(self, other, 3, 3),
            ],
        };
        proof {
            assert(r@ =~= smm(self@, other@));
        }
        r
    }
    /// The right-handed perspective projection matrix.
    pub fn perspective_rh(fovy: i64, aspect: i64, near: i64, far: i64) -> (r: Matrix4)
        requires
            fovy != i64::MIN,
            sin_fx_spec(tdiv(fovy as int, 2)) != 0,
            1 <= aspect,
            0 <= near,
            near < far,
            far <= 0x4000_0000,
            far - near >= FX_ONE,
        ensures
            r@ == perspective_m(fovy as int, aspect as int, near as int, far as int),
    {
        let half = crate::fx::tdiv_i64(fovy, 2);
        let s = sin_fx(half);
        let c = cos_fx(half);
        let f = fx_div(c, s);
        proof {
            if s >= 0 {
                lemma_tdiv_bound((c * FX_ONE) as int, s as int, 0x1_0000_0000);
                vstd::arithmetic::div_mod::lemma_div_is_ordered_by_denominator(
                    0x1_0000_0000, 1, s as int);
            } else {
                lemma_tdiv_bound((c * FX_ONE) as int, (-s) as int, 0x1_0000_0000);
                vstd::arithmetic::div_mod::lemma_div_is_ordered_by_denominator(
                    0x1_0000_0000, 1, (-s) as int);
            }
        }
        let m00 = fx_div(f, aspect);
        let rr = fx_div(far, near - far);
        proof {
            lemma_tdiv_bound((far * FX_ONE) as int, (far - near) as int,
                far * (FX_ONE as int));
            vstd::arithmetic::div_mod::lemma_div_is_ordered_by_denominator(
                far * (FX_ONE as int), FX_ONE as int, (far - near) as int);
            vstd::arithmetic::div_mod::lemma_div_multiples_vanish(
                far as int, FX_ONE as int);
            assert(far * (FX_ONE as int) == (FX_ONE as int) * far);
            lemma_product_bound2(rr as int, near as int, 0x4000_0000, 0x4000_0000);
        }
        let m32 = fx_mul(rr, near);
        let r = Matrix4 {
            data: [
                m00, 0, 0, 0,
                0, f, 0, 0,
                0, 0, rr, -FX_ONE,
                0, 0, m32, 0,
            ],
        };
        proof {
            assert(r@ =~= perspective_m(fovy as int, aspect as int, near as int,
                far as int));
        }
        r
    }

}

/// One entry of the fixed-point matrix product, accumulated in 128 bits.
#[verifier::rlimit(60)]
fn mm_entry(a: &Matrix4, b: &Matrix4, r: usize, c: usize) -> (e: i64)
    requires
        r < 4,
        c < 4,
        mat_bounded(a@, MAT_LIMIT as int),
        mat_bounded(b@, MAT_LIMIT as int),
        smm_fits(a@, b@),
    ensures
        e as int == smm(a@, b@)[c as int * 4 + r as int],
{
    let a0 = a.data[r];
    let a1 = a.data[4 + r];
    let a2 = a.data[8 + r];
    let a3 = a.data[12 + r];
    let b0 = b.data[4 * c];
    let b1 = b.data[4 * c + 1];
    let b2 = b.data[4 * c + 2];
    let b3 = b.data[4 * c + 3];
    proof {
        assert(a0 == a@[r as int] && a1 == a@[4 + r as int] && a2 == a@[8 + r as int]
            && a3 == a@[12 + r as int]);
        assert(b0 == b@[4 * c as int] && b1 == b@[4 * c as int + 1]
            && b2 == b@[4 * c as int + 2] && b3 == b@[4 * c as int + 3]);
        lemma_i64_product_bound(a0 as int, b0 as int, MAT_LIMIT as int);
        lemma_i64_product_bound(a1 as int, b1 as int, MAT_LIMIT as int);
        lemma_i64_product_bound(a2 as int, b2 as int, MAT_LIMIT as int);
        lemma_i64_product_bound(a3 as int, b3 as int, MAT_LIMIT as int);
    }
    let p0 = (a0 as i128) * (b0 as i128);
    let p1 = (a1 as i128) * (b1 as i128);
    let p2 = (a2 as i128) * (b2 as i128);
    let p3 = (a3 as i128) * (b3 as i128);
    let s: i128 = p0 + p1 + p2 + p3;
    let q: i128 = if s >= 0 {
        (((s as u128) / (FX_ONE as u128)) as i128)
    } else {
        proof {
            vstd::arithmetic::div_mod::lemma_div_nonincreasing(
                (-s) as int, FX_ONE as int);
        }
        -((((-s) as u128) / (FX_ONE as u128)) as i128)
    };
    proof {
        let i = c as int * 4 + r as int;
        assert(i % 4 == r as int && i / 4 == c as int);
        assert(q == smm(a@, b@)[i]);
    }
    q as i64
}

/// `|x| <= lim` and `|y| <= lim` bound the product by `lim * lim`.
proof fn lemma_i64_product_bound(x: int, y: int, lim: int)
    requires
        0 <= lim,
        -lim <= x <= lim,
        -lim <= y <= lim,
    ensures
        -(lim * lim) <= x * y <= lim * lim,
{
    assert(-(lim * lim) <= x * y <= lim * lim) by (nonlinear_arith)
        requires 0 <= lim, -lim <= x <= lim, -lim <= y <= lim;
}

/// `|x| <= la` and `|y| <= lb` bound the product by `la * lb`.
proof fn lemma_product_bound2(x: int, y: int, la: int, lb: int)
    requires
        0 <= la,
        0 <= lb,
        -la <= x <= la,
        -lb <= y <= lb,
    ensures
        -(la * lb) <= x * y <= la * lb,
{
    assert(-(la * lb) <= x * y <= la * lb) by (nonlinear_arith)
        requires 0 <= la, 0 <= lb, -la <= x <= la, -lb <= y <= lb;
}

/// One entry of the product of two bounded matrices is bounded by
/// `4 * la * lb` rescaled by one fixed-point unit.
proof fn lemma_smm_entry_bound(a: Seq<int>, b: Seq<int>, la: int, lb: int, i: int)
    requires
        mat_bounded(a, la),
        mat_bounded(b, lb),
        0 <= la,
        0 <= lb,
        0 <= i < 16,
    ensures
        -((4 * (la * lb)) / (FX_ONE as int)) <= smm(a, b)[i]
            <= (4 * (la * lb)) / (FX_ONE as int),
{
    let r = i % 4;
    let c = i / 4;
    assert(0 <= r < 4 && 0 <= c < 4);
    let s = a[r] * b[c * 4] + a[4 + r] * b[c * 4 + 1] + a[8 + r] * b[c * 4 + 2]
        + a[12 + r] * b[c * 4 + 3];
    lemma_product_bound2(a[r], b[c * 4], la, lb);
    lemma_product_bound2(a[4 + r], b[c * 4 + 1], la, lb);
    lemma_product_bound2(a[8 + r], b[c * 4 + 2], la, lb);
    lemma_product_bound2(a[12 + r], b[c * 4 + 3], la, lb);
    assert(-(4 * (la * lb)) <= s <= 4 * (la * lb));
    lemma_tdiv_bound(s, FX_ONE as int, 4 * (la * lb));
}

/// The product of two bounded matrices is bounded by `4 * la * lb`
/// rescaled by one fixed-point unit.
pub proof fn lemma_smm_bounded(a: Seq<int>, b: Seq<int>, la: int, lb: int)
    requires
        mat_bounded(a, la),
        mat_bounded(b, lb),
        0 <= la,
        0 <= lb,
    ensures
        mat_bounded(smm(a, b), (4 * (la * lb)) / (FX_ONE as int)),
{
    lemma_smm_entry_bound(a, b, la, lb, 0);
    lemma_smm_entry_bound(a, b, la, lb, 1);
    lemma_smm_entry_bound(a, b, la, lb, 2);
    lemma_smm_entry_bound(a, b, la, lb, 3);
    lemma_smm_entry_bound(a, b, la, lb, 4);
    lemma_smm_entry_bound(a, b, la, lb, 5);
    lemma_smm_entry_bound(a, b, la, lb, 6);
    lemma_smm_entry_bound(a, b, la, lb, 7);
    lemma_smm_entry_bound(a, b, la, lb, 8);
    lemma_smm_entry_bound(a, b, la, lb, 9);
    lemma_smm_entry_bound(a, b, la, lb, 10);
    lemma_smm_entry_bound(a, b, la, lb, 11);
    lemma_smm_entry_bound(a, b, la, lb, 12);
    lemma_smm_entry_bound(a, b, la, lb, 13);
    lemma_smm_entry_bound(a, b, la, lb, 14);
    lemma_smm_entry_bound(a, b, la, lb, 15);
}

/// The translation matrix by a bounded vector is bounded.
pub proof fn lemma_translation_bounded(t: Vector3, lim: int)
    requires
        FX_ONE <= lim,
        v3_bounded(t, lim),
    ensures
        mat_bounded(translation_m(t), lim),
{
}

/// Every rotation matrix is bounded by one fixed-point unit.
pub proof fn lemma_rotation_bounded(a: int)
    ensures
        mat_bounded(rot_x_m(a), FX_ONE as int),
        mat_bounded(rot_y_m(a), FX_ONE as int),
        mat_bounded(rot_z_m(a), FX_ONE as int),
{
    crate::fx::lemma_sin_cos_range(a);
}

/// The scale matrix by a bounded vector is bounded.
pub proof fn lemma_scale_bounded(s: Vector3, lim: int)
    requires
        FX_ONE <= lim,
        v3_bounded(s, lim),
    ensures
        mat_bounded(scale_m(s), lim),
{
}

/// A four-term dot product where only the first weight is nonzero.
proof fn lemma_select0(t0: int, t1: int, t2: int, t3: int, e0: int, e1: int, e2: int, e3: int, u: int)
    requires
        e0 == u,
        e1 == 0,
        e2 == 0,
        e3 == 0,
    ensures
        t0 * e0 + t1 * e1 + t2 * e2 + t3 * e3 == t0 * u,
        e0 * t0 + e1 * t1 + e2 * t2 + e3 * t3 == t0 * u,
{
    assert(t0 * e0 + t1 * e1 + t2 * e2 + t3 * e3 == t0 * u
        && e0 * t0 + e1 * t1 + e2 * t2 + e3 * t3 == t0 * u) by (nonlinear_arith)
        requires e0 == u, e1 == 0, e2 == 0, e3 == 0;
}

/// A four-term dot product where only the second weight is nonzero.
proof fn lemma_select1(t0: int, t1: int, t2: int, t3: int, e0: int, e1: int, e2: int, e3: int, u: int)
    requires
        e0 == 0,
        e1 == u,
        e2 == 0,
        e3 == 0,
    ensures
        t0 * e0 + t1 * e1 + t2 * e2 + t3 * e3 == t1 * u,
        e0 * t0 + e1 * t1 + e2 * t2 + e3 * t3 == t1 * u,
{
    assert(t0 * e0 + t1 * e1 + t2 * e2 + t3 * e3 == t1 * u
        && e0 * t0 + e1 * t1 + e2 * t2 + e3 * t3 == t1 * u) by (nonlinear_arith)
        requires e0 == 0, e1 == u, e2 == 0, e3 == 0;
}

/// A four-term dot product where only the third weight is nonzero.
proof fn lemma_select2(t0: int, t1: int, t2: int, t3: int, e0: int, e1: int, e2: int, e3: int, u: int)
    requires
        e0 == 0,
        e1 == 0,
        e2 == u,
        e3 == 0,
    ensures
        t0 * e0 + t1 * e1 + t2 * e2 + t3 * e3 == t2 * u,
        e0 * t0 + e1 * t1 + e2 * t2 + e3 * t3 == t2 * u,
{
    assert(t0 * e0 + t1 * e1 + t2 * e2 + t3 * e3 == t2 * u
        && e0 * t0 + e1 * t1 + e2 * t2 + e3 * t3 == t2 * u) by (nonlinear_arith)
        requires e0 == 0, e1 == 0, e2 == u, e3 == 0;
}

/// A four-term dot product where only the fourth weight is nonzero.
proof fn lemma_select3(t0: int, t1: int, t2: int, t3: int, e0: int, e1: int, e2: int, e3: int, u: int)
    requires
        e0 == 0,
        e1 == 0,
        e2 == 0,
        e3 == u,
    ensures
        t0 * e0 + t1 * e1 + t2 * e2 + t3 * e3 == t3 * u,
        e0 * t0 + e1 * t1 + e2 * t2 + e3 * t3 == t3 * u,
{
    assert(t0 * e0 + t1 * e1 + t2 * e2 + t3 * e3 == t3 * u
        && e0 * t0 + e1 * t1 + e2 * t2 + e3 * t3 == t3 * u) by (nonlinear_arith)
        requires e0 == 0, e1 == 0, e2 == 0, e3 == u;
}

/// Multiplying by the identity on the left returns the same matrix.
pub proof fn lemma_smm_identity_left(b: Seq<int>)
    requires
        b.len() == 16,
    ensures
        smm(identity_m(), b) == b,
{
    let one = FX_ONE as int;
    assert forall|i: int| 0 <= i < 16 implies smm(identity_m(), b)[i] == b[i] by {
        let r = i % 4;
        let c = i / 4;
        assert(0 <= r < 4 && 0 <= c < 4);
        assert(c * 4 + r == i);
        let t0 = b[c * 4];
        let t1 = b[c * 4 + 1];
        let t2 = b[c * 4 + 2];
        let t3 = b[c * 4 + 3];
        let s = identity_m()[r] * t0 + identity_m()[4 + r] * t1 + identity_m()[8 + r] * t2
            + identity_m()[12 + r] * t3;
        if r == 0 {
            lemma_select0(t0, t1, t2, t3, identity_m()[r], identity_m()[4 + r],
                identity_m()[8 + r], identity_m()[12 + r], one);
            assert(s == t0 * one);
        } else if r == 1 {
            lemma_select1(t0, t1, t2, t3, identity_m()[r], identity_m()[4 + r],
                identity_m()[8 + r], identity_m()[12 + r], one);
            assert(s == t1 * one);
        } else if r == 2 {
            lemma_select2(t0, t1, t2, t3, identity_m()[r], identity_m()[4 + r],
                identity_m()[8 + r], identity_m()[12 + r], one);
            assert(s == t2 * one);
        } else {
            lemma_select3(t0, t1, t2, t3, identity_m()[r], identity_m()[4 + r],
                identity_m()[8 + r], identity_m()[12 + r], one);
            assert(s == t3 * one);
        }
        assert(s == b[i] * one);
        lemma_tdiv_multiple(b[i]);
    }
    assert(smm(identity_m(), b) =~= b);
}

/// Multiplying by the identity on the right returns the same matrix.
pub proof fn lemma_smm_identity_right(a: Seq<int>)
    requires
        a.len() == 16,
    ensures
        smm(a, identity_m()) == a,
{
    let one = FX_ONE as int;
    assert forall|i: int| 0 <= i < 16 implies smm(a, identity_m())[i] == a[i] by {
        let r = i % 4;
        let c = i / 4;
        assert(0 <= r < 4 && 0 <= c < 4);
        assert(c * 4 + r == i);
        let t0 = a[r];
        let t1 = a[4 + r];
        let t2 = a[8 + r];
        let t3 = a[12 + r];
        let s = t0 * identity_m()[c * 4] + t1 * identity_m()[c * 4 + 1]
            + t2 * identity_m()[c * 4 + 2] + t3 * identity_m()[c * 4 + 3];
        if c == 0 {
            lemma_select0(t0, t1, t2, t3, identity_m()[c * 4], identity_m()[c * 4 + 1],
                identity_m()[c * 4 + 2], identity_m()[c * 4 + 3], one);
            assert(s == t0 * one);
        } else if c == 1 {
            lemma_select1(t0, t1, t2, t3, identity_m()[c * 4], identity_m()[c * 4 + 1],
                identity_m()[c * 4 + 2], identity_m()[c * 4 + 3], one);
            assert(s == t1 * one);
        } else if c == 2 {
            lemma_select2(t0, t1, t2, t3, identity_m()[c * 4], identity_m()[c * 4 + 1],
                identity_m()[c * 4 + 2], identity_m()[c * 4 + 3], one);
            assert(s == t2 * one);
        } else {
            lemma_select3(t0, t1, t2, t3, identity_m()[c * 4], identity_m()[c * 4 + 1],
                identity_m()[c * 4 + 2], identity_m()[c * 4 + 3], one);
            assert(s == t3 * one);
        }
        assert(s == a[i] * one);
        lemma_tdiv_multiple(a[i]);
    }
    assert(smm(a, identity_m()) =~= a);
}

/// `tdiv(x * FX_ONE, FX_ONE) == x`: rescaling an exact multiple is exact.
proof fn lemma_tdiv_multiple(x: int)
    ensures
        tdiv(x * FX_ONE, FX_ONE as int) == x,
        tdiv(FX_ONE * x, FX_ONE as int) == x,
{
    let one = FX_ONE as int;
    if x >= 0 {
        vstd::arithmetic::div_mod::lemma_div_multiples_vanish(x, one);
    } else {
        vstd::arithmetic::div_mod::lemma_div_multiples_vanish(-x, one);
        assert((-(x * one)) == (-x) * one) by (nonlinear_arith);
    }
}


/// A vector of unbounded integers: the mathematical model of a `Vector3`.
pub ghost struct V3i {
    pub x: int,
    pub y: int,
    pub z: int,
}

/// The mathematical value of a fixed-point vector.
pub open spec fn v3i(v: Vector3) -> V3i {
    V3i { x: v.x as int, y: v.y as int, z: v.z as int }
}

/// All three components within `[-lim, lim]`.
pub open spec fn v3i_bounded(v: V3i, lim: int) -> bool {
    &&& -lim <= v.x <= lim
    &&& -lim <= v.y <= lim
    &&& -lim <= v.z <= lim
}

/// Fixed-point dot product.
pub open spec fn dot_s(a: V3i, b: V3i) -> int {
    fx_mul_spec(a.x, b.x) + fx_mul_spec(a.y, b.y) + fx_mul_spec(a.z, b.z)
}

/// Fixed-point cross product.
pub open spec fn cross_s(a: V3i, b: V3i) -> V3i {
    V3i {
        x: fx_mul_spec(a.y, b.z) - fx_mul_spec(a.z, b.y),
        y: fx_mul_spec(a.z, b.x) - fx_mul_spec(a.x, b.z),
        z: fx_mul_spec(a.x, b.y) - fx_mul_spec(a.y, b.x),
    }
}

/// The squared raw length (scaled by one fixed-point unit squared).
pub open spec fn norm2_s(v: V3i) -> int {
    v.x * v.x + v.y * v.y + v.z * v.z
}

/// The fixed-point length.
pub open spec fn vlen_s(v: V3i) -> int {
    crate::fx::sqrt_floor(norm2_s(v))
}

/// Rescale to unit length; the zero vector stays zero.
pub open spec fn normalize_s(v: V3i) -> V3i {
    let l = vlen_s(v);
    if l == 0 {
        V3i { x: 0, y: 0, z: 0 }
    } else {
        V3i {
            x: tdiv(v.x * FX_ONE, l),
            y: tdiv(v.y * FX_ONE, l),
            z: tdiv(v.z * FX_ONE, l),
        }
    }
}

/// A normalized vector's components stay within one fixed-point unit.
pub proof fn lemma_normalize_bounded(v: V3i)
    ensures
        v3i_bounded(normalize_s(v), FX_ONE as int),
{
    let l = vlen_s(v);
    if l != 0 {
        lemma_normalize_component(norm2_s(v), v.x, v.y, v.z);
        lemma_normalize_component(norm2_s(v), v.y, v.x, v.z);
        lemma_normalize_component(norm2_s(v), v.z, v.x, v.y);
    }
}

/// One component of a normalized vector is within one unit: the length
/// dominates the component's magnitude.
proof fn lemma_normalize_component(s: int, c: int, d: int, e: int)
    requires
        s == c * c + d * d + e * e,
        crate::fx::sqrt_floor(s) != 0,
    ensures
        -(FX_ONE as int) <= tdiv(c * FX_ONE, crate::fx::sqrt_floor(s)) <= FX_ONE,
{
    let l = crate::fx::sqrt_floor(s);
    assert(c * c <= s) by (nonlinear_arith)
        requires s == c * c + d * d + e * e;
    crate::fx::lemma_sqrt_ge_component(s, c);
    assert(l >= 1);
    let a = if c >= 0 { c } else { -c };
    assert(a <= l);
    assert(a * FX_ONE <= l * FX_ONE) by (nonlinear_arith)
        requires a <= l, 0 < FX_ONE;
    lemma_tdiv_bound(c * FX_ONE, l, l * (FX_ONE as int));
    vstd::arithmetic::div_mod::lemma_div_multiples_vanish(FX_ONE as int, l);
    assert(l * FX_ONE == l * (FX_ONE as int));
}

/// The cross product of bounded vectors is bounded.
pub proof fn lemma_cross_bounded(a: V3i, b: V3i, la: int, lb: int)
    requires
        v3i_bounded(a, la),
        v3i_bounded(b, lb),
        0 <= la,
        0 <= lb,
    ensures
        v3i_bounded(cross_s(a, b), 2 * ((la * lb) / (FX_ONE as int))),
{
    lemma_product_bound2(a.y, b.z, la, lb);
    lemma_product_bound2(a.z, b.y, la, lb);
    lemma_product_bound2(a.z, b.x, la, lb);
    lemma_product_bound2(a.x, b.z, la, lb);
    lemma_product_bound2(a.x, b.y, la, lb);
    lemma_product_bound2(a.y, b.x, la, lb);
    lemma_tdiv_bound(a.y * b.z, FX_ONE as int, la * lb);
    lemma_tdiv_bound(a.z * b.y, FX_ONE as int, la * lb);
    lemma_tdiv_bound(a.z * b.x, FX_ONE as int, la * lb);
    lemma_tdiv_bound(a.x * b.z, FX_ONE as int, la * lb);
    lemma_tdiv_bound(a.x * b.y, FX_ONE as int, la * lb);
    lemma_tdiv_bound(a.y * b.x, FX_ONE as int, la * lb);
}

/// Fixed-point dot product of two vectors, one of them small.
pub fn v3_dot(a: &Vector3, b: &Vector3) -> (r: i64)
    requires
        v3_bounded(*a, 0x10_0000),
        v3_bounded(*b, 0x4000_0000),
    ensures
        r == dot_s(v3i(*a), v3i(*b)),
        -0x10_0000_0000 <= r <= 0x10_0000_0000,
{
    proof {
        lemma_product_bound2(a.x as int, b.x as int, 0x10_0000, 0x4000_0000);
        lemma_product_bound2(a.y as int, b.y as int, 0x10_0000, 0x4000_0000);
        lemma_product_bound2(a.z as int, b.z as int, 0x10_0000, 0x4000_0000);
        lemma_tdiv_bound((a.x * b.x) as int, FX_ONE as int, 0x4_0000_0000_0000);
        lemma_tdiv_bound((a.y * b.y) as int, FX_ONE as int, 0x4_0000_0000_0000);
        lemma_tdiv_bound((a.z * b.z) as int, FX_ONE as int, 0x4_0000_0000_0000);
    }
    let px = fx_mul(a.x, b.x);
    let py = fx_mul(a.y, b.y);
    let pz = fx_mul(a.z, b.z);
    px + py + pz
}

/// Fixed-point cross product.
pub fn v3_cross(a: &Vector3, b: &Vector3) -> (r: Vector3)
    requires
        v3_bounded(*a, 0x4000_0000),
        v3_bounded(*b, 0x4000_0000),
    ensures
        v3i(r) == cross_s(v3i(*a), v3i(*b)),
{
    proof {
        lemma_product_bound2(a.y as int, b.z as int, 0x4000_0000, 0x4000_0000);
        lemma_product_bound2(a.z as int, b.y as int, 0x4000_0000, 0x4000_0000);
        lemma_product_bound2(a.z as int, b.x as int, 0x4000_0000, 0x4000_0000);
        lemma_product_bound2(a.x as int, b.z as int, 0x4000_0000, 0x4000_0000);
        lemma_product_bound2(a.x as int, b.y as int, 0x4000_0000, 0x4000_0000);
        lemma_product_bound2(a.y as int, b.x as int, 0x4000_0000, 0x4000_0000);
        lemma_tdiv_bound((a.y * b.z) as int, FX_ONE as int, 0x1000_0000_0000_0000);
        lemma_tdiv_bound((a.z * b.y) as int, FX_ONE as int, 0x1000_0000_0000_0000);
        lemma_tdiv_bound((a.z * b.x) as int, FX_ONE as int, 0x1000_0000_0000_0000);
        lemma_tdiv_bound((a.x * b.z) as int, FX_ONE as int, 0x1000_0000_0000_0000);
        lemma_tdiv_bound((a.x * b.y) as int, FX_ONE as int, 0x1000_0000_0000_0000);
        lemma_tdiv_bound((a.y * b.x) as int, FX_ONE as int, 0x1000_0000_0000_0000);
    }
    Vector3 {
        x: fx_mul(a.y, b.z) - fx_mul(a.z, b.y),
        y: fx_mul(a.z, b.x) - fx_mul(a.x, b.z),
        z: fx_mul(a.x, b.y) - fx_mul(a.y, b.x),
    }
}

/// Rescale a vector to unit length; the zero vector stays zero.
pub fn v3_normalize(v: &Vector3) -> (r: Vector3)
    requires
        v3_bounded(*v, 0x4000_0000),
    ensures
        v3i(r) == normalize_s(v3i(*v)),
        v3_bounded(r, FX_ONE as int),
{
    proof {
        lemma_product_bound2(v.x as int, v.x as int, 0x4000_0000, 0x4000_0000);
        lemma_product_bound2(v.y as int, v.y as int, 0x4000_0000, 0x4000_0000);
        lemma_product_bound2(v.z as int, v.z as int, 0x4000_0000, 0x4000_0000);
        assert(v.x * v.x >= 0 && v.y * v.y >= 0 && v.z * v.z >= 0) by (nonlinear_arith);
        lemma_normalize_bounded(v3i(*v));
    }
    let n2: i64 = v.x * v.x + v.y * v.y + v.z * v.z;
    let l64: u64 = crate::fx::isqrt(n2 as u64);
    if l64 == 0 {
        Vector3 { x: 0, y: 0, z: 0 }
    } else {
        proof {
            assert(l64 * l64 <= n2);
            assert(l64 <= 0x1_0000_0000) by (nonlinear_arith)
                requires l64 * l64 <= n2, n2 <= 0x3000_0000_0000_0000, l64 >= 0;
        }
        let l: i64 = l64 as i64;
        Vector3 { x: fx_div(v.x, l), y: fx_div(v.y, l), z: fx_div(v.z, l) }
    }
}

} // verus!
