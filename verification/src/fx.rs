//! 16.16 fixed-point scalar arithmetic: a value `v` stands for the real
//! number `v / 65536`. All operations truncate toward zero, like the
//! hardware float operations they replace, and every executable function
//! is proved equal to its specification-level mirror.

use vstd::prelude::*;

verus! {

/// Raw representation of 1.0.
pub const FX_ONE: i64 = 65536;

/// Raw representation of pi/2, rounded so that `PI_FX` and `TAU_FX` are
/// exact multiples of it.
pub const HALF_PI_FX: i64 = 102944;

/// Raw representation of pi; exactly `2 * HALF_PI_FX`.
pub const PI_FX: i64 = 205888;

/// Raw representation of 2*pi; exactly `4 * HALF_PI_FX`.
pub const TAU_FX: i64 = 411776;

/// Division truncating toward zero, for a positive divisor.
pub open spec fn tdiv(x: int, d: int) -> int {
    if x >= 0 {
        x / d
    } else {
        -((-x) / d)
    }
}

/// Fixed-point product: `(a * b) / 65536`, truncated toward zero.
pub open spec fn fx_mul_spec(a: int, b: int) -> int {
    tdiv(a * b, FX_ONE as int)
}

/// Fixed-point quotient: `(a * 65536) / b`, truncated toward zero,
/// for `b != 0`.
pub open spec fn fx_div_spec(a: int, b: int) -> int {
    if b >= 0 {
        tdiv(a * FX_ONE, b)
    } else {
        -tdiv(a * FX_ONE, -b)
    }
}

/// Truncating division `x / d` for a positive divisor, as executable code.
pub fn tdiv_i64(x: i64, d: i64) -> (r: i64)
    requires
        d > 0,
        x != i64::MIN,
    ensures
        r == tdiv(x as int, d as int),
{
    if x >= 0 {
        let q: u64 = (x as u64) / (d as u64);
        q as i64
    } else {
        let q: u64 = ((-x) as u64) / (d as u64);
        assert(q <= (-x) as u64) by {
            vstd::arithmetic::div_mod::lemma_div_nonincreasing((-x) as int, d as int);
        }
        -(q as i64)
    }
}

/// Fixed-point multiplication.
pub fn fx_mul(a: i64, b: i64) -> (r: i64)
    requires
        -0x7fff_ffff_ffff_ffff <= a * b <= 0x7fff_ffff_ffff_ffff,
    ensures
        r == fx_mul_spec(a as int, b as int),
        r != i64::MIN,
{
    let p: i64 = a * b;
    tdiv_i64(p, FX_ONE)
}

/// Fixed-point division.
pub fn fx_div(a: i64, b: i64) -> (r: i64)
    requires
        b != 0,
        b != i64::MIN,
        -0x7fff_ffff_ffff_ffff <= a * FX_ONE <= 0x7fff_ffff_ffff_ffff,
    ensures
        r == fx_div_spec(a as int, b as int),
        r != i64::MIN,
{
    let p: i64 = a * FX_ONE;
    if b >= 0 {
        tdiv_i64(p, b)
    } else {
        let q = tdiv_i64(p, -b);
        assert(-q == -tdiv(p as int, (-b) as int));
        -q
    }
}

/// The magnitude of a truncating division never exceeds the magnitude of
/// the dividend's bound divided by the divisor.
pub proof fn lemma_tdiv_bound(x: int, d: int, bnd: int)
    requires
        d > 0,
        0 <= bnd,
        -bnd <= x <= bnd,
    ensures
        -(bnd / d) <= tdiv(x, d) <= bnd / d,
{
    if x >= 0 {
        vstd::arithmetic::div_mod::lemma_div_is_ordered(x, bnd, d);
        vstd::arithmetic::div_mod::lemma_div_pos_is_pos(x, d);
    } else {
        vstd::arithmetic::div_mod::lemma_div_is_ordered(-x, bnd, d);
        vstd::arithmetic::div_mod::lemma_div_pos_is_pos(-x, d);
    }
}

/// Angle reduced into `[0, TAU_FX)`: the Euclidean remainder.
pub fn fx_mod_tau(a: i64) -> (r: i64)
    requires
        a != i64::MIN,
    ensures
        r == a as int % (TAU_FX as int),
        0 <= r < TAU_FX,
{
    let t: u64 = TAU_FX as u64;
    if a >= 0 {
        let m: u64 = (a as u64) % t;
        m as i64
    } else {
        let m: u64 = ((-a) as u64) % t;
        if m == 0 {
            proof {
                let n = (-a) as int;
                let tt = TAU_FX as int;
                vstd::arithmetic::div_mod::lemma_fundamental_div_mod(n, tt);
                assert(a as int == (-(n / tt)) * tt + 0) by (nonlinear_arith)
                    requires n == tt * (n / tt) && a as int == -n;
                vstd::arithmetic::div_mod::lemma_fundamental_div_mod_converse_mod(
                    a as int, tt, -(n / tt), 0);
            }
            0
        } else {
            proof {
                let n = (-a) as int;
                let tt = TAU_FX as int;
                vstd::arithmetic::div_mod::lemma_fundamental_div_mod(n, tt);
                assert(a as int == (-(n / tt) - 1) * tt + (tt - n % tt)) by (nonlinear_arith)
                    requires n == tt * (n / tt) + n % tt && a as int == -n;
                vstd::arithmetic::div_mod::lemma_fundamental_div_mod_converse_mod(
                    a as int, tt, -(n / tt) - 1, tt - n % tt);
            }
            (t - m) as i64
        }
    }
}

/// Clamp into `[-FX_ONE, FX_ONE]`, the range of a sine or cosine.
pub open spec fn clamp_unit_spec(x: int) -> int {
    if x > FX_ONE {
        FX_ONE as int
    } else if x < -(FX_ONE as int) {
        -(FX_ONE as int)
    } else {
        x
    }
}

fn clamp_unit(x: i64) -> (r: i64)
    ensures
        r == clamp_unit_spec(x as int),
{
    if x > FX_ONE {
        FX_ONE
    } else if x < -FX_ONE {
        -FX_ONE
    } else {
        x
    }
}

/// Sine of an angle in `[-HALF_PI_FX, HALF_PI_FX]`: the degree-7 Taylor
/// polynomial `x - x^3/6 + x^5/120 - x^7/5040`, clamped to the unit range.
pub open spec fn sin_poly_spec(x: int) -> int {
    let x2 = fx_mul_spec(x, x);
    let x3 = fx_mul_spec(x2, x);
    let x5 = fx_mul_spec(x2, x3);
    let x7 = fx_mul_spec(x2, x5);
    clamp_unit_spec(x - tdiv(x3, 6) + tdiv(x5, 120) - tdiv(x7, 5040))
}

/// Cosine of an angle in `[-HALF_PI_FX, HALF_PI_FX]`: the degree-8 Taylor
/// polynomial `1 - x^2/2 + x^4/24 - x^6/720 + x^8/40320`, clamped.
pub open spec fn cos_poly_spec(x: int) -> int {
    let x2 = fx_mul_spec(x, x);
    let x4 = fx_mul_spec(x2, x2);
    let x6 = fx_mul_spec(x2, x4);
    let x8 = fx_mul_spec(x2, x6);
    clamp_unit_spec(
        FX_ONE - tdiv(x2, 2) + tdiv(x4, 24) - tdiv(x6, 720) + tdiv(x8, 40320))
}

/// Sine over all angles: the quarter-wave polynomial applied after range
/// reduction into `[0, TAU_FX)`.
pub open spec fn sin_fx_spec(a: int) -> int {
    let r = a % (TAU_FX as int);
    if r < HALF_PI_FX {
        sin_poly_spec(r)
    } else if r < PI_FX + HALF_PI_FX {
        sin_poly_spec(PI_FX - r)
    } else {
        sin_poly_spec(r - TAU_FX)
    }
}

/// Cosine over all angles, by the same reduction.
pub open spec fn cos_fx_spec(a: int) -> int {
    let r = a % (TAU_FX as int);
    if r < HALF_PI_FX {
        cos_poly_spec(r)
    } else if r < PI_FX + HALF_PI_FX {
        -cos_poly_spec(r - PI_FX)
    } else {
        cos_poly_spec(r - TAU_FX)
    }
}

fn sin_poly(x: i64) -> (r: i64)
    requires
        -HALF_PI_FX <= x <= HALF_PI_FX,
    ensures
        r == sin_poly_spec(x as int),
        -FX_ONE <= r <= FX_ONE,
{
    proof {
        assert(-0x4_0000_0000 <= x * x <= 0x4_0000_0000) by (nonlinear_arith)
            requires -0x2_0000 <= x <= 0x2_0000;
    }
    let x2 = fx_mul(x, x);
    proof {
        lemma_tdiv_bound((x * x) as int, FX_ONE as int, 0x4_0000_0000);
        assert(-0x8_0000_0000 <= x2 * x <= 0x8_0000_0000) by (nonlinear_arith)
            requires -0x4_0000 <= x2 <= 0x4_0000 && -0x2_0000 <= x <= 0x2_0000;
    }
    let x3 = fx_mul(x2, x);
    proof {
        lemma_tdiv_bound((x2 * x) as int, FX_ONE as int, 0x8_0000_0000);
        assert(-0x20_0000_0000 <= x2 * x3 <= 0x20_0000_0000) by (nonlinear_arith)
            requires -0x4_0000 <= x2 <= 0x4_0000 && -0x8_0000 <= x3 <= 0x8_0000;
    }
    let x5 = fx_mul(x2, x3);
    proof {
        lemma_tdiv_bound((x2 * x3) as int, FX_ONE as int, 0x20_0000_0000);
        assert(-0x80_0000_0000 <= x2 * x5 <= 0x80_0000_0000) by (nonlinear_arith)
            requires -0x4_0000 <= x2 <= 0x4_0000 && -0x20_0000 <= x5 <= 0x20_0000;
    }
    let x7 = fx_mul(x2, x5);
    proof {
        lemma_tdiv_bound((x2 * x5) as int, FX_ONE as int, 0x80_0000_0000);
        lemma_tdiv_bound(x3 as int, 6, 0x8_0000);
        lemma_tdiv_bound(x5 as int, 120, 0x20_0000);
        lemma_tdiv_bound(x7 as int, 5040, 0x80_0000);
    }
    let t3 = tdiv_i64(x3, 6);
    let t5 = tdiv_i64(x5, 120);
    let t7 = tdiv_i64(x7, 5040);
    clamp_unit(x - t3 + t5 - t7)
}

fn cos_poly(x: i64) -> (r: i64)
    requires
        -HALF_PI_FX <= x <= HALF_PI_FX,
    ensures
        r == cos_poly_spec(x as int),
        -FX_ONE <= r <= FX_ONE,
{
    proof {
        assert(-0x4_0000_0000 <= x * x <= 0x4_0000_0000) by (nonlinear_arith)
            requires -0x2_0000 <= x <= 0x2_0000;
    }
    let x2 = fx_mul(x, x);
    proof {
        lemma_tdiv_bound((x * x) as int, FX_ONE as int, 0x4_0000_0000);
        assert(-0x10_0000_0000 <= x2 * x2 <= 0x10_0000_0000) by (nonlinear_arith)
            requires -0x4_0000 <= x2 <= 0x4_0000;
    }
    let x4 = fx_mul(x2, x2);
    proof {
        lemma_tdiv_bound((x2 * x2) as int, FX_ONE as int, 0x10_0000_0000);
        assert(-0x40_0000_0000 <= x2 * x4 <= 0x40_0000_0000) by (nonlinear_arith)
            requires -0x4_0000 <= x2 <= 0x4_0000 && -0x10_0000 <= x4 <= 0x10_0000;
    }
    let x6 = fx_mul(x2, x4);
    proof {
        lemma_tdiv_bound((x2 * x4) as int, FX_ONE as int, 0x40_0000_0000);
        assert(-0x100_0000_0000 <= x2 * x6 <= 0x100_0000_0000) by (nonlinear_arith)
            requires -0x4_0000 <= x2 <= 0x4_0000 && -0x40_0000 <= x6 <= 0x40_0000;
    }
    let x8 = fx_mul(x2, x6);
    proof {
        lemma_tdiv_bound((x2 * x6) as int, FX_ONE as int, 0x100_0000_0000);
        lemma_tdiv_bound(x2 as int, 2, 0x4_0000);
        lemma_tdiv_bound(x4 as int, 24, 0x10_0000);
        lemma_tdiv_bound(x6 as int, 720, 0x40_0000);
        lemma_tdiv_bound(x8 as int, 40320, 0x400_0000);
    }
    let t2 = tdiv_i64(x2, 2);
    let t4 = tdiv_i64(x4, 24);
    let t6 = tdiv_i64(x6, 720);
    let t8 = tdiv_i64(x8, 40320);
    clamp_unit(FX_ONE - t2 + t4 - t6 + t8)
}

/// Fixed-point sine, for any representable angle.
pub fn sin_fx(a: i64) -> (r: i64)
    requires
        a != i64::MIN,
    ensures
        r == sin_fx_spec(a as int),
        -FX_ONE <= r <= FX_ONE,
{
    let m = fx_mod_tau(a);
    if m < HALF_PI_FX {
        sin_poly(m)
    } else if m < PI_FX + HALF_PI_FX {
        sin_poly(PI_FX - m)
    } else {
        sin_poly(m - TAU_FX)
    }
}

/// Fixed-point cosine, for any representable angle.
pub fn cos_fx(a: i64) -> (r: i64)
    requires
        a != i64::MIN,
    ensures
        r == cos_fx_spec(a as int),
        -FX_ONE <= r <= FX_ONE,
{
    let m = fx_mod_tau(a);
    if m < HALF_PI_FX {
        cos_poly(m)
    } else if m < PI_FX + HALF_PI_FX {
        let c = cos_poly(m - PI_FX);
        -c
    } else {
        cos_poly(m - TAU_FX)
    }
}

/// The sine of angle zero is exactly zero.
pub proof fn lemma_sin_zero()
    ensures
        sin_fx_spec(0) == 0,
{
    vstd::arithmetic::div_mod::lemma_small_mod(0, TAU_FX as nat);
    assert(sin_poly_spec(0) == 0);
}

/// The cosine of angle zero is exactly one.
pub proof fn lemma_cos_zero()
    ensures
        cos_fx_spec(0) == FX_ONE,
{
    vstd::arithmetic::div_mod::lemma_small_mod(0, TAU_FX as nat);
    assert(cos_poly_spec(0) == FX_ONE);
}

/// Integer square root: the unique `r` with `r^2 <= x < (r+1)^2`.
pub fn isqrt(x: u64) -> (r: u64)
    ensures
        r * r <= x,
        x < (r + 1) * (r + 1),
        r == sqrt_floor(x as int),
{
    let mut lo: u64 = 0;
    let mut hi: u64 = 0x1_0000_0000;
    while hi - lo > 1
        invariant
            lo < hi <= 0x1_0000_0000,
            lo * lo <= x,
            x < hi * hi,
        decreases hi - lo,
    {
        let mid = lo + (hi - lo) / 2;
        assert(lo < mid < hi);
        proof {
            assert(mid * mid <= 0xffff_fffe_0000_0001) by (nonlinear_arith)
                requires 0 <= mid <= 0xffff_ffff;
        }
        let sq = mid * mid;
        if sq <= x {
            lo = mid;
        } else {
            hi = mid;
        }
    }
    assert(hi == lo + 1);
    proof {
        lemma_sqrt_floor_unique(x as int, lo as int);
    }
    lo
}

/// Sines and cosines stay within one fixed-point unit of magnitude.
pub proof fn lemma_sin_cos_range(a: int)
    ensures
        -FX_ONE <= sin_fx_spec(a) <= FX_ONE,
        -FX_ONE <= cos_fx_spec(a) <= FX_ONE,
{
}


/// The integer square root: the unique `c >= 0` with
/// `c * c <= x < (c + 1) * (c + 1)`.
pub open spec fn sqrt_floor(x: int) -> int {
    choose|c: int| 0 <= c && #[trigger] (c * c) <= x && x < (c + 1) * (c + 1)
}

/// Every nonnegative integer has an integer square root.
pub proof fn lemma_sqrt_exists(s: int)
    requires
        s >= 0,
    ensures
        exists|c: int| 0 <= c && #[trigger] (c * c) <= s && s < (c + 1) * (c + 1),
    decreases s,
{
    if s == 0 {
        let z: int = 0;
        assert(z * z == 0 && (z + 1) * (z + 1) == 1) by (nonlinear_arith)
            requires z == 0;
        assert(0 <= z && z * z <= s && s < (z + 1) * (z + 1));
    } else {
        lemma_sqrt_exists(s - 1);
        let c = choose|c: int| 0 <= c && #[trigger] (c * c) <= s - 1 && s - 1 < (c + 1) * (c + 1);
        if s < (c + 1) * (c + 1) {
            assert(0 <= c && c * c <= s && s < (c + 1) * (c + 1));
        } else {
            assert(s == (c + 1) * (c + 1));
            assert((c + 1) * (c + 1) < (c + 2) * (c + 2)) by (nonlinear_arith)
                requires c >= 0;
            assert(0 <= c + 1 && (c + 1) * (c + 1) <= s && s < (c + 2) * (c + 2));
        }
    }
}

/// The integer square root is unique: any `r` satisfying its defining
/// property equals `sqrt_floor`.
pub proof fn lemma_sqrt_floor_unique(x: int, r: int)
    requires
        0 <= r,
        r * r <= x,
        x < (r + 1) * (r + 1),
    ensures
        sqrt_floor(x) == r,
{
    assert(0 <= r && r * r <= x && x < (r + 1) * (r + 1));
    let c = sqrt_floor(x);
    assert(0 <= c && c * c <= x && x < (c + 1) * (c + 1));
    if c < r {
        assert((c + 1) * (c + 1) <= r * r) by (nonlinear_arith)
            requires 0 <= c, c < r;
    } else if c > r {
        assert((r + 1) * (r + 1) <= c * c) by (nonlinear_arith)
            requires 0 <= r, r < c;
    }
}

/// The integer square root of a sum of squares is at least the magnitude
/// of any one of the squared terms.
pub proof fn lemma_sqrt_ge_component(s: int, c: int)
    requires
        c * c <= s,
    ensures
        sqrt_floor(s) >= if c >= 0 { c } else { -c },
{
    assert(s >= 0) by (nonlinear_arith) requires c * c <= s;
    lemma_sqrt_exists(s);
    let l = sqrt_floor(s);
    assert(0 <= l && l * l <= s && s < (l + 1) * (l + 1));
    let a = if c >= 0 { c } else { -c };
    assert(a * a == c * c) by (nonlinear_arith)
        requires a == if c >= 0 { c } else { -c };
    if l < a {
        assert((l + 1) * (l + 1) <= a * a) by (nonlinear_arith)
            requires 0 <= l, l < a;
    }
}

} // verus!
