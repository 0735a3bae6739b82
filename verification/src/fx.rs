//! Signed 64-bit fixed-point scalars.
//!
//! A raw `i64` value `v` stands for the real number `v / SCALE`. All
//! operations truncate toward zero and saturate at the `i64` range, and each
//! executable operation's contract gives its result exactly in terms of the
//! spec-level functions below.

use vstd::prelude::*;

verus! {

/// Number of raw units per whole unit.
pub const SCALE: i64 = 65536;

/// Absolute value over mathematical integers.
pub open spec fn iabs(x: int) -> int {
    if x >= 0 {
        x
    } else {
        -x
    }
}

/// Saturation to the `i64` range.
pub open spec fn sat(x: int) -> int {
    if x > i64::MAX {
        i64::MAX as int
    } else if x < i64::MIN {
        i64::MIN as int
    } else {
        x
    }
}

/// Division truncating toward zero (the quotient's magnitude is the floor of
/// the magnitudes' quotient; its sign follows the operands' signs).
pub open spec fn tdiv(a: int, b: int) -> int
    recommends
        b != 0,
{
    if (a >= 0) == (b >= 0) {
        iabs(a) / iabs(b)
    } else {
        -(iabs(a) / iabs(b))
    }
}

/// Saturating sum of two scalars.
pub open spec fn sp_add(a: int, b: int) -> int {
    sat(a + b)
}

/// Saturating difference of two scalars.
pub open spec fn sp_sub(a: int, b: int) -> int {
    sat(a - b)
}

/// Saturating negation of a scalar.
pub open spec fn sp_neg(a: int) -> int {
    sat(-a)
}

/// Saturating absolute value of a scalar.
pub open spec fn sp_abs(a: int) -> int {
    sat(iabs(a))
}

/// Fixed-point product: the raw product scaled back down, truncating.
pub open spec fn sp_mul(a: int, b: int) -> int {
    sat(tdiv(a * b, SCALE as int))
}

/// Fixed-point quotient, with division by zero yielding zero.
pub open spec fn sp_div(a: int, b: int) -> int {
    if b == 0 {
        0
    } else {
        sat(tdiv(a * SCALE, b))
    }
}

/// The smaller of two scalars.
pub open spec fn sp_min(a: int, b: int) -> int {
    if a <= b {
        a
    } else {
        b
    }
}

/// The larger of two scalars.
pub open spec fn sp_max(a: int, b: int) -> int {
    if a >= b {
        a
    } else {
        b
    }
}

/// `r` is the integer square root of `n`, rounded down.
pub open spec fn is_sqrt_floor(n: int, r: int) -> bool {
    0 <= r && r * r <= n && n < (r + 1) * (r + 1)
}

/// The integer square root of a non-negative integer, rounded down.
pub open spec fn sqrt_floor(n: int) -> int {
    choose|r: int| is_sqrt_floor(n, r)
}

/// Construct the integer square root of a non-negative integer.
proof fn lemma_sqrt_witness(n: int) -> (r: int)
    requires
        n >= 0,
    ensures
        is_sqrt_floor(n, r),
    decreases n,
{
    if n == 0 {
        assert(is_sqrt_floor(0, 0));
        0
    } else {
        let q = lemma_sqrt_witness(n - 1);
        if (q + 1) * (q + 1) <= n {
            assert(n < (q + 2) * (q + 2)) by (nonlinear_arith)
                requires
                    n - 1 < (q + 1) * (q + 1),
                    q >= 0,
            ;
            assert(is_sqrt_floor(n, q + 1));
            q + 1
        } else {
            assert(is_sqrt_floor(n, q));
            q
        }
    }
}

/// The integer square root is unique, so `sqrt_floor` agrees with any witness.
pub proof fn lemma_sqrt_floor_is(n: int, r: int)
    requires
        is_sqrt_floor(n, r),
    ensures
        sqrt_floor(n) == r,
{
    assert(exists|q: int| is_sqrt_floor(n, q)) by {
        assert(is_sqrt_floor(n, r));
    }
    let s = sqrt_floor(n);
    assert(is_sqrt_floor(n, s));
    if s < r {
        assert((s + 1) * (s + 1) <= r * r) by (nonlinear_arith)
            requires
                0 <= s + 1 <= r,
        ;
        assert(false);
    }
    if r < s {
        assert((r + 1) * (r + 1) <= s * s) by (nonlinear_arith)
            requires
                0 <= r + 1 <= s,
        ;
        assert(false);
    }
}

/// `sqrt_floor` meets its defining property on non-negative arguments.
pub proof fn lemma_sqrt_floor_spec(n: int)
    requires
        n >= 0,
    ensures
        is_sqrt_floor(n, sqrt_floor(n)),
{
    let w = lemma_sqrt_witness(n);
    lemma_sqrt_floor_is(n, w);
}

/// Saturate a wide intermediate into the scalar range.
pub fn sat64(x: i128) -> (r: i64)
    ensures
        r as int == sat(x as int),
{
    if x > i64::MAX as i128 {
        i64::MAX
    } else if x < i64::MIN as i128 {
        i64::MIN
    } else {
        x as i64
    }
}

/// Saturate a wide non-negative intermediate into the scalar range.
pub fn satu64(x: u128) -> (r: i64)
    ensures
        r as int == sat(x as int),
{
    if x > i64::MAX as u128 {
        i64::MAX
    } else {
        x as i64
    }
}

/// Truncating division of wide intermediates; the divisor must be nonzero and
/// neither operand may be the extreme value, so magnitudes stay in range.
pub fn divt(a: i128, b: i128) -> (r: i128)
    requires
        b != 0,
        a != i128::MIN,
        b != i128::MIN,
    ensures
        r as int == tdiv(a as int, b as int),
{
    let am: u128 = if a >= 0 {
        a as u128
    } else {
        (-a) as u128
    };
    let bm: u128 = if b >= 0 {
        b as u128
    } else {
        (-b) as u128
    };
    let q: u128 = am / bm;
    proof {
        assert(am == iabs(a as int));
        assert(bm == iabs(b as int));
        assert(q == iabs(a as int) / iabs(b as int));
        assert(q <= am) by (nonlinear_arith)
            requires
                bm >= 1,
                q == am / bm,
        ;
    }
    if (a >= 0) == (b >= 0) {
        q as i128
    } else {
        -(q as i128)
    }
}

/// Saturating addition.
pub fn fadd(a: i64, b: i64) -> (r: i64)
    ensures
        r as int == sp_add(a as int, b as int),
{
    sat64(a as i128 + b as i128)
}

/// Saturating subtraction.
pub fn fsub(a: i64, b: i64) -> (r: i64)
    ensures
        r as int == sp_sub(a as int, b as int),
{
    sat64(a as i128 - b as i128)
}

/// Saturating negation.
pub fn fneg(a: i64) -> (r: i64)
    ensures
        r as int == sp_neg(a as int),
{
    sat64(-(a as i128))
}

/// Saturating absolute value.
pub fn fabs(a: i64) -> (r: i64)
    ensures
        r as int == sp_abs(a as int),
{
    if a >= 0 {
        a
    } else {
        sat64(-(a as i128))
    }
}

/// The magnitudes of 64-bit factors keep their wide product away from the
/// `i128` extremes.
pub proof fn lemma_prod_in_range(a: int, b: int)
    requires
        iabs(a) <= 0x8000_0000_0000_0000,
        iabs(b) <= 0x8000_0000_0000_0000,
    ensures
        iabs(a * b) <= 0x4000_0000_0000_0000_0000_0000_0000_0000,
{
    assert(iabs(a * b) <= 0x8000_0000_0000_0000 * 0x8000_0000_0000_0000) by (nonlinear_arith)
        requires
            iabs(a) <= 0x8000_0000_0000_0000,
            iabs(b) <= 0x8000_0000_0000_0000,
    ;
}

/// Fixed-point multiplication, truncating toward zero.
pub fn fmul(a: i64, b: i64) -> (r: i64)
    ensures
        r as int == sp_mul(a as int, b as int),
{
    proof {
        lemma_prod_in_range(a as int, b as int);
    }
    let p: i128 = (a as i128) * (b as i128);
    let q: i128 = divt(p, SCALE as i128);
    sat64(q)
}

/// Fixed-point division, truncating toward zero; division by zero yields zero.
pub fn fdiv(a: i64, b: i64) -> (r: i64)
    ensures
        r as int == sp_div(a as int, b as int),
{
    if b == 0 {
        0
    } else {
        proof {
            lemma_prod_in_range(a as int, SCALE as int);
        }
        let p: i128 = (a as i128) * (SCALE as i128);
        let q: i128 = divt(p, b as i128);
        sat64(q)
    }
}

/// The smaller of two scalars.
pub fn fmin(a: i64, b: i64) -> (r: i64)
    ensures
        r as int == sp_min(a as int, b as int),
{
    if a <= b {
        a
    } else {
        b
    }
}

/// The larger of two scalars.
pub fn fmax(a: i64, b: i64) -> (r: i64)
    ensures
        r as int == sp_max(a as int, b as int),
{
    if a >= b {
        a
    } else {
        b
    }
}

/// Integer square root of a wide non-negative value, rounded down.
pub fn isqrt(n: u128) -> (r: u64)
    ensures
        is_sqrt_floor(n as int, r as int),
        r as int == sqrt_floor(n as int),
{
    let mut lo: u64 = 0;
    let mut hi: u64 = u64::MAX;
    proof {
        assert((n as int) < ((hi as int) + 1) * ((hi as int) + 1)) by (nonlinear_arith)
            requires
                hi == u64::MAX,
                n <= u128::MAX,
        ;
    }
    while lo < hi
        invariant
            lo <= hi,
            (lo as int) * (lo as int) <= n as int,
            (n as int) < ((hi as int) + 1) * ((hi as int) + 1),
        decreases hi - lo,
    {
        let d: u64 = hi - lo;
        let mid: u64 = lo + d / 2 + d % 2;
        proof {
            assert(lo < mid <= hi);
        }
        proof {
            assert((mid as int) * (mid as int) <= 0xFFFF_FFFF_FFFF_FFFF * 0xFFFF_FFFF_FFFF_FFFF)
                by (nonlinear_arith)
                requires
                    0 <= mid <= 0xFFFF_FFFF_FFFF_FFFF,
            ;
        }
        let sq: u128 = (mid as u128) * (mid as u128);
        if sq <= n {
            lo = mid;
        } else {
            hi = mid - 1;
        }
    }
    proof {
        lemma_sqrt_floor_is(n as int, lo as int);
    }
    lo
}

/// The square root of a fixed-point value, rounded down: the floor square
/// root of the value scaled up once.
pub open spec fn sp_sqrt(a: int) -> int
    recommends
        a >= 0,
{
    sat(sqrt_floor(a * SCALE))
}

/// Fixed-point square root of a non-negative scalar, rounded down.
pub fn fsqrt(a: i64) -> (r: i64)
    requires
        a >= 0,
    ensures
        r as int == sp_sqrt(a as int),
{
    proof {
        assert((a as int) * (SCALE as int) >= 0 && (a as int) * (SCALE as int) <= 0x8000_0000_0000_0000 * 0x10000)
            by (nonlinear_arith)
            requires
                0 <= a <= 0x8000_0000_0000_0000,
        ;
    }
    let p: u128 = (a as u128) * (SCALE as u128);
    let s: u64 = isqrt(p);
    satu64(s as u128)
}

/// Division truncating toward zero never grows a magnitude.
pub proof fn lemma_tdiv_bound(a: int, b: int)
    requires
        b != 0,
    ensures
        iabs(tdiv(a, b)) <= iabs(a),
{
    assert(iabs(a) / iabs(b) <= iabs(a)) by (nonlinear_arith)
        requires
            iabs(b) >= 1,
            iabs(a) >= 0,
    ;
}

/// Truncating division is symmetric under negation of the dividend.
pub proof fn lemma_tdiv_neg(a: int, b: int)
    requires
        b != 0,
    ensures
        tdiv(-a, b) == -tdiv(a, b),
{
}

} // verus!
