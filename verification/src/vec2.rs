//! Fixed-point 2D vectors and rotations.
//!
//! A `Vec2` holds two fixed-point scalars. A `Rot2` is a rotation stored as
//! the fixed-point cosine and sine of its angle, so rotating a vector needs
//! no trigonometry: the host supplies the rotor, the library applies it with
//! exact integer arithmetic.

use vstd::prelude::*;

use crate::fx::{
    divt, fadd, fmax, fmin, fmul, fneg, fsub, iabs, is_sqrt_floor, isqrt, sat, sat64, satu64,
    sp_add, sp_mul, sp_neg, sp_sub, sqrt_floor, tdiv, SCALE,
};

verus! {

/// A 2D vector of fixed-point scalars.
#[derive(Clone, Copy, Debug, PartialEq, Eq, Structural)]
pub struct Vec2 {
    pub x: i64,
    pub y: i64,
}

/// Component-wise saturating sum.
pub open spec fn vadd(a: Vec2, b: Vec2) -> Vec2 {
    Vec2 { x: sp_add(a.x as int, b.x as int) as i64, y: sp_add(a.y as int, b.y as int) as i64 }
}

/// Component-wise saturating difference.
pub open spec fn vsub(a: Vec2, b: Vec2) -> Vec2 {
    Vec2 { x: sp_sub(a.x as int, b.x as int) as i64, y: sp_sub(a.y as int, b.y as int) as i64 }
}

/// Component-wise saturating negation.
pub open spec fn vneg(a: Vec2) -> Vec2 {
    Vec2 { x: sp_neg(a.x as int) as i64, y: sp_neg(a.y as int) as i64 }
}

/// The vector scaled by a fixed-point factor.
pub open spec fn vscale(a: Vec2, k: int) -> Vec2 {
    Vec2 { x: sp_mul(a.x as int, k) as i64, y: sp_mul(a.y as int, k) as i64 }
}

/// Fixed-point dot product.
pub open spec fn vdot(a: Vec2, b: Vec2) -> int {
    sp_add(sp_mul(a.x as int, b.x as int), sp_mul(a.y as int, b.y as int))
}

/// The exact (unscaled) sum of squared raw components.
pub open spec fn raw_norm2(a: Vec2) -> int {
    (a.x as int) * (a.x as int) + (a.y as int) * (a.y as int)
}

/// Fixed-point squared length.
pub open spec fn vlen2(a: Vec2) -> int {
    sat(tdiv(raw_norm2(a), SCALE as int))
}

/// Fixed-point length: the raw components' Euclidean norm, rounded down.
pub open spec fn vlen(a: Vec2) -> int {
    sat(sqrt_floor(raw_norm2(a)))
}

/// The unit vector along `a` (zero if `a` is zero), truncating toward zero.
pub open spec fn vnorm(a: Vec2) -> Vec2 {
    if raw_norm2(a) == 0 {
        Vec2 { x: 0, y: 0 }
    } else {
        Vec2 {
            x: sat(tdiv((a.x as int) * (SCALE as int), sqrt_floor(raw_norm2(a)))) as i64,
            y: sat(tdiv((a.y as int) * (SCALE as int), sqrt_floor(raw_norm2(a)))) as i64,
        }
    }
}

/// One scalar clamped into a closed interval.
pub open spec fn sp_clamp(v: int, lo: int, hi: int) -> int {
    if v < lo {
        lo
    } else if v > hi {
        hi
    } else {
        v
    }
}

/// Component-wise clamp into the box `[lo, hi]`.
pub open spec fn vclamp(a: Vec2, lo: Vec2, hi: Vec2) -> Vec2 {
    Vec2 {
        x: sp_clamp(a.x as int, lo.x as int, hi.x as int) as i64,
        y: sp_clamp(a.y as int, lo.y as int, hi.y as int) as i64,
    }
}

/// The squared raw magnitude of one component, as a wide unsigned value.
fn sq_wide(v: i64) -> (r: u128)
    ensures
        r as int == (v as int) * (v as int),
        r <= 0x4000_0000_0000_0000_0000_0000_0000_0000,
{
    let a: i128 = if v >= 0 {
        v as i128
    } else {
        -(v as i128)
    };
    proof {
        assert(a as int == iabs(v as int));
        assert((a as int) * (a as int) == (v as int) * (v as int)) by (nonlinear_arith)
            requires
                a as int == iabs(v as int),
        ;
        assert(0 <= (a as int) * (a as int) <= 0x4000_0000_0000_0000_0000_0000_0000_0000)
            by (nonlinear_arith)
            requires
                0 <= a <= 0x8000_0000_0000_0000,
        ;
    }
    (a as u128) * (a as u128)
}

impl Vec2 {
    /// Build a vector from its components.
    pub fn new(x: i64, y: i64) -> (r: Vec2)
        ensures
            r == (Vec2 { x, y }),
    {
        Vec2 { x, y }
    }

    /// The zero vector.
    pub fn zero() -> (r: Vec2)
        ensures
            r == (Vec2 { x: 0i64, y: 0i64 }),
    {
        Vec2 { x: 0, y: 0 }
    }

    /// Component-wise saturating sum.
    pub fn add(self, o: Vec2) -> (r: Vec2)
        ensures
            r == vadd(self, o),
    {
        Vec2 { x: fadd(self.x, o.x), y: fadd(self.y, o.y) }
    }

    /// Component-wise saturating difference.
    pub fn sub(self, o: Vec2) -> (r: Vec2)
        ensures
            r == vsub(self, o),
    {
        Vec2 { x: fsub(self.x, o.x), y: fsub(self.y, o.y) }
    }

    /// Component-wise saturating negation.
    pub fn neg(self) -> (r: Vec2)
        ensures
            r == vneg(self),
    {
        Vec2 { x: fneg(self.x), y: fneg(self.y) }
    }

    /// The vector scaled by a fixed-point factor.
    pub fn scale(self, k: i64) -> (r: Vec2)
        ensures
            r == vscale(self, k as int),
    {
        Vec2 { x: fmul(self.x, k), y: fmul(self.y, k) }
    }

    /// Fixed-point dot product.
    pub fn dot(self, o: Vec2) -> (r: i64)
        ensures
            r as int == vdot(self, o),
    {
        fadd(fmul(self.x, o.x), fmul(self.y, o.y))
    }

    /// The exact sum of squared raw components, as a wide unsigned value.
    pub fn raw_len2(self) -> (r: u128)
        ensures
            r as int == raw_norm2(self),
            r <= 0x8000_0000_0000_0000_0000_0000_0000_0000,
    {
        let sx: u128 = sq_wide(self.x);
        let sy: u128 = sq_wide(self.y);
        sx + sy
    }

    /// Fixed-point squared length.
    pub fn length_squared(self) -> (r: i64)
        ensures
            r as int == vlen2(self),
    {
        let n2: u128 = self.raw_len2();
        let q: u128 = n2 / (SCALE as u128);
        proof {
            assert(q as int == tdiv(raw_norm2(self), SCALE as int));
        }
        satu64(q)
    }

    /// Fixed-point length: the Euclidean norm of the raw components.
    pub fn length(self) -> (r: i64)
        ensures
            r as int == vlen(self),
    {
        let n2: u128 = self.raw_len2();
        let s: u64 = isqrt(n2);
        if s > i64::MAX as u64 {
            proof {
                assert(sat(sqrt_floor(n2 as int)) == i64::MAX as int);
            }
            i64::MAX
        } else {
            s as i64
        }
    }

    /// The unit vector along `self`, or zero when `self` is zero.
    pub fn normalize_or_zero(self) -> (r: Vec2)
        ensures
            r == vnorm(self),
    {
        let n2: u128 = self.raw_len2();
        if n2 == 0 {
            Vec2 { x: 0, y: 0 }
        } else {
            let s: u64 = isqrt(n2);
            proof {
                if s == 0 {
                    assert(is_sqrt_floor(n2 as int, 0));
                    assert((0 + 1) * (0 + 1) == 1int);
                    assert((n2 as int) < 1);
                    assert(false);
                }
                crate::fx::lemma_prod_in_range(self.x as int, SCALE as int);
                crate::fx::lemma_prod_in_range(self.y as int, SCALE as int);
            }
            let px: i128 = (self.x as i128) * (SCALE as i128);
            let py: i128 = (self.y as i128) * (SCALE as i128);
            let qx: i128 = divt(px, s as i128);
            let qy: i128 = divt(py, s as i128);
            Vec2 { x: sat64(qx), y: sat64(qy) }
        }
    }

    /// Component-wise clamp into the box `[lo, hi]`.
    pub fn clamp(self, lo: Vec2, hi: Vec2) -> (r: Vec2)
        ensures
            r == vclamp(self, lo, hi),
    {
        let x: i64 = if self.x < lo.x {
            lo.x
        } else if self.x > hi.x {
            hi.x
        } else {
            self.x
        };
        let y: i64 = if self.y < lo.y {
            lo.y
        } else if self.y > hi.y {
            hi.y
        } else {
            self.y
        };
        Vec2 { x, y }
    }
}

/// A rotation, stored as the fixed-point cosine and sine of its angle.
///
/// Components beyond one whole unit in magnitude are clamped when the rotor
/// is applied, so every stored rotor acts like one with entries in
/// `[-SCALE, SCALE]`.
#[derive(Clone, Copy, Debug, PartialEq, Eq, Structural)]
pub struct Rot2 {
    pub c: i64,
    pub s: i64,
}

/// The effective cosine entry of a rotor: clamped to one unit.
pub open spec fn rot_c(r: Rot2) -> int {
    sp_clamp(r.c as int, -(SCALE as int), SCALE as int)
}

/// The effective sine entry of a rotor: clamped to one unit.
pub open spec fn rot_s(r: Rot2) -> int {
    sp_clamp(r.s as int, -(SCALE as int), SCALE as int)
}

/// The vector `v` rotated by `r`: the usual rotation matrix, each row
/// evaluated exactly in wide arithmetic and scaled back down once.
pub open spec fn rot_apply(r: Rot2, v: Vec2) -> Vec2 {
    Vec2 {
        x: sat(tdiv(rot_c(r) * (v.x as int) - rot_s(r) * (v.y as int), SCALE as int)) as i64,
        y: sat(tdiv(rot_s(r) * (v.x as int) + rot_c(r) * (v.y as int), SCALE as int)) as i64,
    }
}

/// Rotation of `v` about the point `p`.
pub open spec fn rot_around(r: Rot2, v: Vec2, p: Vec2) -> Vec2 {
    vadd(rot_apply(r, vsub(v, p)), p)
}

/// A product of a clamped rotor entry and a vector component stays well
/// inside the `i128` range.
proof fn lemma_rot_entry_prod(e: int, x: int)
    requires
        iabs(e) <= SCALE as int,
        iabs(x) <= 0x8000_0000_0000_0000,
    ensures
        iabs(e * x) <= 0x10000 * 0x8000_0000_0000_0000,
{
    assert(iabs(e * x) <= 0x10000 * 0x8000_0000_0000_0000) by (nonlinear_arith)
        requires
            iabs(e) <= 0x10000,
            iabs(x) <= 0x8000_0000_0000_0000,
    ;
}

impl Rot2 {
    /// Build a rotor from fixed-point cosine and sine.
    pub fn new(c: i64, s: i64) -> (r: Rot2)
        ensures
            r == (Rot2 { c, s }),
    {
        Rot2 { c, s }
    }

    /// The identity rotation.
    pub fn identity() -> (r: Rot2)
        ensures
            r == (Rot2 { c: SCALE, s: 0i64 }),
    {
        Rot2 { c: SCALE, s: 0 }
    }

    /// The inverse rotation (same cosine, negated sine).
    pub fn inverse(self) -> (r: Rot2)
        ensures
            r == (Rot2 { c: self.c, s: sp_neg(self.s as int) as i64 }),
    {
        Rot2 { c: self.c, s: fneg(self.s) }
    }

    /// Rotate a vector.
    pub fn rotate(self, v: Vec2) -> (r: Vec2)
        ensures
            r == rot_apply(self, v),
    {
        let c: i64 = fmax(fmin(self.c, SCALE), -SCALE);
        let s: i64 = fmax(fmin(self.s, SCALE), -SCALE);
        proof {
            assert(c as int == rot_c(self));
            assert(s as int == rot_s(self));
            lemma_rot_entry_prod(c as int, v.x as int);
            lemma_rot_entry_prod(s as int, v.y as int);
            lemma_rot_entry_prod(s as int, v.x as int);
            lemma_rot_entry_prod(c as int, v.y as int);
        }
        let tx: i128 = (c as i128) * (v.x as i128) - (s as i128) * (v.y as i128);
        let ty: i128 = (s as i128) * (v.x as i128) + (c as i128) * (v.y as i128);
        Vec2 { x: sat64(divt(tx, SCALE as i128)), y: sat64(divt(ty, SCALE as i128)) }
    }

    /// Rotate a vector about a point.
    pub fn rotate_around_point(self, v: Vec2, p: Vec2) -> (r: Vec2)
        ensures
            r == rot_around(self, v, p),
    {
        self.rotate(v.sub(p)).add(p)
    }
}

} // verus!
