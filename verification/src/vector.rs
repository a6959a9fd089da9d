//! Three-component fixed-point vectors, used both as spatial points or
//! directions and as RGB colors.

use vstd::prelude::*;
use crate::fx;
use crate::fx::{fxadd, fxsub, fxneg, fxmul, fxdiv, fxsqrt, SCALE};

verus! {

#[derive(Clone, Copy, Debug, PartialEq, Eq, Structural)]
pub struct Vector {
    pub x: i64,
    pub y: i64,
    pub z: i64,
}

/// A vector read as an RGB color.
pub type Color = Vector;

/// Clamp of one color channel into [0, 1].
pub open spec fn clip1(c: int) -> int {
    if c < 0 {
        0
    } else if c > SCALE {
        SCALE as int
    } else {
        c
    }
}

impl Vector {
    pub open spec fn spec_add(a: Vector, b: Vector) -> Vector {
        Vector {
            x: fxadd(a.x as int, b.x as int) as i64,
            y: fxadd(a.y as int, b.y as int) as i64,
            z: fxadd(a.z as int, b.z as int) as i64,
        }
    }

    pub open spec fn spec_sub(a: Vector, b: Vector) -> Vector {
        Vector {
            x: fxsub(a.x as int, b.x as int) as i64,
            y: fxsub(a.y as int, b.y as int) as i64,
            z: fxsub(a.z as int, b.z as int) as i64,
        }
    }

    pub open spec fn spec_neg(a: Vector) -> Vector {
        Vector {
            x: fxneg(a.x as int) as i64,
            y: fxneg(a.y as int) as i64,
            z: fxneg(a.z as int) as i64,
        }
    }

    /// Componentwise product.
    pub open spec fn spec_mul(a: Vector, b: Vector) -> Vector {
        Vector {
            x: fxmul(a.x as int, b.x as int) as i64,
            y: fxmul(a.y as int, b.y as int) as i64,
            z: fxmul(a.z as int, b.z as int) as i64,
        }
    }

    /// Product with a scalar.
    pub open spec fn spec_mul_s(a: Vector, s: int) -> Vector {
        Vector {
            x: fxmul(a.x as int, s) as i64,
            y: fxmul(a.y as int, s) as i64,
            z: fxmul(a.z as int, s) as i64,
        }
    }

    /// Componentwise quotient.
    pub open spec fn spec_div(a: Vector, b: Vector) -> Vector {
        Vector {
            x: fxdiv(a.x as int, b.x as int) as i64,
            y: fxdiv(a.y as int, b.y as int) as i64,
            z: fxdiv(a.z as int, b.z as int) as i64,
        }
    }

    /// Quotient by a scalar.
    pub open spec fn spec_div_s(a: Vector, s: int) -> Vector {
        Vector {
            x: fxdiv(a.x as int, s) as i64,
            y: fxdiv(a.y as int, s) as i64,
            z: fxdiv(a.z as int, s) as i64,
        }
    }

    /// Dot product, summed left to right.
    pub open spec fn spec_dot(a: Vector, b: Vector) -> int {
        fxadd(
            fxadd(fxmul(a.x as int, b.x as int), fxmul(a.y as int, b.y as int)),
            fxmul(a.z as int, b.z as int),
        )
    }

    /// Cross product.
    pub open spec fn spec_cross(a: Vector, b: Vector) -> Vector {
        Vector {
            x: fxsub(fxmul(a.y as int, b.z as int), fxmul(a.z as int, b.y as int)) as i64,
            y: fxsub(fxmul(a.z as int, b.x as int), fxmul(a.x as int, b.z as int)) as i64,
            z: fxsub(fxmul(a.x as int, b.y as int), fxmul(a.y as int, b.x as int)) as i64,
        }
    }

    /// Euclidean length.
    pub open spec fn spec_length(a: Vector) -> int {
        fxsqrt(Vector::spec_dot(a, a))
    }

    /// Division by the own length; the zero vector maps to itself.
    pub open spec fn spec_normalize(a: Vector) -> Vector {
        Vector::spec_div_s(a, Vector::spec_length(a))
    }

    /// Componentwise clamp into [0, 1].
    pub open spec fn spec_clip(a: Vector) -> Vector {
        Vector {
            x: clip1(a.x as int) as i64,
            y: clip1(a.y as int) as i64,
            z: clip1(a.z as int) as i64,
        }
    }

    pub fn from_scalar(v: i64) -> (r: Vector)
        ensures
            r == (Vector { x: v, y: v, z: v }),
    {
        Vector { x: v, y: v, z: v }
    }

    pub fn from_xyz(x: i64, y: i64, z: i64) -> (r: Vector)
        ensures
            r == (Vector { x: x, y: y, z: z }),
    {
        Vector { x, y, z }
    }

    pub fn assign_from_scalar(&mut self, f: i64)
        ensures
            *final(self) == (Vector { x: f, y: f, z: f }),
    {
        self.x = f;
        self.y = f;
        self.z = f;
    }

    /// Whether every component exceeds `other`.
    pub fn gt(&self, other: i64) -> (r: bool)
        ensures
            r == (self.x > other && self.y > other && self.z > other),
    {
        self.x > other && self.y > other && self.z > other
    }

    /// Whether every component is below `other`.
    pub fn lt(&self, other: i64) -> (r: bool)
        ensures
            r == (self.x < other && self.y < other && self.z < other),
    {
        self.x < other && self.y < other && self.z < other
    }

    pub fn neg(self) -> (r: Vector)
        ensures
            r == Vector::spec_neg(self),
    {
        Vector { x: fx::fx_neg(self.x), y: fx::fx_neg(self.y), z: fx::fx_neg(self.z) }
    }

    pub fn add(self, other: Vector) -> (r: Vector)
        ensures
            r == Vector::spec_add(self, other),
    {
        Vector {
            x: fx::fx_add(self.x, other.x),
            y: fx::fx_add(self.y, other.y),
            z: fx::fx_add(self.z, other.z),
        }
    }

    pub fn add_assign(&mut self, other: Vector)
        ensures
            *final(self) == Vector::spec_add(*old(self), other),
    {
        *self = self.add(other);
    }

    pub fn sub(self, other: Vector) -> (r: Vector)
        ensures
            r == Vector::spec_sub(self, other),
    {
        Vector {
            x: fx::fx_sub(self.x, other.x),
            y: fx::fx_sub(self.y, other.y),
            z: fx::fx_sub(self.z, other.z),
        }
    }

    pub fn sub_assign(&mut self, other: Vector)
        ensures
            *final(self) == Vector::spec_sub(*old(self), other),
    {
        *self = self.sub(other);
    }

    /// Componentwise product.
    pub fn mul(self, other: Vector) -> (r: Vector)
        ensures
            r == Vector::spec_mul(self, other),
    {
        Vector {
            x: fx::fx_mul(self.x, other.x),
            y: fx::fx_mul(self.y, other.y),
            z: fx::fx_mul(self.z, other.z),
        }
    }

    pub fn mul_assign(&mut self, other: Vector)
        ensures
            *final(self) == Vector::spec_mul(*old(self), other),
    {
        *self = self.mul(other);
    }

    /// Product with a scalar.
    pub fn mul_s(self, s: i64) -> (r: Vector)
        ensures
            r == Vector::spec_mul_s(self, s as int),
    {
        Vector {
            x: fx::fx_mul(self.x, s),
            y: fx::fx_mul(self.y, s),
            z: fx::fx_mul(self.z, s),
        }
    }

    pub fn mul_assign_s(&mut self, s: i64)
        ensures
            *final(self) == Vector::spec_mul_s(*old(self), s as int),
    {
        *self = self.mul_s(s);
    }

    /// Componentwise quotient.
    pub fn div(self, other: Vector) -> (r: Vector)
        ensures
            r == Vector::spec_div(self, other),
    {
        Vector {
            x: fx::fx_div(self.x, other.x),
            y: fx::fx_div(self.y, other.y),
            z: fx::fx_div(self.z, other.z),
        }
    }

    /// Quotient by a scalar.
    pub fn div_s(self, s: i64) -> (r: Vector)
        ensures
            r == Vector::spec_div_s(self, s as int),
    {
        Vector {
            x: fx::fx_div(self.x, s),
            y: fx::fx_div(self.y, s),
            z: fx::fx_div(self.z, s),
        }
    }

    pub fn div_assign_s(&mut self, s: i64)
        ensures
            *final(self) == Vector::spec_div_s(*old(self), s as int),
    {
        *self = self.div_s(s);
    }

    /// Dot product.
    pub fn dot(self, other: Vector) -> (r: i64)
        ensures
            r as int == Vector::spec_dot(self, other),
    {
        fx::fx_add(
            fx::fx_add(fx::fx_mul(self.x, other.x), fx::fx_mul(self.y, other.y)),
            fx::fx_mul(self.z, other.z),
        )
    }

    /// Cross product.
    pub fn cross(self, other: Vector) -> (r: Vector)
        ensures
            r == Vector::spec_cross(self, other),
    {
        Vector {
            x: fx::fx_sub(fx::fx_mul(self.y, other.z), fx::fx_mul(self.z, other.y)),
            y: fx::fx_sub(fx::fx_mul(self.z, other.x), fx::fx_mul(self.x, other.z)),
            z: fx::fx_sub(fx::fx_mul(self.x, other.y), fx::fx_mul(self.y, other.x)),
        }
    }

    /// Euclidean length.
    pub fn length(self) -> (r: i64)
        ensures
            r as int == Vector::spec_length(self),
    {
        fx::fx_sqrt(self.dot(self))
    }

    /// Scales to unit length; the zero vector is returned unchanged (as zero).
    pub fn normalize(&self) -> (r: Vector)
        ensures
            r == Vector::spec_normalize(*self),
    {
        let len = self.length();
        self.div_s(len)
    }

    /// Clamps every component into [0, 1], for writing a pixel.
    pub fn clip(self) -> (r: Vector)
        ensures
            r == Vector::spec_clip(self),
    {
        Vector {
            x: if self.x < 0 {
                0
            } else if self.x > SCALE {
                SCALE
            } else {
                self.x
            },
            y: if self.y < 0 {
                0
            } else if self.y > SCALE {
                SCALE
            } else {
                self.y
            },
            z: if self.z < 0 {
                0
            } else if self.z > SCALE {
                SCALE
            } else {
                self.z
            },
        }
    }
}

/// Normalizing a vector yields a unit vector: shown exactly for axis-aligned
/// vectors whose coordinate is a positive multiple of 4096 (so that the
/// squared length is representable without truncation); their normalized
/// form is exactly the unit axis vector, whose length is exactly 1.
pub proof fn lemma_normalize_unit_axis(v: Vector)
    requires
        v.y == 0,
        v.z == 0,
        0 < v.x < 8796093022208,
        v.x % 4096 == 0,
    ensures
        Vector::spec_normalize(v) == (Vector { x: SCALE as i64, y: 0, z: 0 }),
        Vector::spec_length(Vector::spec_normalize(v)) == SCALE,
{
    let x = v.x as int;
    let k = x / 4096;
    vstd::arithmetic::div_mod::lemma_fundamental_div_mod(x, 4096);
    assert(x == 4096 * k);
    assert(0 < k < 0x80000000);
    assert(x * x == (16777216 * (k * k))) by (nonlinear_arith)
        requires
            x == 4096 * k,
    ;
    assert(fx::tdiv(x * x, 16777216) == k * k) by {
        vstd::arithmetic::div_mod::lemma_div_multiples_vanish(k * k, 16777216);
    }
    assert(0 <= k * k < 0x4000000000000000) by (nonlinear_arith)
        requires
            0 < k < 0x80000000,
    ;
    assert(fxmul(x, x) == k * k);
    assert(fxmul(0, 0) == 0) by {
        vstd::arithmetic::div_mod::lemma_div_multiples_vanish(0, 16777216);
    }
    assert(Vector::spec_dot(v, v) == k * k);
    assert((4096 * k) * (4096 * k) == (k * k) * 16777216) by (nonlinear_arith);
    assert(fx::is_isqrt((k * k) * 16777216, x)) by (nonlinear_arith)
        requires
            x == 4096 * k,
            0 < k < 0x80000000,
    ;
    fx::lemma_isqrt_unique((k * k) * 16777216, x);
    assert(Vector::spec_length(v) == x);
    assert(fx::tdiv(x * 16777216, x) == 16777216) by {
        vstd::arithmetic::div_mod::lemma_div_multiples_vanish(16777216, x);
        assert(x * 16777216 == 16777216 * x) by (nonlinear_arith);
    }
    assert(fxdiv(x, x) == 16777216);
    assert(fxdiv(0, x) == 0) by {
        vstd::arithmetic::div_mod::lemma_div_multiples_vanish(0, x);
    }
    let u = Vector { x: SCALE as i64, y: 0, z: 0 };
    assert(Vector::spec_normalize(v) == u);
    assert(fx::tdiv(16777216int * 16777216, 16777216) == 16777216) by {
        vstd::arithmetic::div_mod::lemma_div_multiples_vanish(16777216, 16777216);
    }
    assert(fxmul(16777216, 16777216) == 16777216);
    assert(Vector::spec_dot(u, u) == 16777216);
    assert(fx::is_isqrt(16777216int * 16777216, 16777216)) by (nonlinear_arith);
    fx::lemma_isqrt_unique(16777216int * 16777216, 16777216);
    assert(Vector::spec_length(u) == SCALE);
}

/// Normalizing keeps unit length, within a tolerance of a few raw units:
/// for any vector of length at least 1 whose components stay within
/// 65536.0, the length of the normalized vector lies within 5 raw units
/// below and 2 above exactly 1. (Vectors shorter than 1 degrade with the
/// fixed-point resolution and are left out; the zero vector normalizes to
/// itself.)
#[verifier::rlimit(100)]
#[verifier::spinoff_prover]
pub proof fn lemma_normalize_unit_length(v: Vector)
    requires
        -1099511627776 <= v.x <= 1099511627776,
        -1099511627776 <= v.y <= 1099511627776,
        -1099511627776 <= v.z <= 1099511627776,
        Vector::spec_length(v) >= SCALE,
    ensures
        SCALE - 5 <= Vector::spec_length(Vector::spec_normalize(v)) <= SCALE + 2,
{
    let s = SCALE as int;
    let x = v.x as int;
    let y = v.y as int;
    let z = v.z as int;

    fx::lemma_fxmul_square_bounds(x);
    fx::lemma_fxmul_square_bounds(y);
    fx::lemma_fxmul_square_bounds(z);
    let d = fxmul(x, x) + fxmul(y, y) + fxmul(z, z);
    assert(Vector::spec_dot(v, v) == d);
    let vv = x * x + y * y + z * z;
    assert(s * d <= vv < s * d + 3 * s);

    let l = Vector::spec_length(v);
    fx::lemma_isqrt_exists(d * s);
    assert(l == fx::isqrt(d * s));
    assert(l * l <= d * s < (l + 1) * (l + 1));
    assert(l >= s);
    assert(d * s == s * d) by (nonlinear_arith);
    assert(l * l <= vv);
    assert(vv < (l + 1) * (l + 1) + 3 * s);

    // The normalized components are plain truncated quotients: no clamping.
    fx::lemma_tdiv_square_bounds(x * s, l);
    fx::lemma_tdiv_square_bounds(y * s, l);
    fx::lemma_tdiv_square_bounds(z * s, l);
    let nx = fx::tdiv(x * s, l);
    let ny = fx::tdiv(y * s, l);
    let nz = fx::tdiv(z * s, l);
    assert(fx::iabs(x * s) <= 1099511627776 * 16777216) by (nonlinear_arith)
        requires
            -1099511627776 <= x <= 1099511627776,
            s == 16777216,
    ;
    assert(fx::iabs(y * s) <= 1099511627776 * 16777216) by (nonlinear_arith)
        requires
            -1099511627776 <= y <= 1099511627776,
            s == 16777216,
    ;
    assert(fx::iabs(z * s) <= 1099511627776 * 16777216) by (nonlinear_arith)
        requires
            -1099511627776 <= z <= 1099511627776,
            s == 16777216,
    ;
    assert(fx::iabs(nx) <= 1099511627776 && fx::iabs(ny) <= 1099511627776 && fx::iabs(nz)
        <= 1099511627776) by (nonlinear_arith)
        requires
            fx::iabs(nx) * l <= fx::iabs(x * s),
            fx::iabs(ny) * l <= fx::iabs(y * s),
            fx::iabs(nz) * l <= fx::iabs(z * s),
            fx::iabs(x * s) <= 1099511627776 * 16777216,
            fx::iabs(y * s) <= 1099511627776 * 16777216,
            fx::iabs(z * s) <= 1099511627776 * 16777216,
            fx::iabs(nx) >= 0,
            fx::iabs(ny) >= 0,
            fx::iabs(nz) >= 0,
            l >= 16777216,
    ;
    let n = Vector::spec_normalize(v);
    assert(n.x as int == nx && n.y as int == ny && n.z as int == nz);

    // Sum the per-component sandwiches of the scaled-back quotients.
    let nn = nx * nx + ny * ny + nz * nz;
    let ax = fx::iabs(x * s);
    let ay = fx::iabs(y * s);
    let az = fx::iabs(z * s);
    let aa = ax + ay + az;
    assert((l * nx) * (l * nx) + (l * ny) * (l * ny) + (l * nz) * (l * nz) == l * l * nn)
        by (nonlinear_arith)
        requires
            nn == nx * nx + ny * ny + nz * nz,
    ;
    assert((x * s) * (x * s) + (y * s) * (y * s) + (z * s) * (z * s) == s * s * vv)
        by (nonlinear_arith)
        requires
            vv == x * x + y * y + z * z,
    ;
    assert(l * l * nn <= s * s * vv);
    assert(s * s * vv < l * l * nn + 2 * l * ax + 2 * l * ay + 2 * l * az + 3 * (l * l));
    assert(2 * l * ax + 2 * l * ay + 2 * l * az == 2 * l * aa) by (nonlinear_arith)
        requires
            aa == ax + ay + az,
    ;
    assert(s * s * vv < l * l * nn + 2 * l * aa + 3 * (l * l));

    // aa is at most 2 s l, by the three-term Cauchy-Schwarz inequality.
    assert(ax * ax == (x * s) * (x * s)) by (nonlinear_arith)
        requires
            ax == x * s || ax == -(x * s),
    ;
    assert(ay * ay == (y * s) * (y * s)) by (nonlinear_arith)
        requires
            ay == y * s || ay == -(y * s),
    ;
    assert(az * az == (z * s) * (z * s)) by (nonlinear_arith)
        requires
            az == z * s || az == -(z * s),
    ;
    assert(aa * aa <= 3 * (s * s * vv)) by (nonlinear_arith)
        requires
            aa == ax + ay + az,
            ax * ax + ay * ay + az * az == s * s * vv,
            ax >= 0,
            ay >= 0,
            az >= 0,
    ;
    assert(3 * (s * s * vv) <= (2 * s * l) * (2 * s * l)) by (nonlinear_arith)
        requires
            vv < (l + 1) * (l + 1) + 3 * s,
            l >= s,
            s == 16777216,
    ;
    assert(aa <= 2 * s * l) by (nonlinear_arith)
        requires
            aa >= 0,
            aa * aa <= (2 * s * l) * (2 * s * l),
            s == 16777216,
            l >= s,
    ;

    // Lower and upper bounds on the normalized dot product.
    assert(nn >= s * s - 4 * s - 3) by (nonlinear_arith)
        requires
            l * l * nn + 2 * l * aa + 3 * (l * l) > s * s * vv,
            vv >= l * l,
            aa <= 2 * s * l,
            aa >= 0,
            l >= s,
            s == 16777216,
    ;
    assert(nn <= s * s + 5 * s) by (nonlinear_arith)
        requires
            l * l * nn <= s * s * vv,
            vv < (l + 1) * (l + 1) + 3 * s,
            l >= s,
            s == 16777216,
    ;

    fx::lemma_fxmul_square_bounds(nx);
    fx::lemma_fxmul_square_bounds(ny);
    fx::lemma_fxmul_square_bounds(nz);
    let qq = fxmul(nx, nx) + fxmul(ny, ny) + fxmul(nz, nz);
    assert(Vector::spec_dot(n, n) == qq);
    assert(s * qq <= nn < s * qq + 3 * s);
    assert(s - 8 <= qq <= s + 5) by (nonlinear_arith)
        requires
            s * qq <= nn,
            nn < s * qq + 3 * s,
            s * s - 4 * s - 3 <= nn <= s * s + 5 * s,
            s == 16777216,
    ;

    let r = Vector::spec_length(n);
    fx::lemma_isqrt_exists(qq * s);
    assert(r == fx::isqrt(qq * s));
    assert(r * r <= qq * s < (r + 1) * (r + 1));
    assert((s - 5) * (s - 5) <= qq * s && qq * s < (s + 3) * (s + 3)) by (nonlinear_arith)
        requires
            s - 8 <= qq <= s + 5,
            s == 16777216,
    ;
    assert(s - 5 <= r) by (nonlinear_arith)
        requires
            (s - 5) * (s - 5) <= qq * s,
            qq * s < (r + 1) * (r + 1),
            r >= 0,
            s == 16777216,
    ;
    assert(r <= s + 2) by (nonlinear_arith)
        requires
            r * r <= qq * s,
            qq * s < (s + 3) * (s + 3),
            r >= 0,
            s == 16777216,
    ;
}

impl From<i64> for Vector {
    fn from(v: i64) -> (r: Vector) {
        Vector::from_scalar(v)
    }
}

impl vstd::std_specs::convert::FromSpecImpl<i64> for Vector {
    open spec fn obeys_from_spec() -> bool {
        true
    }

    open spec fn from_spec(v: i64) -> Vector {
        Vector { x: v, y: v, z: v }
    }
}

impl From<(i64, i64, i64)> for Vector {
    fn from(v: (i64, i64, i64)) -> (r: Vector) {
        Vector::from_xyz(v.0, v.1, v.2)
    }
}

impl vstd::std_specs::convert::FromSpecImpl<(i64, i64, i64)> for Vector {
    open spec fn from_spec(v: (i64, i64, i64)) -> Vector {
        Vector { x: v.0, y: v.1, z: v.2 }
    }

    open spec fn obeys_from_spec() -> bool {
        true
    }
}

} // verus!
