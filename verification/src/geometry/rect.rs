//! Finite rectangles (parallelograms): a corner and two edge vectors, with a
//! precomputed dual basis so a world point projects to local (u, v) in O(1).

use vstd::prelude::*;
use crate::fx;
use crate::fx::{fxadd, fxsub, fxneg, fxmul, fxdiv, SCALE};
use crate::ray::Ray;
use crate::surface::Surface;
use crate::vector::Vector;
use super::{EPS, GEOMETRY_THRESHOLD};

verus! {

#[derive(Clone, Copy, Debug, PartialEq, Eq, Structural)]
pub struct Rect {
    pub material: Surface,
    pub loc: Vector,
    pub side_a: Vector,
    pub side_b: Vector,
    pub normal: Vector,
    /// Dual basis vector for the u coordinate.
    pub ku: Vector,
    /// Dual basis vector for the v coordinate.
    pub kv: Vector,
    pub u0: i64,
    pub v0: i64,
}

impl Rect {
    /// The whole precomputation done by `new`: the 2x2 Gram-matrix inverse
    /// of the two edges gives the dual basis.
    pub open spec fn spec_new(material: Surface, loc: Vector, side_a: Vector, side_b: Vector) -> Rect {
        let s_aa = Vector::spec_dot(side_a, side_a);
        let s_ab = Vector::spec_dot(side_a, side_b);
        let s_bb = Vector::spec_dot(side_b, side_b);
        let d = fxsub(fxmul(s_aa, s_bb), fxmul(s_ab, s_ab));
        let ku = Vector::spec_div_s(
            Vector::spec_sub(Vector::spec_mul_s(side_a, s_bb), Vector::spec_mul_s(side_b, s_ab)),
            d,
        );
        let kv = Vector::spec_div_s(
            Vector::spec_sub(Vector::spec_mul_s(side_b, s_aa), Vector::spec_mul_s(side_a, s_ab)),
            d,
        );
        Rect {
            material,
            loc,
            side_a,
            side_b,
            normal: Vector::spec_normalize(Vector::spec_cross(side_a, side_b)),
            ku,
            kv,
            u0: fxneg(Vector::spec_dot(loc, ku)) as i64,
            v0: fxneg(Vector::spec_dot(loc, kv)) as i64,
        }
    }

    /// Plane hit plus local coordinates: `Some((t, u, v))` when the ray
    /// meets the carrier plane beyond the threshold.
    pub open spec fn spec_intersect_uv(self, ray: Ray) -> Option<(i64, i64, i64)> {
        let vd = Vector::spec_dot(self.normal, ray.dir);
        if vd > -EPS && vd < EPS {
            None
        } else {
            let t = fxdiv(Vector::spec_dot(Vector::spec_sub(self.loc, ray.org), self.normal), vd);
            if t < GEOMETRY_THRESHOLD {
                None
            } else {
                let p = ray.spec_point(t);
                let u = fxadd(self.u0 as int, Vector::spec_dot(p, self.ku));
                let v = fxadd(self.v0 as int, Vector::spec_dot(p, self.kv));
                Some((t as i64, u as i64, v as i64))
            }
        }
    }

    pub open spec fn spec_intersect(self, ray: Ray) -> Option<i64> {
        match self.spec_intersect_uv(ray) {
            Some((t, u, v)) => if u > 0 && v > 0 && u < SCALE && v < SCALE {
                Some(t)
            } else {
                None
            },
            None => None,
        }
    }

    pub fn new(material: Surface, loc: Vector, side_a: Vector, side_b: Vector) -> (r: Rect)
        ensures
            r == Rect::spec_new(material, loc, side_a, side_b),
    {
        let s_aa = side_a.dot(side_a);
        let s_ab = side_a.dot(side_b);
        let s_bb = side_b.dot(side_b);
        let d = fx::fx_sub(fx::fx_mul(s_aa, s_bb), fx::fx_mul(s_ab, s_ab));
        let ku = side_a.mul_s(s_bb).sub(side_b.mul_s(s_ab)).div_s(d);
        let kv = side_b.mul_s(s_aa).sub(side_a.mul_s(s_ab)).div_s(d);
        Rect {
            material,
            loc,
            side_a,
            side_b,
            normal: side_a.cross(side_b).normalize(),
            ku,
            kv,
            u0: fx::fx_neg(loc.dot(ku)),
            v0: fx::fx_neg(loc.dot(kv)),
        }
    }

    pub fn intersect_uv(&self, ray: &Ray) -> (r: Option<(i64, i64, i64)>)
        ensures
            r == self.spec_intersect_uv(*ray),
    {
        let vd = self.normal.dot(ray.dir);
        if vd > -EPS && vd < EPS {
            return None;
        }

        let t = fx::fx_div(self.loc.sub(ray.org).dot(self.normal), vd);
        if t < GEOMETRY_THRESHOLD {
            return None;
        }

        let p = ray.point(t);
        let u = fx::fx_add(self.u0, p.dot(self.ku));
        let v = fx::fx_add(self.v0, p.dot(self.kv));

        Some((t, u, v))
    }

    pub fn intersect(&self, ray: &Ray) -> (r: Option<i64>)
        ensures
            r == self.spec_intersect(*ray),
    {
        match self.intersect_uv(ray) {
            Some((t, u, v)) => if u > 0 && v > 0 && u < SCALE && v < SCALE {
                Some(t)
            } else {
                None
            },
            None => None,
        }
    }

    pub fn find_normal(&self, _p: &Vector) -> (r: Vector)
        ensures
            r == self.normal,
    {
        self.normal
    }
}

} // verus!
