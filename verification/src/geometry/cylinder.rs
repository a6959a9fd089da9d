//! Finite capped cylinders: an orthonormal basis around the axis, the
//! quadratic for the infinite surface, and end-cap fallbacks for roots whose
//! axial projection falls outside [0, 1].

use vstd::prelude::*;
use crate::fx;
use crate::fx::{fxadd, fxsub, fxneg, fxmul, fxdiv, fxabs, fxsqrt, SCALE};
use crate::ray::Ray;
use crate::surface::Surface;
use crate::vector::Vector;
use super::{EPS, GEOMETRY_THRESHOLD};

verus! {

#[derive(Clone, Copy, Debug, PartialEq, Eq, Structural)]
pub struct Cylinder {
    pub material: Surface,
    /// First radial basis vector, scaled to the radius.
    pub e1: Vector,
    /// Second radial basis vector, scaled to the radius.
    pub e2: Vector,
    /// Offset of the bottom cap plane.
    pub d1: i64,
    /// Offset of the top cap plane.
    pub d2: i64,
    /// Length of the axis vector.
    pub len: i64,
    /// Squared length of the axis vector.
    pub len2: i64,
    /// Squared radius.
    pub radius2: i64,
    /// Fourth power of the radius.
    pub radius4: i64,
    pub loc: Vector,
    /// Axis vector, from the bottom to the top cap.
    pub dir: Vector,
    pub radius: i64,
}

impl Cylinder {
    /// The whole precomputation done by `new`.
    pub open spec fn spec_new(material: Surface, loc: Vector, dir: Vector, radius: i64) -> Cylinder {
        let radius2 = fxmul(radius as int, radius as int);
        let len2 = Vector::spec_dot(dir, dir);
        let seed = if fxadd(fxabs(dir.x as int), fxabs(dir.y as int)) > fxabs(dir.z as int) {
            Vector { x: dir.y, y: fxneg(dir.x as int) as i64, z: 0 }
        } else {
            Vector { x: 0, y: dir.z, z: fxneg(dir.y as int) as i64 }
        };
        let e1 = Vector::spec_mul_s(Vector::spec_normalize(seed), radius as int);
        Cylinder {
            material,
            loc,
            dir,
            radius,
            radius2: radius2 as i64,
            radius4: fxmul(radius2, radius2) as i64,
            d1: fxneg(Vector::spec_dot(loc, dir)) as i64,
            d2: fxneg(Vector::spec_dot(Vector::spec_add(loc, dir), dir)) as i64,
            len2: len2 as i64,
            len: fxsqrt(len2) as i64,
            e1,
            e2: Vector::spec_mul_s(
                Vector::spec_normalize(Vector::spec_cross(dir, e1)),
                radius as int,
            ),
        }
    }

    /// End-cap fallback when the ray runs bottom-to-top: a root whose axial
    /// parameter leaves [0, 1] is re-solved against the corresponding cap
    /// plane and rejected (as -1) when it leaves the cap's disk.
    pub open spec fn spec_cap_bottom_top(self, ray: Ray, l1: int, axial: int, t: int) -> int {
        if axial < 0 {
            let tc = fxdiv(fxneg(fxadd(Vector::spec_dot(ray.org, self.dir), self.d1 as int)), l1);
            let p = Vector::spec_sub(ray.spec_point(tc), self.loc);
            if Vector::spec_dot(p, p) >= self.radius2 {
                -SCALE as int
            } else {
                tc
            }
        } else if axial > SCALE {
            let tc = fxdiv(fxneg(fxadd(Vector::spec_dot(ray.org, self.dir), self.d2 as int)), l1);
            let p = Vector::spec_sub(Vector::spec_sub(ray.spec_point(tc), self.loc), self.dir);
            if Vector::spec_dot(p, p) >= self.radius2 {
                -SCALE as int
            } else {
                tc
            }
        } else {
            t
        }
    }

    /// End-cap fallback when the ray runs top-to-bottom.
    pub open spec fn spec_cap_top_bottom(self, ray: Ray, l1: int, axial: int, t: int) -> int {
        if axial < 0 {
            let tc = fxdiv(fxneg(fxadd(Vector::spec_dot(ray.org, self.dir), self.d2 as int)), l1);
            let p = Vector::spec_sub(Vector::spec_sub(ray.spec_point(tc), self.loc), self.dir);
            if Vector::spec_dot(p, p) >= self.radius2 {
                -SCALE as int
            } else {
                tc
            }
        } else if axial > SCALE {
            let tc = fxdiv(fxneg(fxadd(Vector::spec_dot(ray.org, self.dir), self.d1 as int)), l1);
            let p = Vector::spec_sub(ray.spec_point(tc), self.loc);
            if Vector::spec_dot(p, p) >= self.radius2 {
                -SCALE as int
            } else {
                tc
            }
        } else {
            t
        }
    }

    pub open spec fn spec_intersect(self, ray: Ray) -> Option<i64> {
        let l = Vector::spec_sub(ray.org, self.loc);
        let u0 = Vector::spec_dot(l, self.e1);
        let u1 = Vector::spec_dot(ray.dir, self.e1);
        let v0 = Vector::spec_dot(l, self.e2);
        let v1 = Vector::spec_dot(ray.dir, self.e2);
        let l0 = Vector::spec_dot(l, self.dir);
        let l1 = Vector::spec_dot(ray.dir, self.dir);
        let a = fxadd(fxmul(u1, u1), fxmul(v1, v1));
        let b = fxadd(fxmul(u0, u1), fxmul(v0, v1));
        let c = fxsub(fxadd(fxmul(u0, u0), fxmul(v0, v0)), self.radius4 as int);
        let d = fxsub(fxmul(b, b), fxmul(a, c));
        if d <= 0 {
            None
        } else {
            let sq = fxsqrt(d);
            let t1 = fxdiv(fxsub(fxneg(b), sq), a);
            let t2 = fxdiv(fxadd(fxneg(b), sq), a);
            let axial1 = fxdiv(fxadd(l0, fxmul(t1, l1)), self.len2 as int);
            let axial2 = fxdiv(fxadd(l0, fxmul(t2, l1)), self.len2 as int);
            let tc1 = if l1 > EPS {
                self.spec_cap_bottom_top(ray, l1, axial1, t1)
            } else if l1 < -EPS {
                self.spec_cap_top_bottom(ray, l1, axial1, t1)
            } else {
                t1
            };
            let tc2 = if l1 > EPS {
                self.spec_cap_bottom_top(ray, l1, axial2, t2)
            } else if l1 < -EPS {
                self.spec_cap_top_bottom(ray, l1, axial2, t2)
            } else {
                t2
            };
            if tc1 > GEOMETRY_THRESHOLD {
                Some(tc1 as i64)
            } else if tc2 > GEOMETRY_THRESHOLD {
                Some(tc2 as i64)
            } else {
                None
            }
        }
    }

    /// The normal: a cap orientation near either end, else the radial
    /// offset from the axis.
    pub open spec fn spec_find_normal(self, p: Vector) -> Vector {
        let t = fxdiv(Vector::spec_dot(Vector::spec_sub(p, self.loc), self.dir), self.len2 as int);
        if t < EPS {
            Vector::spec_div_s(Vector::spec_neg(self.dir), self.len as int)
        } else if t > SCALE - EPS {
            Vector::spec_div_s(self.dir, self.len as int)
        } else {
            Vector::spec_normalize(
                Vector::spec_sub(Vector::spec_sub(p, self.loc), Vector::spec_mul_s(self.dir, t)),
            )
        }
    }

    pub fn new(material: Surface, loc: Vector, dir: Vector, radius: i64) -> (r: Cylinder)
        ensures
            r == Cylinder::spec_new(material, loc, dir, radius),
    {
        let radius2 = fx::fx_mul(radius, radius);
        let len2 = dir.dot(dir);
        let seed = if fx::fx_add(fx::fx_abs(dir.x), fx::fx_abs(dir.y)) > fx::fx_abs(dir.z) {
            Vector::from_xyz(dir.y, fx::fx_neg(dir.x), 0)
        } else {
            Vector::from_xyz(0, dir.z, fx::fx_neg(dir.y))
        };
        let e1 = seed.normalize().mul_s(radius);
        Cylinder {
            material,
            loc,
            dir,
            radius,
            radius2,
            radius4: fx::fx_mul(radius2, radius2),
            d1: fx::fx_neg(loc.dot(dir)),
            d2: fx::fx_neg(loc.add(dir).dot(dir)),
            len2,
            len: fx::fx_sqrt(len2),
            e1,
            e2: dir.cross(e1).normalize().mul_s(radius),
        }
    }

    fn cap_bottom_top(&self, ray: &Ray, l1: i64, axial: i64, t: i64) -> (r: i64)
        ensures
            r as int == self.spec_cap_bottom_top(*ray, l1 as int, axial as int, t as int),
    {
        if axial < 0 {
            let tc = fx::fx_div(fx::fx_neg(fx::fx_add(ray.org.dot(self.dir), self.d1)), l1);
            let p = ray.point(tc).sub(self.loc);
            if p.dot(p) >= self.radius2 {
                -SCALE
            } else {
                tc
            }
        } else if axial > SCALE {
            let tc = fx::fx_div(fx::fx_neg(fx::fx_add(ray.org.dot(self.dir), self.d2)), l1);
            let p = ray.point(tc).sub(self.loc).sub(self.dir);
            if p.dot(p) >= self.radius2 {
                -SCALE
            } else {
                tc
            }
        } else {
            t
        }
    }

    fn cap_top_bottom(&self, ray: &Ray, l1: i64, axial: i64, t: i64) -> (r: i64)
        ensures
            r as int == self.spec_cap_top_bottom(*ray, l1 as int, axial as int, t as int),
    {
        if axial < 0 {
            let tc = fx::fx_div(fx::fx_neg(fx::fx_add(ray.org.dot(self.dir), self.d2)), l1);
            let p = ray.point(tc).sub(self.loc).sub(self.dir);
            if p.dot(p) >= self.radius2 {
                -SCALE
            } else {
                tc
            }
        } else if axial > SCALE {
            let tc = fx::fx_div(fx::fx_neg(fx::fx_add(ray.org.dot(self.dir), self.d1)), l1);
            let p = ray.point(tc).sub(self.loc);
            if p.dot(p) >= self.radius2 {
                -SCALE
            } else {
                tc
            }
        } else {
            t
        }
    }

    pub fn intersect(&self, ray: &Ray) -> (r: Option<i64>)
        ensures
            r == self.spec_intersect(*ray),
    {
        let l = ray.org.sub(self.loc);
        let u0 = l.dot(self.e1);
        let u1 = ray.dir.dot(self.e1);
        let v0 = l.dot(self.e2);
        let v1 = ray.dir.dot(self.e2);
        let l0 = l.dot(self.dir);
        let l1 = ray.dir.dot(self.dir);
        let a = fx::fx_add(fx::fx_mul(u1, u1), fx::fx_mul(v1, v1));
        let b = fx::fx_add(fx::fx_mul(u0, u1), fx::fx_mul(v0, v1));
        let c = fx::fx_sub(fx::fx_add(fx::fx_mul(u0, u0), fx::fx_mul(v0, v0)), self.radius4);
        let d = fx::fx_sub(fx::fx_mul(b, b), fx::fx_mul(a, c));

        if d <= 0 {
            return None;
        }

        let sq = fx::fx_sqrt(d);

        let mut t1 = fx::fx_div(fx::fx_sub(fx::fx_neg(b), sq), a);
        let mut t2 = fx::fx_div(fx::fx_add(fx::fx_neg(b), sq), a);

        let axial1 = fx::fx_div(fx::fx_add(l0, fx::fx_mul(t1, l1)), self.len2);
        let axial2 = fx::fx_div(fx::fx_add(l0, fx::fx_mul(t2, l1)), self.len2);

        if l1 > EPS {
            t1 = self.cap_bottom_top(ray, l1, axial1, t1);
            t2 = self.cap_bottom_top(ray, l1, axial2, t2);
        } else if l1 < -EPS {
            t1 = self.cap_top_bottom(ray, l1, axial1, t1);
            t2 = self.cap_top_bottom(ray, l1, axial2, t2);
        }

        if t1 > GEOMETRY_THRESHOLD {
            return Some(t1);
        }

        if t2 > GEOMETRY_THRESHOLD {
            Some(t2)
        } else {
            None
        }
    }

    pub fn find_normal(&self, p: &Vector) -> (r: Vector)
        ensures
            r == self.spec_find_normal(*p),
    {
        let t = fx::fx_div(p.sub(self.loc).dot(self.dir), self.len2);
        if t < EPS {
            self.dir.neg().div_s(self.len)
        } else if t > SCALE - EPS {
            self.dir.div_s(self.len)
        } else {
            p.sub(self.loc).sub(self.dir.mul_s(t)).normalize()
        }
    }
}

} // verus!
