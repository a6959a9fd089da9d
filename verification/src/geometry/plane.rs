//! Planes in point-normal form: (n, r) + D = 0.

use vstd::prelude::*;
use crate::fx;
use crate::fx::{fxadd, fxneg, fxdiv};
use crate::ray::Ray;
use crate::surface::Surface;
use crate::vector::Vector;
use super::{EPS, GEOMETRY_THRESHOLD};

verus! {

#[derive(Clone, Copy, Debug, PartialEq, Eq, Structural)]
pub struct Plane {
    pub material: Surface,
    /// Unit plane normal.
    pub normal: Vector,
    /// Distance from the origin.
    pub distance: i64,
}

impl Plane {
    pub open spec fn spec_intersect(self, ray: Ray) -> Option<i64> {
        let vd = Vector::spec_dot(self.normal, ray.dir);
        if vd > -EPS && vd < EPS {
            None
        } else {
            let t = fxdiv(fxneg(fxadd(Vector::spec_dot(self.normal, ray.org), self.distance as int)), vd);
            if t > GEOMETRY_THRESHOLD {
                Some(t as i64)
            } else {
                None
            }
        }
    }

    pub fn new(material: Surface, normal: Vector, distance: i64) -> (r: Plane)
        ensures
            r == (Plane { material, normal, distance }),
    {
        Plane { material, normal, distance }
    }

    /// Builds the plane from the equation ax + by + cz + d = 0, scaling the
    /// normal to unit length.
    pub fn from_abcd(material: Surface, a: i64, b: i64, c: i64, d: i64) -> (r: Plane)
        ensures
            ({
                let n = Vector { x: a, y: b, z: c };
                let len = Vector::spec_length(n);
                r.material == material && r.normal == Vector::spec_div_s(n, len)
                    && r.distance as int == fxdiv(d as int, len)
            }),
    {
        let normal = Vector::from_xyz(a, b, c);
        let normal_length = normal.length();
        let normal = normal.div_s(normal_length);
        let distance = fx::fx_div(d, normal_length);
        Plane { material, normal, distance }
    }

    pub fn intersect(&self, ray: &Ray) -> (r: Option<i64>)
        ensures
            r == self.spec_intersect(*ray),
    {
        let vd = self.normal.dot(ray.dir);

        if vd > -EPS && vd < EPS {
            return None;
        }

        let t = fx::fx_div(fx::fx_neg(fx::fx_add(self.normal.dot(ray.org), self.distance)), vd);

        if t > GEOMETRY_THRESHOLD {
            Some(t)
        } else {
            None
        }
    }

    pub fn find_normal(&self, _p: &Vector) -> (r: Vector)
        ensures
            r == self.normal,
    {
        self.normal
    }
}

} // verus!
