//! Spheres: closed-form quadratic intersection.

use vstd::prelude::*;
use crate::fx;
use crate::fx::{fxadd, fxsub, fxmul, fxabs, fxsqrt};
use crate::ray::Ray;
use crate::surface::Surface;
use crate::vector::Vector;
use super::GEOMETRY_THRESHOLD;

verus! {

#[derive(Clone, Copy, Debug, PartialEq, Eq, Structural)]
pub struct Sphere {
    pub material: Surface,
    pub center: Vector,
    pub radius: i64,
    /// The squared radius, precomputed.
    pub radius_radius: i64,
}

impl Sphere {
    /// Distance from the ray origin toward the center, projected on the ray
    /// direction ("time of closest approach").
    pub open spec fn spec_tca(self, ray: Ray) -> int {
        Vector::spec_dot(Vector::spec_sub(self.center, ray.org), ray.dir)
    }

    /// The squared half-chord: what is left of the squared radius at the
    /// closest approach. Negative when the ray misses the sphere's line.
    pub open spec fn spec_t2hc(self, ray: Ray) -> int {
        let l = Vector::spec_sub(self.center, ray.org);
        let l20c = Vector::spec_dot(l, l);
        let tca = self.spec_tca(ray);
        fxadd(fxsub(self.radius_radius as int, l20c), fxmul(tca, tca))
    }

    /// Picks the returned root: the smaller one above the threshold, falling
    /// back to the far root when the near one sits at the origin.
    pub open spec fn spec_pick_root(tca: int, sq: int) -> Option<i64> {
        let near_first = tca >= sq;
        let t = if near_first {
            fxsub(tca, sq)
        } else {
            fxadd(tca, sq)
        };
        let t2 = if near_first {
            fxadd(tca, sq)
        } else {
            fxsub(tca, sq)
        };
        let tf = if fxabs(t) < GEOMETRY_THRESHOLD {
            t2
        } else {
            t
        };
        if tf > GEOMETRY_THRESHOLD {
            Some(tf as i64)
        } else {
            None
        }
    }

    pub open spec fn spec_intersect(self, ray: Ray) -> Option<i64> {
        let t2hc = self.spec_t2hc(ray);
        if t2hc < 0 {
            None
        } else {
            Sphere::spec_pick_root(self.spec_tca(ray), fxsqrt(t2hc))
        }
    }

    /// The outward normal: offset from the center, scaled by the radius.
    pub open spec fn spec_find_normal(self, p: Vector) -> Vector {
        Vector::spec_div_s(Vector::spec_sub(p, self.center), self.radius as int)
    }

    pub fn new(material: Surface, center: Vector, radius: i64) -> (r: Sphere)
        ensures
            r.material == material,
            r.center == center,
            r.radius == radius,
            r.radius_radius as int == fxmul(radius as int, radius as int),
    {
        Sphere { material, center, radius, radius_radius: fx::fx_mul(radius, radius) }
    }

    pub fn intersect(&self, ray: &Ray) -> (r: Option<i64>)
        ensures
            r == self.spec_intersect(*ray),
    {
        let l = self.center.sub(ray.org);
        let l20c = l.dot(l);
        let tca = l.dot(ray.dir);
        let t2hc = fx::fx_add(fx::fx_sub(self.radius_radius, l20c), fx::fx_mul(tca, tca));

        if t2hc < 0 {
            return None;
        }

        let sq = fx::fx_sqrt(t2hc);

        let (t, t2) = if tca < sq {
            (fx::fx_add(tca, sq), fx::fx_sub(tca, sq))
        } else {
            (fx::fx_sub(tca, sq), fx::fx_add(tca, sq))
        };

        let tf = if fx::fx_abs(t) < GEOMETRY_THRESHOLD {
            t2
        } else {
            t
        };

        if tf > GEOMETRY_THRESHOLD {
            Some(tf)
        } else {
            None
        }
    }

    pub fn find_normal(&self, p: &Vector) -> (r: Vector)
        ensures
            r == self.spec_find_normal(*p),
    {
        p.sub(self.center).div_s(self.radius)
    }
}

/// The two candidate roots of the quadratic lie symmetric about the
/// projection of the center onto the ray: within the saturation band their
/// sum is exactly twice that projection.
pub proof fn lemma_sphere_roots_symmetric(s: Sphere, ray: Ray)
    requires
        s.spec_t2hc(ray) >= 0,
        fx::FX_MIN <= s.spec_tca(ray) + fxsqrt(s.spec_t2hc(ray)) <= fx::FX_MAX,
        fx::FX_MIN <= s.spec_tca(ray) - fxsqrt(s.spec_t2hc(ray)) <= fx::FX_MAX,
    ensures
        fxadd(s.spec_tca(ray), fxsqrt(s.spec_t2hc(ray))) + fxsub(
            s.spec_tca(ray),
            fxsqrt(s.spec_t2hc(ray)),
        ) == 2 * s.spec_tca(ray),
{
}

/// A ray cast from outside toward the sphere (closest approach beyond the
/// half-chord) returns the nearer root `tca - sq` whenever that root clears
/// the threshold.
pub proof fn lemma_sphere_returns_near_root(s: Sphere, ray: Ray)
    requires
        s.spec_t2hc(ray) >= 0,
        s.spec_tca(ray) >= fxsqrt(s.spec_t2hc(ray)),
        fxsub(s.spec_tca(ray), fxsqrt(s.spec_t2hc(ray))) > GEOMETRY_THRESHOLD,
    ensures
        s.spec_intersect(ray) == Some(
            fxsub(s.spec_tca(ray), fxsqrt(s.spec_t2hc(ray))) as i64,
        ),
{
}

} // verus!
