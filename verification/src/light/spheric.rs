//! Soft (spherical) lights: a point light whose target is perturbed by the
//! scene's sample vector scaled by the light's radius, giving a penumbra.

use vstd::prelude::*;
use crate::environment::Environment;
use crate::fx::{fxmul, fxdiv};
use crate::fx;
use crate::ray::Ray;
use crate::vector::Vector;
use super::{march_attenuation, spec_occluders, shadow_trace};

verus! {

#[derive(Clone, Copy, Debug, PartialEq, Eq, Structural)]
pub struct SphericLight {
    pub color: Vector,
    pub center: Vector,
    pub radius: i64,
    /// Distance at which the attenuation is 1.
    pub distance_scale: i64,
}

impl SphericLight {
    /// Identical to a point light — the same squared distance falloff —
    /// except that it aims at the center offset by the scene's sample
    /// vector scaled by the radius.
    pub open spec fn spec_shadow(self, p: Vector, env: Environment) -> (Vector, int) {
        let l0 = Vector::spec_add(
            Vector::spec_sub(self.center, p),
            Vector::spec_mul_s(env.jitter, self.radius as int),
        );
        let distance = Vector::spec_length(l0);
        let att0 = fxdiv(self.distance_scale as int, distance);
        let l = Vector::spec_div_s(l0, distance);
        let att = fxmul(att0, att0);
        (
            l,
            march_attenuation(
                spec_occluders(env, Ray { org: p, dir: l }, distance),
                env.threshold as int,
                att,
            ),
        )
    }

    pub fn new(color: Vector, center: Vector, radius: i64, distance_scale: i64) -> (r: SphericLight)
        ensures
            r == (SphericLight { color, center, radius, distance_scale }),
    {
        SphericLight { color, center, radius, distance_scale }
    }

    pub fn shadow(&self, p: &Vector, l: &mut Vector, env: &Environment) -> (r: i64)
        ensures
            ({
                let (lv, a) = self.spec_shadow(*p, *env);
                *final(l) == lv && r as int == a
            }),
    {
        *l = self.center.sub(*p).add(env.random_vector().mul_s(self.radius));

        let distance = l.length();
        let attenuation = fx::fx_div(self.distance_scale, distance);

        *l = l.div_s(distance);

        let attenuation = fx::fx_mul(attenuation, attenuation);

        shadow_trace(p, l, env, distance, attenuation)
    }
}

} // verus!
