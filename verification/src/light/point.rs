//! Point lights: inverse-square distance attenuation, no jitter.

use vstd::prelude::*;
use crate::environment::Environment;
use crate::fx::{fxmul, fxdiv};
use crate::fx;
use crate::ray::Ray;
use crate::vector::Vector;
use super::{march_attenuation, spec_occluders, shadow_trace};

verus! {

#[derive(Clone, Copy, Debug, PartialEq, Eq, Structural)]
pub struct PointLight {
    pub color: Vector,
    pub center: Vector,
    /// Distance at which the attenuation is 1.
    pub distance_scale: i64,
}

impl PointLight {
    /// Direction toward the light and shadow attenuation: the squared
    /// distance falloff times the march through the occluders.
    pub open spec fn spec_shadow(self, p: Vector, env: Environment) -> (Vector, int) {
        let l0 = Vector::spec_sub(self.center, p);
        let distance = Vector::spec_length(l0);
        let att0 = fxdiv(self.distance_scale as int, distance);
        let l = Vector::spec_div_s(l0, distance);
        let att = fxmul(att0, att0);
        (
            l,
            march_attenuation(
                spec_occluders(env, Ray { org: p, dir: l }, distance),
                env.threshold as int,
                att,
            ),
        )
    }

    pub fn new(color: Vector, center: Vector, distance_scale: i64) -> (r: PointLight)
        ensures
            r == (PointLight { color, center, distance_scale }),
    {
        PointLight { color, center, distance_scale }
    }

    pub fn shadow(&self, p: &Vector, l: &mut Vector, env: &Environment) -> (r: i64)
        ensures
            ({
                let (lv, a) = self.spec_shadow(*p, *env);
                *final(l) == lv && r as int == a
            }),
    {
        *l = self.center.sub(*p);

        let distance = l.length();
        let attenuation = fx::fx_div(self.distance_scale, distance);

        *l = l.div_s(distance);

        let attenuation = fx::fx_mul(attenuation, attenuation);

        shadow_trace(p, l, env, distance, attenuation)
    }
}

} // verus!
