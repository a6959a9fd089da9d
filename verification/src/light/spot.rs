//! Spot lights: point-light falloff multiplied by an angular beam term with
//! a linear penumbra ramp between the inner and outer cone.

use vstd::prelude::*;
use crate::environment::Environment;
use crate::fx::{fxmul, fxdiv, fxsub, fxneg, fxpowi, SCALE};
use crate::fx;
use crate::ray::Ray;
use crate::vector::Vector;
use super::{march_attenuation, spec_occluders, shadow_trace};

verus! {

#[derive(Clone, Copy, Debug, PartialEq, Eq, Structural)]
pub struct SpotLight {
    pub color: Vector,
    pub center: Vector,
    pub direction: Vector,
    /// Cosine of the inner (full-intensity) cone angle.
    pub cone_angle: i64,
    /// Cosine of the outer cone angle, beyond which the light is dark.
    pub end_cone_angle: i64,
    /// Beam-distribution exponent.
    pub beam_distribution: i32,
    /// Distance at which the attenuation is 1.
    pub distance_scale: i64,
}

impl SpotLight {
    /// Point-light falloff times the beam term `ld^e` and the penumbra ramp;
    /// 0 outside the outer cone.
    pub open spec fn spec_shadow(self, p: Vector, env: Environment) -> (Vector, int) {
        let l0 = Vector::spec_sub(self.center, p);
        let distance = Vector::spec_length(l0);
        let att0 = fxdiv(self.distance_scale as int, distance);
        let l = Vector::spec_div_s(l0, distance);
        let ld = fxneg(Vector::spec_dot(self.direction, l));
        if ld < self.end_cone_angle {
            (l, 0)
        } else {
            let f1 = fxpowi(ld, self.beam_distribution as int);
            let f2 = if ld > self.cone_angle {
                SCALE as int
            } else {
                fxdiv(
                    fxsub(ld, self.end_cone_angle as int),
                    fxsub(self.cone_angle as int, self.end_cone_angle as int),
                )
            };
            let att = fxmul(att0, fxmul(fxmul(att0, f1), f2));
            (
                l,
                march_attenuation(
                    spec_occluders(env, Ray { org: p, dir: l }, distance),
                    env.threshold as int,
                    att,
                ),
            )
        }
    }

    pub fn new(
        color: Vector,
        center: Vector,
        direction: Vector,
        cone_angle: i64,
        end_cone_angle: i64,
        beam_distribution: i32,
        distance_scale: i64,
    ) -> (r: SpotLight)
        ensures
            r == (SpotLight {
                color,
                center,
                direction,
                cone_angle,
                end_cone_angle,
                beam_distribution,
                distance_scale,
            }),
    {
        SpotLight {
            color,
            center,
            direction,
            cone_angle,
            end_cone_angle,
            beam_distribution,
            distance_scale,
        }
    }

    pub fn shadow(&self, p: &Vector, l: &mut Vector, env: &Environment) -> (r: i64)
        ensures
            ({
                let (lv, a) = self.spec_shadow(*p, *env);
                *final(l) == lv && r as int == a
            }),
    {
        *l = self.center.sub(*p);

        let distance = l.length();
        let attenuation = fx::fx_div(self.distance_scale, distance);

        *l = l.div_s(distance);

        let ld = fx::fx_neg(self.direction.dot(*l));

        if ld < self.end_cone_angle {
            return 0;
        }

        let f1 = fx::fx_powi(ld, self.beam_distribution);
        let f2 = if ld > self.cone_angle {
            SCALE
        } else {
            fx::fx_div(
                fx::fx_sub(ld, self.end_cone_angle),
                fx::fx_sub(self.cone_angle, self.end_cone_angle),
            )
        };

        let attenuation = fx::fx_mul(attenuation, fx::fx_mul(fx::fx_mul(attenuation, f1), f2));

        shadow_trace(p, l, env, distance, attenuation)
    }
}

} // verus!
