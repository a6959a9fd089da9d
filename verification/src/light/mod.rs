//! Light sources, and the shadow-march algorithm they share: a shadow ray
//! is walked through successive transparent occluders, multiplying their
//! transmissive coefficients into a running attenuation.

use vstd::prelude::*;

pub mod point;
pub mod spheric;
pub mod spot;

pub use self::point::PointLight;
pub use self::spheric::SphericLight;
pub use self::spot::SpotLight;

use crate::environment::Environment;
use crate::fx;
use crate::fx::fxmul;
use crate::ray::Ray;
use crate::vector::Vector;

verus! {

/// What the shadow march makes of a sequence of occluder transmissive
/// coefficients: an occluder below the threshold (opaque) ends the march at
/// exactly 0; otherwise the coefficient multiplies into the attenuation,
/// which also ends the march at 0 once it falls below the threshold.
pub open spec fn march_attenuation(kts: Seq<i64>, threshold: int, a: int) -> int
    decreases kts.len(),
{
    if kts.len() == 0 {
        a
    } else if kts[0] < threshold {
        0
    } else if fxmul(a, kts[0] as int) < threshold {
        0
    } else {
        march_attenuation(kts.drop_first(), threshold, fxmul(a, kts[0] as int))
    }
}

/// The transmissive coefficients of the successive occluders a shadow ray
/// meets strictly before the remaining distance runs out, each evaluated at
/// its hit point, the ray origin advancing to each hit in turn.
pub open spec fn spec_occluders(env: Environment, ray: Ray, distance: int) -> Seq<i64>
    decreases distance,
{
    match env.spec_intersect(ray) {
        None => Seq::empty(),
        Some((i, t)) => if distance <= t {
            Seq::empty()
        } else if t <= 0 {
            // Hit distances are always positive (`lemma_intersect_sound`);
            // the branch only keeps the recursion visibly well-founded.
            Seq::empty()
        } else {
            let org2 = ray.spec_point(t as int);
            seq![env.solids@[i as int].spec_find_texture(org2).k_t] + spec_occluders(
                env,
                Ray { org: org2, dir: ray.dir },
                distance - t,
            )
        },
    }
}

/// One unfolding step of the march over a cons'd coefficient sequence.
proof fn lemma_march_cons(kt: i64, rest: Seq<i64>, threshold: int, a: int)
    ensures
        march_attenuation(seq![kt] + rest, threshold, a) == (if kt < threshold {
            0
        } else if fxmul(a, kt as int) < threshold {
            0
        } else {
            march_attenuation(rest, threshold, fxmul(a, kt as int))
        }),
{
    assert((seq![kt] + rest).drop_first() =~= rest);
    assert((seq![kt] + rest)[0] == kt);
}

/// Walks the shadow ray from `p` along `l` through the scene, consuming at
/// most `distance`, starting from the given attenuation.
pub fn shadow_trace(p: &Vector, l: &Vector, env: &Environment, distance: i64, attenuation: i64) -> (r: i64)
    ensures
        r as int == march_attenuation(
            spec_occluders(*env, Ray { org: *p, dir: *l }, distance as int),
            env.threshold as int,
            attenuation as int,
        ),
{
    let mut ray = Ray::new(*p, *l);
    let mut dist = distance;
    let mut att = attenuation;
    let threshold = env.threshold();

    loop
        invariant
            threshold == env.threshold,
            march_attenuation(
                spec_occluders(*env, ray, dist as int),
                threshold as int,
                att as int,
            ) == march_attenuation(
                spec_occluders(*env, Ray { org: *p, dir: *l }, distance as int),
                env.threshold as int,
                attenuation as int,
            ),
        decreases dist,
    {
        match env.intersect(&ray) {
            None => {
                return att;
            },
            Some((idx, t)) => {
                if dist <= t {
                    return att;
                }
                proof {
                    crate::environment::lemma_intersect_sound(*env, ray);
                }
                let org2 = ray.point(t);
                let ghost prev_ray = ray;
                let ghost prev_dist = dist;
                ray = Ray { org: org2, dir: ray.dir };
                let texture = self_texture(env, idx, &org2);
                proof {
                    lemma_march_cons(
                        texture.k_t,
                        spec_occluders(*env, ray, prev_dist - t),
                        threshold as int,
                        att as int,
                    );
                    assert(spec_occluders(*env, prev_ray, prev_dist as int) == seq![texture.k_t]
                        + spec_occluders(*env, ray, prev_dist - t));
                }
                if texture.k_t < threshold {
                    return 0;
                }
                att = fx::fx_mul(att, texture.k_t);
                if att < threshold {
                    return 0;
                }
                dist = fx::fx_sub(dist, t);
            },
        }
    }
}

/// The occluder's material at the hit point.
fn self_texture(env: &Environment, idx: usize, p: &Vector) -> (r: crate::surface::Surface)
    requires
        idx < env.solids@.len(),
    ensures
        r == env.solids@[idx as int].spec_find_texture(*p),
{
    env.solids[idx].find_texture(p)
}

/// A light source: a closed set of variants sharing color and shadow
/// attenuation queries.
#[derive(Clone, Copy, Debug, PartialEq, Eq, Structural)]
pub enum Light {
    Point(PointLight),
    Spheric(SphericLight),
    Spot(SpotLight),
}

impl Light {
    pub open spec fn spec_color(self) -> Vector {
        match self {
            Light::Point(l) => l.color,
            Light::Spheric(l) => l.color,
            Light::Spot(l) => l.color,
        }
    }

    /// The direction toward the light and the shadow attenuation from `p`.
    pub open spec fn spec_shadow(self, p: Vector, env: Environment) -> (Vector, int) {
        match self {
            Light::Point(l) => l.spec_shadow(p, env),
            Light::Spheric(l) => l.spec_shadow(p, env),
            Light::Spot(l) => l.spec_shadow(p, env),
        }
    }

    pub fn color(&self) -> (r: &Vector)
        ensures
            *r == self.spec_color(),
    {
        match self {
            Light::Point(l) => &l.color,
            Light::Spheric(l) => &l.color,
            Light::Spot(l) => &l.color,
        }
    }

    /// Writes the unit direction toward the light into `l` and returns the
    /// shadow attenuation.
    pub fn shadow(&self, p: &Vector, l: &mut Vector, env: &Environment) -> (r: i64)
        ensures
            ({
                let (lv, a) = self.spec_shadow(*p, *env);
                *final(l) == lv && r as int == a
            }),
    {
        match self {
            Light::Point(light) => light.shadow(p, l, env),
            Light::Spheric(light) => light.shadow(p, l, env),
            Light::Spot(light) => light.shadow(p, l, env),
        }
    }
}

/// Shadow attenuation is monotone: lowering any occluder's transmissive
/// coefficient (or the starting attenuation) can only lower the outcome,
/// which also stays non-negative.
pub proof fn lemma_march_monotone(k1: Seq<i64>, k2: Seq<i64>, threshold: int, a1: int, a2: int)
    requires
        threshold >= 0,
        k1.len() == k2.len(),
        forall|i: int| 0 <= i < k1.len() ==> 0 <= #[trigger] k2[i] <= k1[i],
        0 <= a2 <= a1,
    ensures
        0 <= march_attenuation(k2, threshold, a2) <= march_attenuation(k1, threshold, a1),
    decreases k1.len(),
{
    if k1.len() == 0 {
    } else {
        assert(0 <= k2[0] <= k1[0]);
        fx::lemma_fxmul_monotone(a1, k1[0] as int, a2, k2[0] as int);
        let b1 = fxmul(a1, k1[0] as int);
        let b2 = fxmul(a2, k2[0] as int);
        assert(forall|i: int|
            0 <= i < k1.drop_first().len() ==> 0 <= #[trigger] k2.drop_first()[i]
                <= k1.drop_first()[i]);
        if k2[0] < threshold || b2 < threshold {
            if !(k1[0] < threshold) && !(b1 < threshold) {
                assert forall|i: int| 0 <= i < k1.drop_first().len() implies 0 <= #[trigger] k1
                    .drop_first()[i] <= k1.drop_first()[i] by {
                    assert(0 <= k2[i + 1] <= k1[i + 1]);
                }
                lemma_march_monotone(k1.drop_first(), k1.drop_first(), threshold, b1, b1);
            }
        } else {
            lemma_march_monotone(k1.drop_first(), k2.drop_first(), threshold, b1, b2);
        }
    }
}

/// In scenes whose solids agree in shape, a shadow ray meets the same
/// occluders at the same distances, so the coefficient sequences it collects
/// have equal length and compare pointwise as the materials do.
pub proof fn lemma_occluders_pointwise(env1: Environment, env2: Environment, ray: Ray, distance: int)
    requires
        env1.solids@.len() == env2.solids@.len(),
        forall|j: int|
            0 <= j < env1.solids@.len() ==> crate::geometry::Solid::same_shape(
                #[trigger] env1.solids@[j],
                env2.solids@[j],
            ),
        forall|j: int|
            0 <= j < env1.solids@.len() ==> 0 <= (#[trigger] env2.solids@[j]).spec_material().k_t
                <= env1.solids@[j].spec_material().k_t,
    ensures
        ({
            let k1 = spec_occluders(env1, ray, distance);
            let k2 = spec_occluders(env2, ray, distance);
            k1.len() == k2.len() && forall|i: int| 0 <= i < k1.len() ==> 0 <= #[trigger] k2[i]
                <= k1[i]
        }),
    decreases distance,
{
    crate::environment::lemma_nearest_same_shape(env1.solids@, env2.solids@, ray, 0, None, crate::fx::INFINITY);
    assert(env1.spec_intersect(ray) == env2.spec_intersect(ray));
    match env1.spec_intersect(ray) {
        None => {},
        Some((i, t)) => {
            if distance <= t || t <= 0 {
            } else {
                crate::environment::lemma_intersect_sound(env1, ray);
                let org2 = ray.spec_point(t as int);
                let tail_ray = Ray { org: org2, dir: ray.dir };
                lemma_occluders_pointwise(env1, env2, tail_ray, distance - t);
                let h1 = env1.solids@[i as int].spec_find_texture(org2).k_t;
                let h2 = env2.solids@[i as int].spec_find_texture(org2).k_t;
                assert(0 <= h2 <= h1);
                let r1 = spec_occluders(env1, tail_ray, distance - t);
                let r2 = spec_occluders(env2, tail_ray, distance - t);
                let k1 = spec_occluders(env1, ray, distance);
                let k2 = spec_occluders(env2, ray, distance);
                assert(k1 == seq![h1] + r1);
                assert(k2 == seq![h2] + r2);
                assert forall|m: int| 0 <= m < k1.len() implies 0 <= #[trigger] k2[m] <= k1[m] by {
                    if m == 0 {
                        assert(k2[0] == h2 && k1[0] == h1);
                    } else {
                        assert(k2[m] == r2[m - 1] && k1[m] == r1[m - 1]);
                        assert(0 <= r2[m - 1] <= r1[m - 1]);
                    }
                }
            }
        },
    }
}

/// Shadow attenuation is monotone in the occluders' transmissive
/// coefficients: in two scenes whose solids agree in shape, with the
/// second scene's coefficients pointwise no higher, a shadow march from the
/// same start can only attenuate at least as much, and never below 0.
pub proof fn lemma_shadow_monotone_in_transmission(
    env1: Environment,
    env2: Environment,
    ray: Ray,
    distance: int,
    attenuation: int,
)
    requires
        env1.solids@.len() == env2.solids@.len(),
        forall|j: int|
            0 <= j < env1.solids@.len() ==> crate::geometry::Solid::same_shape(
                #[trigger] env1.solids@[j],
                env2.solids@[j],
            ),
        forall|j: int|
            0 <= j < env1.solids@.len() ==> 0 <= (#[trigger] env2.solids@[j]).spec_material().k_t
                <= env1.solids@[j].spec_material().k_t,
        env1.threshold == env2.threshold,
        env1.threshold >= 0,
        attenuation >= 0,
    ensures
        0 <= march_attenuation(
            spec_occluders(env2, ray, distance),
            env2.threshold as int,
            attenuation,
        ) <= march_attenuation(
            spec_occluders(env1, ray, distance),
            env1.threshold as int,
            attenuation,
        ),
{
    lemma_occluders_pointwise(env1, env2, ray, distance);
    lemma_march_monotone(
        spec_occluders(env1, ray, distance),
        spec_occluders(env2, ray, distance),
        env1.threshold as int,
        attenuation,
        attenuation,
    );
}

/// The full property at the light interface, for a point light: its shadow
/// attenuation toward any point is monotonically non-increasing as any
/// occluder's transmissive coefficient decreases, and never negative.
pub proof fn lemma_point_shadow_monotone_in_transmission(
    light: PointLight,
    p: Vector,
    env1: Environment,
    env2: Environment,
)
    requires
        env1.solids@.len() == env2.solids@.len(),
        forall|j: int|
            0 <= j < env1.solids@.len() ==> crate::geometry::Solid::same_shape(
                #[trigger] env1.solids@[j],
                env2.solids@[j],
            ),
        forall|j: int|
            0 <= j < env1.solids@.len() ==> 0 <= (#[trigger] env2.solids@[j]).spec_material().k_t
                <= env1.solids@[j].spec_material().k_t,
        env1.threshold == env2.threshold,
        env1.threshold >= 0,
    ensures
        0 <= light.spec_shadow(p, env2).1 <= light.spec_shadow(p, env1).1,
{
    let l0 = Vector::spec_sub(light.center, p);
    let distance = Vector::spec_length(l0);
    let att0 = crate::fx::fxdiv(light.distance_scale as int, distance);
    fx::lemma_fxmul_square_nonneg(att0);
    let l = Vector::spec_div_s(l0, distance);
    lemma_shadow_monotone_in_transmission(
        env1,
        env2,
        Ray { org: p, dir: l },
        distance,
        fxmul(att0, att0),
    );
}

/// Once any occluder on the march is opaque (its coefficient below the
/// threshold), the attenuation is exactly 0.
pub proof fn lemma_march_opaque(kts: Seq<i64>, threshold: int, a: int, witness: int)
    requires
        0 <= witness < kts.len(),
        kts[witness] < threshold,
    ensures
        march_attenuation(kts, threshold, a) == 0,
    decreases kts.len(),
{
    if kts[0] < threshold {
    } else if fxmul(a, kts[0] as int) < threshold {
    } else {
        lemma_march_opaque(kts.drop_first(), threshold, fxmul(a, kts[0] as int), witness - 1);
    }
}

} // verus!
