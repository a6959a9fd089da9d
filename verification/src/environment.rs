//! The scene: primitives, lights, the camera basis and global constants,
//! plus the nearest-intersection query and the recursive tracer.

use vstd::prelude::*;
use crate::fx;
use crate::fx::{fxadd, fxsub, fxneg, fxmul, fxdiv, fxsqrt, INFINITY, SCALE};
use crate::geometry::Solid;
use crate::light::Light;
use crate::mediums::Medium;
use crate::ray::Ray;
use crate::surface::Surface;
use crate::vector::Vector;

verus! {

/// Global ambient intensity: full white.
pub open spec fn spec_ambient_color() -> Vector {
    Vector { x: SCALE as i64, y: SCALE as i64, z: SCALE as i64 }
}

/// The background color constant (0, 0.05, 0.05).
pub open spec fn spec_background_color() -> Vector {
    Vector { x: 0, y: 838860, z: 838860 }
}

/// Clamp of an integer to non-negative, for termination measures.
pub open spec fn pos0(x: int) -> int {
    if x > 0 {
        x
    } else {
        0
    }
}

pub struct Environment {
    pub lights: Vec<Light>,
    pub solids: Vec<Solid>,

    /// Eye point.
    pub eye: Vector,
    /// Viewing direction.
    pub eye_dir: Vector,
    /// First image-plane axis.
    pub v_x: Vector,
    /// Second image-plane axis.
    pub v_y: Vector,
    pub background: Vector,
    pub max_level: u32,
    pub threshold: i64,
    /// Deterministic stand-in for a random unit-vector source, read by soft
    /// lights.
    pub jitter: Vector,
}

impl Environment {
    /// The linear scan for the nearest hit: folds the solids from index `i`
    /// upward, keeping the strictly closest hit seen so far.
    pub open spec fn spec_nearest_from(
        solids: Seq<Solid>,
        ray: Ray,
        i: int,
        best: Option<usize>,
        best_distance: i64,
    ) -> (Option<usize>, i64)
        decreases solids.len() - i,
    {
        if i < 0 || i >= solids.len() {
            (best, best_distance)
        } else {
            match solids[i].spec_intersect(ray) {
                Some(t) => if t < best_distance {
                    Environment::spec_nearest_from(solids, ray, i + 1, Some(i as usize), t)
                } else {
                    Environment::spec_nearest_from(solids, ray, i + 1, best, best_distance)
                },
                None => Environment::spec_nearest_from(solids, ray, i + 1, best, best_distance),
            }
        }
    }

    /// The nearest-intersection query: the first solid attaining the least
    /// hit distance below `INFINITY`, with that distance.
    pub open spec fn spec_intersect(self, ray: Ray) -> Option<(usize, i64)> {
        let (best, best_distance) = Environment::spec_nearest_from(
            self.solids@,
            ray,
            0,
            None,
            INFINITY,
        );
        match best {
            Some(i) => Some((i, best_distance)),
            None => None,
        }
    }

    /// A camera ray: the eye point, looking along the viewing direction
    /// offset by the two image-plane axes.
    pub open spec fn spec_camera(self, x: int, y: int) -> Ray {
        Ray {
            org: self.eye,
            dir: Vector::spec_normalize(
                Vector::spec_add(
                    Vector::spec_add(self.eye_dir, Vector::spec_mul_s(self.v_x, x)),
                    Vector::spec_mul_s(self.v_y, y),
                ),
            ),
        }
    }

    /// An empty scene with the default camera basis, background, recursion
    /// limit and numeric threshold.
    pub fn new() -> (r: Environment)
        ensures
            r.lights@ =~= Seq::<Light>::empty(),
            r.solids@ =~= Seq::<Solid>::empty(),
            r.eye == (Vector { x: 0, y: 0, z: 0 }),
            r.eye_dir == (Vector { x: 0, y: 0, z: SCALE as i64 }),
            r.v_x == (Vector { x: SCALE as i64, y: 0, z: 0 }),
            r.v_y == (Vector { x: 0, y: SCALE as i64, z: 0 }),
            r.background == spec_background_color(),
            r.max_level == 10,
            r.threshold == 167772,
            r.jitter == (Vector { x: 0, y: 0, z: 0 }),
    {
        Environment {
            lights: Vec::new(),
            solids: Vec::new(),
            eye: Vector::from_scalar(0),
            eye_dir: Vector::from_xyz(0, 0, SCALE),
            v_x: Vector::from_xyz(SCALE, 0, 0),
            v_y: Vector::from_xyz(0, SCALE, 0),
            background: Vector::from_xyz(0, 838860, 838860),
            max_level: 10,
            threshold: 167772,
            jitter: Vector::from_scalar(0),
        }
    }

    /// The numeric threshold below which coefficients are treated as zero.
    pub fn threshold(&self) -> (r: i64)
        ensures
            r == self.threshold,
    {
        self.threshold
    }

    pub fn add_solid(&mut self, solid: Solid)
        ensures
            final(self).solids@ == old(self).solids@.push(solid),
            final(self).lights == old(self).lights,
            final(self).eye == old(self).eye,
            final(self).eye_dir == old(self).eye_dir,
            final(self).v_x == old(self).v_x,
            final(self).v_y == old(self).v_y,
            final(self).background == old(self).background,
            final(self).max_level == old(self).max_level,
            final(self).threshold == old(self).threshold,
            final(self).jitter == old(self).jitter,
    {
        self.solids.push(solid);
    }

    pub fn add_light(&mut self, light: Light)
        ensures
            final(self).lights@ == old(self).lights@.push(light),
            final(self).solids == old(self).solids,
            final(self).eye == old(self).eye,
            final(self).eye_dir == old(self).eye_dir,
            final(self).v_x == old(self).v_x,
            final(self).v_y == old(self).v_y,
            final(self).background == old(self).background,
            final(self).max_level == old(self).max_level,
            final(self).threshold == old(self).threshold,
            final(self).jitter == old(self).jitter,
    {
        self.lights.push(light);
    }

    /// The deterministic sample read by soft lights in place of a random
    /// unit vector.
    pub fn random_vector(&self) -> (r: Vector)
        ensures
            r == self.jitter,
    {
        self.jitter
    }

    pub fn set_random_vector(&mut self, v: Vector)
        ensures
            final(self).jitter == v,
            final(self).lights == old(self).lights,
            final(self).solids == old(self).solids,
            final(self).eye == old(self).eye,
            final(self).eye_dir == old(self).eye_dir,
            final(self).v_x == old(self).v_x,
            final(self).v_y == old(self).v_y,
            final(self).background == old(self).background,
            final(self).max_level == old(self).max_level,
            final(self).threshold == old(self).threshold,
    {
        self.jitter = v;
    }

    /// Scans all solids and returns the index and distance of the
    /// geometrically nearest hit closer than `INFINITY`.
    pub fn intersect(&self, ray: &Ray) -> (r: Option<(usize, i64)>)
        ensures
            r == self.spec_intersect(*ray),
    {
        let mut closest_object: Option<usize> = None;
        let mut closest_distance: i64 = INFINITY;
        let n = self.solids.len();
        let mut k: usize = 0;
        while k < n
            invariant
                n == self.solids@.len(),
                k <= n,
                Environment::spec_nearest_from(self.solids@, *ray, 0, None, INFINITY)
                    == Environment::spec_nearest_from(
                    self.solids@,
                    *ray,
                    k as int,
                    closest_object,
                    closest_distance,
                ),
            decreases n - k,
        {
            match self.solids[k].intersect(ray) {
                Some(t) => {
                    if t < closest_distance {
                        closest_distance = t;
                        closest_object = Some(k);
                    }
                },
                None => {},
            }
            k = k + 1;
        }
        match closest_object {
            Some(i) => Some((i, closest_distance)),
            None => None,
        }
    }

    /// Builds the camera basis from an eye point, a viewing direction and an
    /// up hint: the image-plane axes are `up x dir` and `dir x axis1`, both
    /// normalized.
    pub fn set_camera(&mut self, org: &Vector, dir: &Vector, up_dir: &Vector)
        ensures
            final(self).eye == *org,
            final(self).eye_dir == *dir,
            final(self).v_x == Vector::spec_normalize(Vector::spec_cross(*up_dir, *dir)),
            final(self).v_y == Vector::spec_normalize(
                Vector::spec_cross(*dir, Vector::spec_normalize(Vector::spec_cross(*up_dir, *dir))),
            ),
            final(self).lights == old(self).lights,
            final(self).solids == old(self).solids,
            final(self).background == old(self).background,
            final(self).max_level == old(self).max_level,
            final(self).threshold == old(self).threshold,
            final(self).jitter == old(self).jitter,
    {
        self.eye = *org;
        self.eye_dir = *dir;
        self.v_x = up_dir.cross(*dir).normalize();
        self.v_y = dir.cross(self.v_x).normalize();
    }

    /// The primary ray through image-plane offsets (x, y).
    pub fn camera(&self, x: i64, y: i64) -> (r: Ray)
        ensures
            r == self.spec_camera(x as int, y as int),
    {
        Ray {
            org: self.eye,
            dir: self.eye_dir.add(self.v_x.mul_s(x)).add(self.v_y.mul_s(y)).normalize(),
        }
    }
}

/// Per-primary-ray ephemeral state, discarded when the trace ends.
pub struct TraceState {
    /// Total rays cast under the current primary ray (diagnostic).
    pub total_rays: u32,
}

impl Environment {
    /// One recursion step of the tracer: find the nearest surface and shade
    /// it, or fall back to the background color.
    pub open spec fn spec_trace(self, level: int, medium: Medium, weight: i64, ray: Ray) -> Vector
        decreases 2 * pos0(self.max_level - level) + 1,
    {
        match self.spec_intersect(ray) {
            Some((i, t)) => self.spec_shade(
                level + 1,
                medium,
                weight,
                ray.spec_point(t as int),
                ray.dir,
                i as int,
            ),
            None => self.background,
        }
    }

    /// The contribution of the lights from index `i` on, folded onto `acc`:
    /// for each visible light, a diffuse term and a Phong specular term,
    /// both weighted by the shadow attenuation.
    pub open spec fn spec_lights_contrib(
        self,
        i: int,
        p: Vector,
        view: Vector,
        texture: Surface,
        acc: Vector,
    ) -> Vector
        decreases self.lights@.len() - i,
    {
        if i < 0 || i >= self.lights@.len() {
            acc
        } else {
            let (l, shadow) = self.lights@[i].spec_shadow(p, self);
            let acc2 = if shadow > self.threshold {
                let ln = Vector::spec_dot(l, texture.n);
                if ln > self.threshold {
                    let acc_d = if texture.k_d > self.threshold {
                        Vector::spec_add(
                            acc,
                            Vector::spec_mul_s(
                                Vector::spec_mul(self.lights@[i].spec_color(), texture.color),
                                fxmul(fxmul(texture.k_d as int, shadow), ln),
                            ),
                        )
                    } else {
                        acc
                    };
                    if texture.k_s > self.threshold {
                        let h = Vector::spec_normalize(Vector::spec_sub(l, view));
                        Vector::spec_add(
                            acc_d,
                            Vector::spec_mul_s(
                                self.lights@[i].spec_color(),
                                fxmul(
                                    fxmul(texture.k_s as int, shadow),
                                    crate::fx::fxpowi(
                                        Vector::spec_dot(texture.n, h),
                                        texture.p as int,
                                    ),
                                ),
                            ),
                        )
                    } else {
                        acc_d
                    }
                } else {
                    acc
                }
            } else {
                acc
            };
            self.spec_lights_contrib(i + 1, p, view, texture, acc2)
        }
    }

    /// Shading at a hit point: ambient term, per-light local illumination,
    /// then (below the recursion limit) a reflected and a refracted ray.
    /// Note: the ambient term and the refracted contribution are both scaled
    /// by the reflective coefficient `k_r` (not `k_a` / `k_t`); this quirk is
    /// part of the renderer's defined behavior.
    pub open spec fn spec_shade(
        self,
        level: int,
        medium: Medium,
        weight: i64,
        p: Vector,
        view: Vector,
        idx: int,
    ) -> Vector
        decreases 2 * pos0(self.max_level + 1 - level),
    {
        let texture0 = self.solids@[idx].spec_find_texture(p);
        let vn0 = Vector::spec_dot(view, texture0.n);
        let entering = !(vn0 > 0);
        let n = if vn0 > 0 {
            Vector::spec_neg(texture0.n)
        } else {
            texture0.n
        };
        let vn = if vn0 > 0 {
            fxneg(vn0)
        } else {
            vn0
        };
        let texture = Surface { n: n, ..texture0 };
        let color0 = Vector::spec_mul_s(
            Vector::spec_mul(spec_ambient_color(), texture.color),
            texture.k_r as int,
        );
        let color1 = self.spec_lights_contrib(0, p, view, texture, color0);
        if level >= self.max_level {
            color1
        } else {
            let r_weight = fxmul(weight as int, texture.k_r as int);
            let color2 = if r_weight > self.threshold {
                let rdir = Vector::spec_sub(
                    view,
                    Vector::spec_mul_s(texture.n, fxmul(2 * SCALE, vn)),
                );
                let rcol = self.spec_trace(
                    level,
                    medium,
                    r_weight as i64,
                    Ray { org: p, dir: rdir },
                );
                Vector::spec_add(color1, Vector::spec_mul_s(rcol, texture.k_r as int))
            } else {
                color1
            };
            let t_weight = fxmul(weight as int, texture.k_t as int);
            if t_weight > self.threshold {
                let eta = fxdiv(
                    medium.n_refr as int,
                    if entering {
                        texture.medium.n_refr as int
                    } else {
                        SCALE as int
                    },
                );
                let ci = fxneg(vn);
                let ct_square = fxadd(
                    SCALE as int,
                    fxmul(fxmul(eta, eta), fxsub(fxmul(ci, ci), SCALE as int)),
                );
                if ct_square > self.threshold {
                    let tdir = Vector::spec_add(
                        Vector::spec_mul_s(view, eta),
                        Vector::spec_mul_s(texture.n, fxsub(fxmul(eta, ci), fxsqrt(ct_square))),
                    );
                    let medium2 = if entering {
                        texture.medium
                    } else {
                        Medium { n_refr: SCALE as i64, betta: 0 }
                    };
                    let tcol = self.spec_trace(
                        level,
                        medium2,
                        t_weight as i64,
                        Ray { org: p, dir: tdir },
                    );
                    Vector::spec_add(color2, Vector::spec_mul_s(tcol, texture.k_r as int))
                } else {
                    color2
                }
            } else {
                color2
            }
        }
    }

    /// Traces a primary ray: recursive Whitted-style light transport with a
    /// fresh per-ray state.
    pub fn trace(&self, current_medium: &Medium, weight: i64, ray: &Ray) -> (r: Vector)
        ensures
            r == self.spec_trace(0, *current_medium, weight, *ray),
    {
        let mut state = TraceState { total_rays: 0 };
        self.trace_state(&mut state, 0, current_medium, weight, ray)
    }

    fn trace_state(
        &self,
        state: &mut TraceState,
        level: u32,
        current_medium: &Medium,
        weight: i64,
        ray: &Ray,
    ) -> (r: Vector)
        requires
            level < u32::MAX,
            level <= self.max_level,
        ensures
            r == self.spec_trace(level as int, *current_medium, weight, *ray),
            final(state).total_rays >= old(state).total_rays,
        decreases 2 * pos0(self.max_level - level) + 1,
    {
        if state.total_rays < u32::MAX {
            state.total_rays = state.total_rays + 1;
        }

        match self.intersect(ray) {
            Some((i, t)) => {
                proof {
                    lemma_intersect_sound(*self, *ray);
                }
                self.shade(state, level + 1, current_medium, weight, ray.point(t), ray.dir, i)
            },
            None => self.background,
        }
    }

    fn shade(
        &self,
        state: &mut TraceState,
        level: u32,
        current_medium: &Medium,
        weight: i64,
        p: Vector,
        view: Vector,
        idx: usize,
    ) -> (r: Vector)
        requires
            idx < self.solids@.len(),
        ensures
            r == self.spec_shade(level as int, *current_medium, weight, p, view, idx as int),
            final(state).total_rays >= old(state).total_rays,
        decreases 2 * pos0(self.max_level + 1 - level),
    {
        let mut entering = true;

        let mut texture = self.solids[idx].find_texture(&p);

        let mut vn = view.dot(texture.n);
        if vn > 0 {
            texture.n = texture.n.neg();
            vn = fx::fx_neg(vn);
            entering = false;
        }

        let mut color = Vector::from_xyz(SCALE, SCALE, SCALE).mul(texture.color).mul_s(
            texture.k_r,
        );

        let ghost color0 = color;
        let n_lights = self.lights.len();
        let mut k: usize = 0;
        while k < n_lights
            invariant
                n_lights == self.lights@.len(),
                k <= n_lights,
                self.spec_lights_contrib(k as int, p, view, texture, color)
                    == self.spec_lights_contrib(0, p, view, texture, color0),
            decreases n_lights - k,
        {
            let mut l = Vector::from_scalar(0);
            let shadow = self.lights[k].shadow(&p, &mut l, self);
            if shadow > self.threshold {
                let ln = l.dot(texture.n);
                if ln > self.threshold {
                    if texture.k_d > self.threshold {
                        color.add_assign(
                            self.lights[k].color().mul(texture.color).mul_s(
                                fx::fx_mul(fx::fx_mul(texture.k_d, shadow), ln),
                            ),
                        );
                    }
                    if texture.k_s > self.threshold {
                        let h = l.sub(view).normalize();
                        color.add_assign(
                            self.lights[k].color().mul_s(
                                fx::fx_mul(
                                    fx::fx_mul(texture.k_s, shadow),
                                    fx::fx_powi(texture.n.dot(h), texture.p),
                                ),
                            ),
                        );
                    }
                }
            }
            k = k + 1;
        }

        if level >= self.max_level {
            return color;
        }

        let r_weight = fx::fx_mul(weight, texture.k_r);
        if r_weight > self.threshold {
            let rdir = view.sub(texture.n.mul_s(fx::fx_mul(2 * SCALE, vn)));
            let ray2 = Ray::new(p, rdir);
            let rcol = self.trace_state(state, level, current_medium, r_weight, &ray2);
            color.add_assign(rcol.mul_s(texture.k_r));
        }

        let t_weight = fx::fx_mul(weight, texture.k_t);
        if t_weight > self.threshold {
            let eta = fx::fx_div(
                current_medium.n_refr,
                if entering {
                    texture.medium.n_refr
                } else {
                    SCALE
                },
            );
            let ci = fx::fx_neg(vn);
            let ct_square = fx::fx_add(
                SCALE,
                fx::fx_mul(fx::fx_mul(eta, eta), fx::fx_sub(fx::fx_mul(ci, ci), SCALE)),
            );

            if ct_square > self.threshold {
                let tdir = view.mul_s(eta).add(
                    texture.n.mul_s(fx::fx_sub(fx::fx_mul(eta, ci), fx::fx_sqrt(ct_square))),
                );
                let medium2 = if entering {
                    texture.medium
                } else {
                    Medium { n_refr: SCALE, betta: 0 }
                };
                let ray2 = Ray::new(p, tdir);
                let tcol = self.trace_state(state, level, &medium2, t_weight, &ray2);
                color.add_assign(tcol.mul_s(texture.k_r));
            }
        }
        color
    }
}

/// Every hit distance a solid reports clears the self-intersection guard.
pub proof fn lemma_solid_hit_above_threshold(s: Solid, ray: Ray)
    ensures
        s.spec_intersect(ray) is Some ==> s.spec_intersect(ray)->0
            >= crate::geometry::GEOMETRY_THRESHOLD,
{
    reveal(Solid::spec_intersect);
}

/// What a `Some` answer of the nearest-intersection query implies: a valid
/// index, a distance below `INFINITY` that the indexed solid reports, above
/// the guard, and no solid anywhere reports a smaller one.
#[verifier::rlimit(100)]
#[verifier::spinoff_prover]
pub proof fn lemma_nearest_from_sound(
    solids: Seq<Solid>,
    ray: Ray,
    i: int,
    best: Option<usize>,
    best_distance: i64,
)
    requires
        solids.len() <= usize::MAX,
        0 <= i <= solids.len(),
        best is Some ==> (best->0 < i && solids[best->0 as int].spec_intersect(ray)
            == Some(best_distance) && best_distance < INFINITY),
        best is None ==> best_distance == INFINITY,
        forall|j: int|
            0 <= j < i && solids[j].spec_intersect(ray) is Some
                ==> (#[trigger] solids[j].spec_intersect(ray))->0 >= best_distance,
    ensures
        ({
            let (b, d) = Environment::spec_nearest_from(solids, ray, i, best, best_distance);
            &&& b is Some ==> (b->0 < solids.len() && solids[b->0 as int].spec_intersect(ray)
                == Some(d) && d < INFINITY)
            &&& b is None ==> d == INFINITY
            &&& forall|j: int|
                0 <= j < solids.len() && solids[j].spec_intersect(ray) is Some
                    ==> (#[trigger] solids[j].spec_intersect(ray))->0 >= d
        }),
    decreases solids.len() - i,
{
    if i < solids.len() {
        match solids[i].spec_intersect(ray) {
            Some(t) => {
                if t < best_distance {
                    lemma_nearest_from_sound(solids, ray, i + 1, Some(i as usize), t);
                } else {
                    lemma_nearest_from_sound(solids, ray, i + 1, best, best_distance);
                }
            },
            None => {
                lemma_nearest_from_sound(solids, ray, i + 1, best, best_distance);
            },
        }
    }
}

/// The nearest-intersection query returns a hit of one of its solids, below
/// `INFINITY` and above the guard, and minimal among all solids' hits.
pub proof fn lemma_intersect_sound(env: Environment, ray: Ray)
    ensures
        env.spec_intersect(ray) is Some ==> ({
            let (i, d) = env.spec_intersect(ray)->0;
            &&& i < env.solids@.len()
            &&& env.solids@[i as int].spec_intersect(ray) == Some(d)
            &&& crate::geometry::GEOMETRY_THRESHOLD <= d < INFINITY
            &&& forall|j: int|
                0 <= j < env.solids@.len() && env.solids@[j].spec_intersect(ray) is Some
                    ==> (#[trigger] env.solids@[j].spec_intersect(ray))->0 >= d
        }),
{
    assert(env.solids@.len() <= usize::MAX) by {
        vstd::std_specs::vec::axiom_spec_len(&env.solids);
    }
    lemma_nearest_from_sound(env.solids@, ray, 0, None, INFINITY);
    if env.spec_intersect(ray) is Some {
        let (i, d) = env.spec_intersect(ray)->0;
        lemma_solid_hit_above_threshold(env.solids@[i as int], ray);
    }
}

/// The nearest-hit scan reads the solids' geometry alone: scenes whose
/// solids agree in shape, position for position, agree on every fold state.
pub proof fn lemma_nearest_same_shape(
    solids1: Seq<Solid>,
    solids2: Seq<Solid>,
    ray: Ray,
    i: int,
    best: Option<usize>,
    best_distance: i64,
)
    requires
        solids1.len() == solids2.len(),
        forall|j: int|
            0 <= j < solids1.len() ==> Solid::same_shape(#[trigger] solids1[j], solids2[j]),
    ensures
        Environment::spec_nearest_from(solids1, ray, i, best, best_distance)
            == Environment::spec_nearest_from(solids2, ray, i, best, best_distance),
    decreases solids1.len() - i,
{
    if 0 <= i < solids1.len() {
        crate::geometry::lemma_same_shape_intersect(solids1[i], solids2[i], ray);
        match solids1[i].spec_intersect(ray) {
            Some(t) => {
                if t < best_distance {
                    lemma_nearest_same_shape(solids1, solids2, ray, i + 1, Some(i as usize), t);
                } else {
                    lemma_nearest_same_shape(solids1, solids2, ray, i + 1, best, best_distance);
                }
            },
            None => {
                lemma_nearest_same_shape(solids1, solids2, ray, i + 1, best, best_distance);
            },
        }
    }
}

/// The nearest-intersection query does not depend on the order in which two
/// solids were added: a scene holding them in either order reports the same
/// hit distance, and — whenever the two solids' own hits differ — the same
/// solid.
pub proof fn lemma_nearest_order_independent(
    a: Solid,
    b: Solid,
    e1: Environment,
    e2: Environment,
    ray: Ray,
)
    requires
        e1.solids@ == seq![a, b],
        e2.solids@ == seq![b, a],
    ensures
        e1.spec_intersect(ray) is Some <==> e2.spec_intersect(ray) is Some,
        e1.spec_intersect(ray) is Some ==> ({
            let (i1, d1) = e1.spec_intersect(ray)->0;
            let (i2, d2) = e2.spec_intersect(ray)->0;
            &&& d1 == d2
            &&& a.spec_intersect(ray) != b.spec_intersect(ray) ==> e1.solids@[i1 as int]
                == e2.solids@[i2 as int]
        }),
{
    reveal_with_fuel(Environment::spec_nearest_from, 4);
    assert(e1.solids@[0] == a && e1.solids@[1] == b);
    assert(e2.solids@[0] == b && e2.solids@[1] == a);
}

} // verus!
