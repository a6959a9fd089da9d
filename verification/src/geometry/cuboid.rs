//! Axis-free boxes (parallelepipeds): the slab method over three
//! precomputed face orientations and their two parallel offset planes.

use vstd::prelude::*;
use crate::fx;
use crate::fx::{fxadd, fxneg, fxdiv, fxabs, HALF, INFINITY};
use crate::ray::Ray;
use crate::surface::Surface;
use crate::vector::Vector;
use super::{EPS, GEOMETRY_THRESHOLD};

verus! {

/// One slab: a face orientation and the offsets of its two parallel planes,
/// kept with `d1 <= d2`.
#[derive(Clone, Copy, Debug, PartialEq, Eq, Structural)]
pub struct SlabAxis {
    pub n: Vector,
    pub d1: i64,
    pub d2: i64,
}

/// Flips a slab so its offsets are ordered.
pub open spec fn spec_orient(n: Vector, d1: int, d2: int) -> SlabAxis {
    if d1 > d2 {
        SlabAxis { n: Vector::spec_neg(n), d1: fxneg(d1) as i64, d2: fxneg(d2) as i64 }
    } else {
        SlabAxis { n: n, d1: d1 as i64, d2: d2 as i64 }
    }
}

/// Clipping the running parameter interval against one slab: `None` is an
/// early miss, otherwise the narrowed `(t_near, t_far)`.
pub open spec fn spec_axis_clip(ax: SlabAxis, ray: Ray, t_near: int, t_far: int) -> Option<(i64, i64)> {
    let vd = Vector::spec_dot(ray.dir, ax.n);
    let vo = Vector::spec_dot(ray.org, ax.n);
    if vd > EPS || vd < -EPS {
        let t1 = if vd > EPS {
            fxdiv(fxneg(fxadd(vo, ax.d2 as int)), vd)
        } else {
            fxdiv(fxneg(fxadd(vo, ax.d1 as int)), vd)
        };
        let t2 = if vd > EPS {
            fxdiv(fxneg(fxadd(vo, ax.d1 as int)), vd)
        } else {
            fxdiv(fxneg(fxadd(vo, ax.d2 as int)), vd)
        };
        let tn = if t1 > t_near {
            t1
        } else {
            t_near
        };
        if t2 < t_far && t2 < GEOMETRY_THRESHOLD {
            None
        } else {
            let tf = if t2 < t_far {
                t2
            } else {
                t_far
            };
            if tn > tf {
                None
            } else {
                Some((tn as i64, tf as i64))
            }
        }
    } else {
        if vo < ax.d1 || vo > ax.d2 {
            None
        } else {
            Some((t_near as i64, t_far as i64))
        }
    }
}

/// The absolute distance from the projection `d` to the nearer of the two
/// slab planes.
pub open spec fn spec_axis_dist(ax: SlabAxis, d: int) -> int {
    let e1 = fxabs(fxadd(d, ax.d1 as int));
    let e2 = fxabs(fxadd(d, ax.d2 as int));
    if e1 < e2 {
        e1
    } else {
        e2
    }
}

#[derive(Clone, Copy, Debug, PartialEq, Eq, Structural)]
pub struct Cuboid {
    pub material: Surface,
    pub loc: Vector,
    pub center: Vector,
    pub ax0: SlabAxis,
    pub ax1: SlabAxis,
    pub ax2: SlabAxis,
    pub e1: Vector,
    pub e2: Vector,
    pub e3: Vector,
}

impl Cuboid {
    /// The whole precomputation done by `new`.
    pub open spec fn spec_new(material: Surface, loc: Vector, e1: Vector, e2: Vector, e3: Vector) -> Cuboid {
        let center = Vector::spec_add(
            loc,
            Vector::spec_mul_s(Vector::spec_add(Vector::spec_add(e1, e2), e3), HALF as int),
        );
        let n0 = Vector::spec_normalize(Vector::spec_cross(e1, e2));
        let n1 = Vector::spec_normalize(Vector::spec_cross(e1, e3));
        let n2 = Vector::spec_normalize(Vector::spec_cross(e2, e3));
        Cuboid {
            material,
            loc,
            center,
            ax0: spec_orient(
                n0,
                fxneg(Vector::spec_dot(n0, loc)),
                fxneg(Vector::spec_dot(n0, Vector::spec_add(loc, e3))),
            ),
            ax1: spec_orient(
                n1,
                fxneg(Vector::spec_dot(n1, loc)),
                fxneg(Vector::spec_dot(n1, Vector::spec_add(loc, e2))),
            ),
            ax2: spec_orient(
                n2,
                fxneg(Vector::spec_dot(n2, loc)),
                fxneg(Vector::spec_dot(n2, Vector::spec_add(loc, e1))),
            ),
            e1,
            e2,
            e3,
        }
    }

    pub open spec fn spec_intersect(self, ray: Ray) -> Option<i64> {
        match spec_axis_clip(self.ax0, ray, -INFINITY as int, INFINITY as int) {
            None => None,
            Some((tn0, tf0)) => match spec_axis_clip(self.ax1, ray, tn0 as int, tf0 as int) {
                None => None,
                Some((tn1, tf1)) => match spec_axis_clip(self.ax2, ray, tn1 as int, tf1 as int) {
                    None => None,
                    Some((tn2, _tf2)) => if tn2 > GEOMETRY_THRESHOLD {
                        Some(tn2)
                    } else {
                        None
                    },
                },
            },
        }
    }

    /// The face orientation nearest to `p` (a running minimum seeded with
    /// `INFINITY`, earlier axes winning ties), flipped to point away from
    /// the center.
    pub open spec fn spec_find_normal(self, p: Vector) -> Vector {
        let dist0 = spec_axis_dist(self.ax0, Vector::spec_dot(p, self.ax0.n));
        let dist1 = spec_axis_dist(self.ax1, Vector::spec_dot(p, self.ax1.n));
        let dist2 = spec_axis_dist(self.ax2, Vector::spec_dot(p, self.ax2.n));
        let m1 = if dist0 < INFINITY {
            dist0
        } else {
            INFINITY as int
        };
        let n1 = self.ax0.n;
        let m2 = if dist1 < m1 {
            dist1
        } else {
            m1
        };
        let n2 = if dist1 < m1 {
            self.ax1.n
        } else {
            n1
        };
        let n3 = if dist2 < m2 {
            self.ax2.n
        } else {
            n2
        };
        if Vector::spec_dot(Vector::spec_sub(p, self.center), n3) < 0 {
            Vector::spec_neg(n3)
        } else {
            n3
        }
    }

    pub fn new(material: Surface, loc: Vector, e1: Vector, e2: Vector, e3: Vector) -> (r: Cuboid)
        ensures
            r == Cuboid::spec_new(material, loc, e1, e2, e3),
    {
        let center = loc.add(e1.add(e2).add(e3).mul_s(HALF));
        let n0 = e1.cross(e2).normalize();
        let n1 = e1.cross(e3).normalize();
        let n2 = e2.cross(e3).normalize();
        Cuboid {
            material,
            loc,
            center,
            ax0: Cuboid::orient(n0, fx::fx_neg(n0.dot(loc)), fx::fx_neg(n0.dot(loc.add(e3)))),
            ax1: Cuboid::orient(n1, fx::fx_neg(n1.dot(loc)), fx::fx_neg(n1.dot(loc.add(e2)))),
            ax2: Cuboid::orient(n2, fx::fx_neg(n2.dot(loc)), fx::fx_neg(n2.dot(loc.add(e1)))),
            e1,
            e2,
            e3,
        }
    }

    fn orient(n: Vector, d1: i64, d2: i64) -> (r: SlabAxis)
        ensures
            r == spec_orient(n, d1 as int, d2 as int),
    {
        if d1 > d2 {
            SlabAxis { n: n.neg(), d1: fx::fx_neg(d1), d2: fx::fx_neg(d2) }
        } else {
            SlabAxis { n, d1, d2 }
        }
    }

    fn axis_clip(ax: &SlabAxis, ray: &Ray, t_near: i64, t_far: i64) -> (r: Option<(i64, i64)>)
        ensures
            r == spec_axis_clip(*ax, *ray, t_near as int, t_far as int),
    {
        let vd = ray.dir.dot(ax.n);
        let vo = ray.org.dot(ax.n);

        if vd > EPS || vd < -EPS {
            let (t1, t2) = if vd > EPS {
                (
                    fx::fx_div(fx::fx_neg(fx::fx_add(vo, ax.d2)), vd),
                    fx::fx_div(fx::fx_neg(fx::fx_add(vo, ax.d1)), vd),
                )
            } else {
                (
                    fx::fx_div(fx::fx_neg(fx::fx_add(vo, ax.d1)), vd),
                    fx::fx_div(fx::fx_neg(fx::fx_add(vo, ax.d2)), vd),
                )
            };
            let tn = if t1 > t_near {
                t1
            } else {
                t_near
            };
            if t2 < t_far && t2 < GEOMETRY_THRESHOLD {
                return None;
            }
            let tf = if t2 < t_far {
                t2
            } else {
                t_far
            };
            if tn > tf {
                None
            } else {
                Some((tn, tf))
            }
        } else {
            if vo < ax.d1 || vo > ax.d2 {
                None
            } else {
                Some((t_near, t_far))
            }
        }
    }

    pub fn intersect(&self, ray: &Ray) -> (r: Option<i64>)
        ensures
            r == self.spec_intersect(*ray),
    {
        let c0 = Cuboid::axis_clip(&self.ax0, ray, -INFINITY, INFINITY);
        match c0 {
            None => None,
            Some((tn0, tf0)) => {
                let c1 = Cuboid::axis_clip(&self.ax1, ray, tn0, tf0);
                match c1 {
                    None => None,
                    Some((tn1, tf1)) => {
                        let c2 = Cuboid::axis_clip(&self.ax2, ray, tn1, tf1);
                        match c2 {
                            None => None,
                            Some((tn2, _tf2)) => if tn2 > GEOMETRY_THRESHOLD {
                                Some(tn2)
                            } else {
                                None
                            },
                        }
                    },
                }
            },
        }
    }

    pub fn find_normal(&self, p: &Vector) -> (r: Vector)
        ensures
            r == self.spec_find_normal(*p),
    {
        let dist0 = Cuboid::axis_dist(&self.ax0, p.dot(self.ax0.n));
        let dist1 = Cuboid::axis_dist(&self.ax1, p.dot(self.ax1.n));
        let dist2 = Cuboid::axis_dist(&self.ax2, p.dot(self.ax2.n));
        let mut min_dist: i64 = INFINITY;
        let mut n: Vector = self.ax0.n;
        if dist0 < min_dist {
            min_dist = dist0;
        }
        if dist1 < min_dist {
            min_dist = dist1;
            n = self.ax1.n;
        }
        if dist2 < min_dist {
            n = self.ax2.n;
        }
        if p.sub(self.center).dot(n) < 0 {
            n.neg()
        } else {
            n
        }
    }

    fn axis_dist(ax: &SlabAxis, d: i64) -> (r: i64)
        ensures
            r as int == spec_axis_dist(*ax, d as int),
    {
        let e1 = fx::fx_abs(fx::fx_add(d, ax.d1));
        let e2 = fx::fx_abs(fx::fx_add(d, ax.d2));
        if e1 < e2 {
            e1
        } else {
            e2
        }
    }
}

} // verus!
