//! Rays: an origin plus a direction, with point-at-parameter evaluation.

use vstd::prelude::*;
use crate::vector::Vector;

verus! {

#[derive(Clone, Copy, Debug, PartialEq, Eq, Structural)]
pub struct Ray {
    pub org: Vector,
    pub dir: Vector,
}

impl Ray {
    /// The point reached after parameter `t` along the direction.
    pub open spec fn spec_point(self, t: int) -> Vector {
        Vector::spec_add(self.org, Vector::spec_mul_s(self.dir, t))
    }

    pub fn new(org: Vector, dir: Vector) -> (r: Ray)
        ensures
            r == (Ray { org, dir }),
    {
        Ray { org, dir }
    }

    pub fn point(&self, t: i64) -> (r: Vector)
        ensures
            r == self.spec_point(t as int),
    {
        self.org.add(self.dir.mul_s(t))
    }
}

impl From<((i64, i64, i64), (i64, i64, i64))> for Ray {
    fn from(v: ((i64, i64, i64), (i64, i64, i64))) -> (r: Ray) {
        Ray::new(Vector::from_xyz(v.0.0, v.0.1, v.0.2), Vector::from_xyz(v.1.0, v.1.1, v.1.2))
    }
}

impl vstd::std_specs::convert::FromSpecImpl<((i64, i64, i64), (i64, i64, i64))> for Ray {
    open spec fn obeys_from_spec() -> bool {
        true
    }

    open spec fn from_spec(v: ((i64, i64, i64), (i64, i64, i64))) -> Ray {
        Ray {
            org: Vector { x: v.0.0, y: v.0.1, z: v.0.2 },
            dir: Vector { x: v.1.0, y: v.1.1, z: v.1.2 },
        }
    }
}

} // verus!
