//! Triangles: a rectangle's (u, v) projection with the barycentric-style
//! half-space test u > 0, v > 0, u + v < 1.

use vstd::prelude::*;
use crate::fx::{fxadd, SCALE};
use crate::ray::Ray;
use crate::surface::Surface;
use crate::vector::Vector;
use super::rect::Rect;

verus! {

#[derive(Clone, Copy, Debug, PartialEq, Eq, Structural)]
pub struct Triangle {
    pub rect: Rect,
}

impl Triangle {
    pub open spec fn spec_intersect(self, ray: Ray) -> Option<i64> {
        match self.rect.spec_intersect_uv(ray) {
            Some((t, u, v)) => if u > 0 && v > 0 && fxadd(u as int, v as int) < SCALE {
                Some(t)
            } else {
                None
            },
            None => None,
        }
    }

    pub fn new(material: Surface, loc: Vector, side_a: Vector, side_b: Vector) -> (r: Triangle)
        ensures
            r.rect == Rect::spec_new(material, loc, side_a, side_b),
    {
        Triangle { rect: Rect::new(material, loc, side_a, side_b) }
    }

    pub fn intersect(&self, ray: &Ray) -> (r: Option<i64>)
        ensures
            r == self.spec_intersect(*ray),
    {
        match self.rect.intersect_uv(ray) {
            Some((t, u, v)) => if u > 0 && v > 0 && crate::fx::fx_add(u, v) < SCALE {
                Some(t)
            } else {
                None
            },
            None => None,
        }
    }

    pub fn find_normal(&self, p: &Vector) -> (r: Vector)
        ensures
            r == self.rect.normal,
    {
        self.rect.find_normal(p)
    }
}

} // verus!
