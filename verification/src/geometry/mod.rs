//! Geometric primitives and their closed-form ray intersections.
//!
//! Every `intersect` returns the smallest ray parameter strictly greater
//! than `GEOMETRY_THRESHOLD` (a guard against self-intersection), or `None`.

use vstd::prelude::*;

pub mod cuboid;
pub mod cylinder;
pub mod plane;
pub mod rect;
pub mod sphere;
pub mod triangle;

pub use self::cuboid::Cuboid;
pub use self::cylinder::Cylinder;
pub use self::plane::Plane;
pub use self::rect::Rect;
pub use self::sphere::Sphere;
pub use self::triangle::Triangle;

use crate::ray::Ray;
use crate::surface::Surface;
use crate::vector::Vector;

verus! {

/// Self-intersection guard on returned ray parameters (about 0.001).
pub const GEOMETRY_THRESHOLD: i64 = 16777;

/// Looser guard against ill-conditioned division (about 0.01).
pub const EPS: i64 = 167772;

/// A scene primitive: a closed set of variants sharing one intersection
/// interface.
#[derive(Clone, Copy, Debug, PartialEq, Eq, Structural)]
pub enum Solid {
    Sphere(Sphere),
    Plane(Plane),
    Rect(Rect),
    Triangle(Triangle),
    Cuboid(Cuboid),
    Cylinder(Cylinder),
}

impl Solid {
    /// The nearest forward intersection of the ray with this primitive.
    /// Opaque: callers reason through the variant dispatch only after
    /// revealing it, which keeps scene-level proofs small.
    #[verifier::opaque]
    pub open spec fn spec_intersect(self, ray: Ray) -> Option<i64> {
        match self {
            Solid::Sphere(s) => s.spec_intersect(ray),
            Solid::Plane(s) => s.spec_intersect(ray),
            Solid::Rect(s) => s.spec_intersect(ray),
            Solid::Triangle(s) => s.spec_intersect(ray),
            Solid::Cuboid(s) => s.spec_intersect(ray),
            Solid::Cylinder(s) => s.spec_intersect(ray),
        }
    }

    /// The surface normal at a point, in the primitive's own orientation
    /// convention (not necessarily outward).
    pub open spec fn spec_find_normal(self, p: Vector) -> Vector {
        match self {
            Solid::Sphere(s) => s.spec_find_normal(p),
            Solid::Plane(s) => s.normal,
            Solid::Rect(s) => s.normal,
            Solid::Triangle(s) => s.rect.normal,
            Solid::Cuboid(s) => s.spec_find_normal(p),
            Solid::Cylinder(s) => s.spec_find_normal(p),
        }
    }

    /// The owning material.
    pub open spec fn spec_material(self) -> Surface {
        match self {
            Solid::Sphere(s) => s.material,
            Solid::Plane(s) => s.material,
            Solid::Rect(s) => s.material,
            Solid::Triangle(s) => s.rect.material,
            Solid::Cuboid(s) => s.material,
            Solid::Cylinder(s) => s.material,
        }
    }

    /// The material with the local normal substituted in.
    pub open spec fn spec_find_texture(self, p: Vector) -> Surface {
        Surface { n: self.spec_find_normal(p), ..self.spec_material() }
    }

    /// Whether two solids have the same geometry, whatever their materials.
    pub open spec fn same_shape(s1: Solid, s2: Solid) -> bool {
        match (s1, s2) {
            (Solid::Sphere(a), Solid::Sphere(b)) => a.center == b.center && a.radius == b.radius
                && a.radius_radius == b.radius_radius,
            (Solid::Plane(a), Solid::Plane(b)) => a.normal == b.normal && a.distance == b.distance,
            (Solid::Rect(a), Solid::Rect(b)) => Solid::same_rect(a, b),
            (Solid::Triangle(a), Solid::Triangle(b)) => Solid::same_rect(a.rect, b.rect),
            (Solid::Cuboid(a), Solid::Cuboid(b)) => a.loc == b.loc && a.center == b.center
                && a.ax0 == b.ax0 && a.ax1 == b.ax1 && a.ax2 == b.ax2 && a.e1 == b.e1 && a.e2
                == b.e2 && a.e3 == b.e3,
            (Solid::Cylinder(a), Solid::Cylinder(b)) => a.e1 == b.e1 && a.e2 == b.e2 && a.d1
                == b.d1 && a.d2 == b.d2 && a.len == b.len && a.len2 == b.len2 && a.radius2
                == b.radius2 && a.radius4 == b.radius4 && a.loc == b.loc && a.dir == b.dir
                && a.radius == b.radius,
            _ => false,
        }
    }

    /// Geometry equality of two rectangles.
    pub open spec fn same_rect(a: Rect, b: Rect) -> bool {
        a.loc == b.loc && a.side_a == b.side_a && a.side_b == b.side_b && a.normal == b.normal
            && a.ku == b.ku && a.kv == b.kv && a.u0 == b.u0 && a.v0 == b.v0
    }

    pub fn intersect(&self, ray: &Ray) -> (r: Option<i64>)
        ensures
            r == self.spec_intersect(*ray),
    {
        proof {
            reveal(Solid::spec_intersect);
        }
        match self {
            Solid::Sphere(s) => s.intersect(ray),
            Solid::Plane(s) => s.intersect(ray),
            Solid::Rect(s) => s.intersect(ray),
            Solid::Triangle(s) => s.intersect(ray),
            Solid::Cuboid(s) => s.intersect(ray),
            Solid::Cylinder(s) => s.intersect(ray),
        }
    }

    pub fn find_normal(&self, p: &Vector) -> (r: Vector)
        ensures
            r == self.spec_find_normal(*p),
    {
        match self {
            Solid::Sphere(s) => s.find_normal(p),
            Solid::Plane(s) => s.find_normal(p),
            Solid::Rect(s) => s.find_normal(p),
            Solid::Triangle(s) => s.find_normal(p),
            Solid::Cuboid(s) => s.find_normal(p),
            Solid::Cylinder(s) => s.find_normal(p),
        }
    }

    pub fn material(&self) -> (r: &Surface)
        ensures
            *r == self.spec_material(),
    {
        match self {
            Solid::Sphere(s) => &s.material,
            Solid::Plane(s) => &s.material,
            Solid::Rect(s) => &s.material,
            Solid::Triangle(s) => &s.rect.material,
            Solid::Cuboid(s) => &s.material,
            Solid::Cylinder(s) => &s.material,
        }
    }

    /// Copies the material and overwrites its normal with the local normal
    /// at `p` — the only form of spatial material variation.
    pub fn find_texture(&self, p: &Vector) -> (r: Surface)
        ensures
            r == self.spec_find_texture(*p),
    {
        let mut result = *self.material();
        result.n = self.find_normal(p);
        result
    }
}

/// Intersection reads the geometry alone: solids of the same shape report
/// the same hits, whatever their materials.
#[verifier::rlimit(100)]
#[verifier::spinoff_prover]
pub proof fn lemma_same_shape_intersect(s1: Solid, s2: Solid, ray: Ray)
    requires
        Solid::same_shape(s1, s2),
    ensures
        s1.spec_intersect(ray) == s2.spec_intersect(ray),
{
    reveal(Solid::spec_intersect);
}

} // verus!
