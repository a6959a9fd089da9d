//! Surface descriptors: per-material coefficients, a base color, the medium
//! behind the surface, and a per-point local normal.

use vstd::prelude::*;
use crate::mediums::Medium;
use crate::vector::Vector;

verus! {

#[derive(Clone, Copy, Debug, PartialEq, Eq, Structural)]
pub struct Surface {
    /// Ambient coefficient.
    pub k_a: i64,
    /// Diffuse coefficient.
    pub k_d: i64,
    /// Specular coefficient.
    pub k_s: i64,
    /// Reflective coefficient.
    pub k_r: i64,
    /// Transmissive coefficient.
    pub k_t: i64,
    /// Base color.
    pub color: Vector,
    /// Medium behind the surface.
    pub medium: Medium,
    /// Phong exponent.
    pub p: i32,
    /// Local normal, substituted per point by the owning primitive.
    pub n: Vector,
}

impl Surface {
    /// An all-zero surface.
    pub fn new() -> (r: Surface)
        ensures
            r == (Surface {
                k_a: 0,
                k_d: 0,
                k_s: 0,
                k_r: 0,
                k_t: 0,
                color: Vector { x: 0, y: 0, z: 0 },
                medium: Medium { n_refr: 0, betta: 0 },
                p: 0,
                n: Vector { x: 0, y: 0, z: 0 },
            }),
    {
        Surface {
            k_a: 0,
            k_d: 0,
            k_s: 0,
            k_r: 0,
            k_t: 0,
            color: Vector { x: 0, y: 0, z: 0 },
            medium: Medium { n_refr: 0, betta: 0 },
            p: 0,
            n: Vector { x: 0, y: 0, z: 0 },
        }
    }
}

} // verus!
