//! Media a ray can travel through: a refractive index plus an absorption
//! placeholder that nothing reads yet.

use vstd::prelude::*;
use crate::fx::SCALE;

verus! {

#[derive(Clone, Copy, Debug, PartialEq, Eq, Structural)]
pub struct Medium {
    /// Refractive index, fixed-point.
    pub n_refr: i64,
    /// Absorption coefficient (unused placeholder).
    pub betta: i64,
}

impl Medium {
    /// Vacuum / air: refractive index 1.0.
    pub fn air() -> (r: Medium)
        ensures
            r == (Medium { n_refr: SCALE as i64, betta: 0 }),
    {
        Medium { n_refr: SCALE, betta: 0 }
    }

    /// A dense transparent material: refractive index 1.5.
    pub fn glass() -> (r: Medium)
        ensures
            r == (Medium { n_refr: (SCALE + SCALE / 2) as i64, betta: 0 }),
    {
        Medium { n_refr: SCALE + SCALE / 2, betta: 0 }
    }
}

} // verus!
