use crate::scalar::Scalar;
use crate::scalar::{BITS_0, BITS_0_97, BITS_1, BITS_10, BITS_1000, BITS_1100, BITS_1_4, BITS_1_5,
    BITS_1_9, BITS_300, BITS_NEG_2};
use vstd::prelude::*;

verus! {

/// Coefficients of the single-term lateral Magic Formula: the normal load
/// and the four classic stiffness / shape / peak / curvature factors.
///
/// No cross-field invariant is enforced: the tuning surface may write any
/// finite value into any field.
#[derive(Clone, Copy, Debug, PartialEq, Eq, Structural)]
pub struct Simple {
    /// Normal load on the tire, in newtons.
    pub fz: Scalar,
    /// Stiffness factor.
    pub b: Scalar,
    /// Shape factor.
    pub c: Scalar,
    /// Peak factor.
    pub d: Scalar,
    /// Curvature factor.
    pub e: Scalar,
}

impl Simple {
    /// The literature defaults: fz = 1000 N, B = 10, C = 19/10, D = 1,
    /// E = 97/100.
    pub open spec fn spec_default() -> Simple {
        Simple {
            fz: Scalar { bits: BITS_1000 },
            b: Scalar { bits: BITS_10 },
            c: Scalar { bits: BITS_1_9 },
            d: Scalar { bits: BITS_1 },
            e: Scalar { bits: BITS_0_97 },
        }
    }
}

impl Default for Simple {
    /// The literature-default coefficient set.
    fn default() -> (r: Simple)
        ensures
            r == Simple::spec_default(),
    {
        Simple {
            fz: Scalar { bits: BITS_1000 },
            b: Scalar { bits: BITS_10 },
            c: Scalar { bits: BITS_1_9 },
            d: Scalar { bits: BITS_1 },
            e: Scalar { bits: BITS_0_97 },
        }
    }
}

/// Coefficients of the full lateral Magic Formula of 1994: the normal load
/// and the eighteen load-sensitivity, stiffness, curvature and shift terms
/// `a0..a17`.
#[derive(Clone, Copy, Debug, PartialEq, Eq, Structural)]
pub struct Lateral {
    /// Normal load on the tire, in newtons.
    pub fz: Scalar,
    /// Shape factor.
    pub a0: Scalar,
    /// Load influence on lateral friction, in 1/kN.
    pub a1: Scalar,
    /// Lateral friction level.
    pub a2: Scalar,
    /// Stiffness with slip, in N/deg.
    pub a3: Scalar,
    /// Load at which the stiffness-load curve bends, in 1/kN.
    pub a4: Scalar,
    /// Camber influence on stiffness.
    pub a5: Scalar,
    /// Curvature change with load.
    pub a6: Scalar,
    /// Curvature factor.
    pub a7: Scalar,
    /// Load influence on horizontal shift, in deg/kN.
    pub a8: Scalar,
    /// Horizontal shift at no load, in deg.
    pub a9: Scalar,
    /// Camber influence on horizontal shift.
    pub a10: Scalar,
    /// Vertical shift, in N.
    pub a11: Scalar,
    /// Vertical shift at no load, in N.
    pub a12: Scalar,
    /// Camber influence on vertical shift under load.
    pub a13: Scalar,
    /// Camber influence on vertical shift.
    pub a14: Scalar,
    /// Camber influence on the lateral friction coefficient, in 1/deg.
    pub a15: Scalar,
    /// Curvature change with camber.
    pub a16: Scalar,
    /// Curvature shift with camber.
    pub a17: Scalar,
}

impl Lateral {
    /// The literature defaults: fz = 1000 N, a0 = 7/5, a2 = a3 = 1100,
    /// a4 = 10, a7 = -2, every other coefficient 0.
    pub open spec fn spec_default() -> Lateral {
        Lateral {
            fz: Scalar { bits: BITS_1000 },
            a0: Scalar { bits: BITS_1_4 },
            a1: Scalar { bits: BITS_0 },
            a2: Scalar { bits: BITS_1100 },
            a3: Scalar { bits: BITS_1100 },
            a4: Scalar { bits: BITS_10 },
            a5: Scalar { bits: BITS_0 },
            a6: Scalar { bits: BITS_0 },
            a7: Scalar { bits: BITS_NEG_2 },
            a8: Scalar { bits: BITS_0 },
            a9: Scalar { bits: BITS_0 },
            a10: Scalar { bits: BITS_0 },
            a11: Scalar { bits: BITS_0 },
            a12: Scalar { bits: BITS_0 },
            a13: Scalar { bits: BITS_0 },
            a14: Scalar { bits: BITS_0 },
            a15: Scalar { bits: BITS_0 },
            a16: Scalar { bits: BITS_0 },
            a17: Scalar { bits: BITS_0 },
        }
    }
}

impl Default for Lateral {
    /// The literature-default coefficient set.
    fn default() -> (r: Lateral)
        ensures
            r == Lateral::spec_default(),
    {
        Lateral {
            fz: Scalar { bits: BITS_1000 },
            a0: Scalar { bits: BITS_1_4 },
            a1: Scalar { bits: BITS_0 },
            a2: Scalar { bits: BITS_1100 },
            a3: Scalar { bits: BITS_1100 },
            a4: Scalar { bits: BITS_10 },
            a5: Scalar { bits: BITS_0 },
            a6: Scalar { bits: BITS_0 },
            a7: Scalar { bits: BITS_NEG_2 },
            a8: Scalar { bits: BITS_0 },
            a9: Scalar { bits: BITS_0 },
            a10: Scalar { bits: BITS_0 },
            a11: Scalar { bits: BITS_0 },
            a12: Scalar { bits: BITS_0 },
            a13: Scalar { bits: BITS_0 },
            a14: Scalar { bits: BITS_0 },
            a15: Scalar { bits: BITS_0 },
            a16: Scalar { bits: BITS_0 },
            a17: Scalar { bits: BITS_0 },
        }
    }
}

/// Coefficients of the longitudinal Magic Formula of 1994: the normal load
/// and the fourteen terms `b0..b13`, structurally parallel to the lateral
/// set but with its own stiffness and shift composition.
#[derive(Clone, Copy, Debug, PartialEq, Eq, Structural)]
pub struct Longitudinal {
    /// Normal load on the tire, in newtons.
    pub fz: Scalar,
    /// Shape factor.
    pub b0: Scalar,
    /// Load influence on longitudinal friction, in 1/kN.
    pub b1: Scalar,
    /// Longitudinal friction level.
    pub b2: Scalar,
    /// Curvature factor of stiffness with load squared.
    pub b3: Scalar,
    /// Change of stiffness with slip.
    pub b4: Scalar,
    /// Change of progressivity of stiffness with load, in 1/kN.
    pub b5: Scalar,
    /// Curvature change with load squared.
    pub b6: Scalar,
    /// Curvature change with load.
    pub b7: Scalar,
    /// Curvature factor.
    pub b8: Scalar,
    /// Load influence on horizontal shift, in %/kN.
    pub b9: Scalar,
    /// Horizontal shift.
    pub b10: Scalar,
    /// Vertical shift, in N.
    pub b11: Scalar,
    /// Vertical shift at no load, in N.
    pub b12: Scalar,
    /// Curvature shift.
    pub b13: Scalar,
}

impl Longitudinal {
    /// The literature defaults: fz = 1000 N, b0 = 3/2, b2 = 1100, b4 = 300,
    /// b8 = -2, every other coefficient 0.
    pub open spec fn spec_default() -> Longitudinal {
        Longitudinal {
            fz: Scalar { bits: BITS_1000 },
            b0: Scalar { bits: BITS_1_5 },
            b1: Scalar { bits: BITS_0 },
            b2: Scalar { bits: BITS_1100 },
            b3: Scalar { bits: BITS_0 },
            b4: Scalar { bits: BITS_300 },
            b5: Scalar { bits: BITS_0 },
            b6: Scalar { bits: BITS_0 },
            b7: Scalar { bits: BITS_0 },
            b8: Scalar { bits: BITS_NEG_2 },
            b9: Scalar { bits: BITS_0 },
            b10: Scalar { bits: BITS_0 },
            b11: Scalar { bits: BITS_0 },
            b12: Scalar { bits: BITS_0 },
            b13: Scalar { bits: BITS_0 },
        }
    }
}

impl Default for Longitudinal {
    /// The literature-default coefficient set.
    fn default() -> (r: Longitudinal)
        ensures
            r == Longitudinal::spec_default(),
    {
        Longitudinal {
            fz: Scalar { bits: BITS_1000 },
            b0: Scalar { bits: BITS_1_5 },
            b1: Scalar { bits: BITS_0 },
            b2: Scalar { bits: BITS_1100 },
            b3: Scalar { bits: BITS_0 },
            b4: Scalar { bits: BITS_300 },
            b5: Scalar { bits: BITS_0 },
            b6: Scalar { bits: BITS_0 },
            b7: Scalar { bits: BITS_0 },
            b8: Scalar { bits: BITS_NEG_2 },
            b9: Scalar { bits: BITS_0 },
            b10: Scalar { bits: BITS_0 },
            b11: Scalar { bits: BITS_0 },
            b12: Scalar { bits: BITS_0 },
            b13: Scalar { bits: BITS_0 },
        }
    }
}

} // verus!
