use crate::models::{ModelType, PacejkaModel};
use crate::params::{Lateral, Longitudinal, Simple};
use crate::scalar::Scalar;
use crate::scalar::{BITS_0, BITS_0_1, BITS_10, BITS_100, BITS_1000, BITS_100000, BITS_2, BITS_20,
    BITS_2000, BITS_5, BITS_500, BITS_600, BITS_NEG_0_1, BITS_NEG_1, BITS_NEG_10, BITS_NEG_100,
    BITS_NEG_20, BITS_NEG_5, BITS_NEG_50, BITS_NEG_500, BITS_1};
use vstd::prelude::*;
use vstd::string::StringExecFns;

verus! {

/// What the tuning surface needs to build one control: the text shown
/// beside it and the recommended range of the coefficient it adjusts, as
/// IEEE-754 bit patterns. The core only describes the controls; it does not
/// enforce the ranges on values written back.
pub struct SliderSpec {
    /// The text shown beside the control: coefficient name, meaning, unit.
    pub label: String,
    /// Lower end of the recommended range.
    pub min: Scalar,
    /// Upper end of the recommended range.
    pub max: Scalar,
}

/// The mathematical image of a `SliderSpec`: the label as a character
/// sequence and the two range bit patterns.
pub struct SliderRow {
    /// The label's characters.
    pub label: Seq<char>,
    /// Bits of the lower end of the range.
    pub min_bits: u64,
    /// Bits of the upper end of the range.
    pub max_bits: u64,
}

impl View for SliderSpec {
    type V = SliderRow;

    open spec fn view(&self) -> SliderRow {
        SliderRow { label: self.label@, min_bits: self.min.bits, max_bits: self.max.bits }
    }
}

impl DeepView for SliderSpec {
    type V = SliderRow;

    open spec fn deep_view(&self) -> SliderRow {
        self.view()
    }
}

/// The documented tuning rows of the simple lateral model, one per
/// coefficient in field order: load 0..=100000 N, stiffness 0..=20,
/// shape 0..=10, peak 0..=5, curvature -10..=10.
pub open spec fn spec_simple_rows() -> Seq<SliderRow> {
    seq![
        SliderRow { label: "Fz [N]"@, min_bits: BITS_0, max_bits: BITS_100000 },
        SliderRow { label: "B (Stiffness)"@, min_bits: BITS_0, max_bits: BITS_20 },
        SliderRow { label: "C (Shape)"@, min_bits: BITS_0, max_bits: BITS_10 },
        SliderRow { label: "D (Peak)"@, min_bits: BITS_0, max_bits: BITS_5 },
        SliderRow { label: "E (Curvature)"@, min_bits: BITS_NEG_10, max_bits: BITS_10 },
    ]
}

/// The documented tuning rows of the full lateral model, one per
/// coefficient in field order `fz, a0..a17`.
pub open spec fn spec_lateral_rows() -> Seq<SliderRow> {
    seq![
        SliderRow { label: "Fz [N]"@, min_bits: BITS_0, max_bits: BITS_100000 },
        SliderRow { label: "a0 (Shape Factor)"@, min_bits: BITS_0, max_bits: BITS_20 },
        SliderRow {
            label: "a1 (Load influence on lateral mu) [1/kN]"@,
            min_bits: BITS_NEG_100,
            max_bits: BITS_100,
        },
        SliderRow { label: "a2 (Lateral mu)"@, min_bits: BITS_500, max_bits: BITS_1000 },
        SliderRow {
            label: "a3 (Stiffness with slip) [N/deg]"@,
            min_bits: BITS_100,
            max_bits: BITS_2000,
        },
        SliderRow {
            label: "a4 (ddy of stiffness / load) [1/KN]"@,
            min_bits: BITS_0,
            max_bits: BITS_100,
        },
        SliderRow {
            label: "a5 (Camber influence on stiffness) [%/deg/100]"@,
            min_bits: BITS_NEG_0_1,
            max_bits: BITS_0_1,
        },
        SliderRow {
            label: "a6 (Curvature change with load)"@,
            min_bits: BITS_NEG_5,
            max_bits: BITS_5,
        },
        SliderRow { label: "a7 (Curvature factor)"@, min_bits: BITS_NEG_20, max_bits: BITS_5 },
        SliderRow {
            label: "a8 (Load influence on horizontal shift) [deg/kN]"@,
            min_bits: BITS_NEG_5,
            max_bits: BITS_5,
        },
        SliderRow {
            label: "a9 (Horizontal shift at no load) [deg]"@,
            min_bits: BITS_NEG_5,
            max_bits: BITS_5,
        },
        SliderRow {
            label: "a10 (Camber influence on horizontal shift) [deg/deg]"@,
            min_bits: BITS_NEG_1,
            max_bits: BITS_1,
        },
        SliderRow {
            label: "a11 (Vertical shift) [N]"@,
            min_bits: BITS_NEG_500,
            max_bits: BITS_500,
        },
        SliderRow {
            label: "a12 (Vertical shift at no load) [N]"@,
            min_bits: BITS_NEG_10,
            max_bits: BITS_10,
        },
        SliderRow {
            label: "a13 (Camber influence on vertical shift, loaded) [N/deg/kN]"@,
            min_bits: BITS_NEG_10,
            max_bits: BITS_10,
        },
        SliderRow {
            label: "a14 (Camber influence on vertical shift) [N/deg]"@,
            min_bits: BITS_NEG_20,
            max_bits: BITS_20,
        },
        SliderRow {
            label: "a15 (Camber influence on lateral friction coefficient) [1/deg]"@,
            min_bits: BITS_NEG_1,
            max_bits: BITS_1,
        },
        SliderRow {
            label: "a16 (Curvature change with camber)"@,
            min_bits: BITS_NEG_1,
            max_bits: BITS_1,
        },
        SliderRow {
            label: "a17 (Curvature change with camber)"@,
            min_bits: BITS_NEG_5,
            max_bits: BITS_5,
        },
    ]
}

/// The documented tuning rows of the longitudinal model, one per
/// coefficient in field order `fz, b0..b13`.
pub open spec fn spec_longitudinal_rows() -> Seq<SliderRow> {
    seq![
        SliderRow { label: "Fz [N]"@, min_bits: BITS_0, max_bits: BITS_100000 },
        SliderRow { label: "b0 (Shape factor)"@, min_bits: BITS_0, max_bits: BITS_2 },
        SliderRow {
            label: "b1 (Load influence on mu) [1/kN]"@,
            min_bits: BITS_NEG_100,
            max_bits: BITS_100,
        },
        SliderRow { label: "b2 (Longitudinal mu)"@, min_bits: BITS_500, max_bits: BITS_2000 },
        SliderRow {
            label: "b3 (Curvature factor of stiffness/load) [N/%/kN^2]"@,
            min_bits: BITS_NEG_100,
            max_bits: BITS_100,
        },
        SliderRow {
            label: "b4 (Change of stiffness with slip) [N/%]"@,
            min_bits: BITS_500,
            max_bits: BITS_600,
        },
        SliderRow {
            label: "b5 (Change of progressivity of stiffness/load) [1/kN]"@,
            min_bits: BITS_NEG_5,
            max_bits: BITS_5,
        },
        SliderRow {
            label: "b6 (Curvature change with load^2)"@,
            min_bits: BITS_NEG_1,
            max_bits: BITS_1,
        },
        SliderRow {
            label: "b7 (Curvature change with load)"@,
            min_bits: BITS_NEG_10,
            max_bits: BITS_10,
        },
        SliderRow { label: "b8 (Curvature factor)"@, min_bits: BITS_NEG_50, max_bits: BITS_10 },
        SliderRow {
            label: "b9 (Load influence on horizontal shift) [%/kN]"@,
            min_bits: BITS_NEG_5,
            max_bits: BITS_5,
        },
        SliderRow {
            label: "b10 (Horizontal shift) [%]"@,
            min_bits: BITS_NEG_10,
            max_bits: BITS_10,
        },
        SliderRow {
            label: "b11 (Vertical shift) [N]"@,
            min_bits: BITS_NEG_500,
            max_bits: BITS_500,
        },
        SliderRow {
            label: "b12 (Vertical shift at load = 0) [N]"@,
            min_bits: BITS_NEG_100,
            max_bits: BITS_100,
        },
        SliderRow { label: "b13 (Curvature shift)"@, min_bits: BITS_NEG_10, max_bits: BITS_10 },
    ]
}

/// The tuning rows of each kind; like the labels, a function of the kind
/// alone.
pub open spec fn spec_slider_rows(t: ModelType) -> Seq<SliderRow> {
    match t {
        ModelType::LateralSimple => spec_simple_rows(),
        ModelType::Lateral94 => spec_lateral_rows(),
        ModelType::Longitudinal94 => spec_longitudinal_rows(),
    }
}

fn row(label: &str, min_bits: u64, max_bits: u64) -> (r: SliderSpec)
    ensures
        r@ == (SliderRow { label: label@, min_bits, max_bits }),
{
    SliderSpec {
        label: String::from_str(label),
        min: Scalar { bits: min_bits },
        max: Scalar { bits: max_bits },
    }
}

impl Simple {
    /// One slider description per coefficient, in field order, with the
    /// documented labels and recommended ranges.
    pub fn slider_specs() -> (r: Vec<SliderSpec>)
        ensures
            r.deep_view() == spec_simple_rows(),
    {
        let mut r: Vec<SliderSpec> = Vec::new();
        r.push(row("Fz [N]", BITS_0, BITS_100000));
        r.push(row("B (Stiffness)", BITS_0, BITS_20));
        r.push(row("C (Shape)", BITS_0, BITS_10));
        r.push(row("D (Peak)", BITS_0, BITS_5));
        r.push(row("E (Curvature)", BITS_NEG_10, BITS_10));
        proof {
            assert(r.deep_view() =~= spec_simple_rows());
        }
        r
    }
}

impl Lateral {
    /// One slider description per coefficient, in field order, with the
    /// documented labels and recommended ranges.
    pub fn slider_specs() -> (r: Vec<SliderSpec>)
        ensures
            r.deep_view() == spec_lateral_rows(),
    {
        let mut r: Vec<SliderSpec> = Vec::new();
        r.push(row("Fz [N]", BITS_0, BITS_100000));
        r.push(row("a0 (Shape Factor)", BITS_0, BITS_20));
        r.push(row("a1 (Load influence on lateral mu) [1/kN]", BITS_NEG_100, BITS_100));
        r.push(row("a2 (Lateral mu)", BITS_500, BITS_1000));
        r.push(row("a3 (Stiffness with slip) [N/deg]", BITS_100, BITS_2000));
        r.push(row("a4 (ddy of stiffness / load) [1/KN]", BITS_0, BITS_100));
        r.push(row("a5 (Camber influence on stiffness) [%/deg/100]", BITS_NEG_0_1, BITS_0_1));
        r.push(row("a6 (Curvature change with load)", BITS_NEG_5, BITS_5));
        r.push(row("a7 (Curvature factor)", BITS_NEG_20, BITS_5));
        r.push(row("a8 (Load influence on horizontal shift) [deg/kN]", BITS_NEG_5, BITS_5));
        r.push(row("a9 (Horizontal shift at no load) [deg]", BITS_NEG_5, BITS_5));
        r.push(row("a10 (Camber influence on horizontal shift) [deg/deg]", BITS_NEG_1, BITS_1));
        r.push(row("a11 (Vertical shift) [N]", BITS_NEG_500, BITS_500));
        r.push(row("a12 (Vertical shift at no load) [N]", BITS_NEG_10, BITS_10));
        r.push(row(
            "a13 (Camber influence on vertical shift, loaded) [N/deg/kN]",
            BITS_NEG_10,
            BITS_10,
        ));
        r.push(row("a14 (Camber influence on vertical shift) [N/deg]", BITS_NEG_20, BITS_20));
        r.push(row(
            "a15 (Camber influence on lateral friction coefficient) [1/deg]",
            BITS_NEG_1,
            BITS_1,
        ));
        r.push(row("a16 (Curvature change with camber)", BITS_NEG_1, BITS_1));
        r.push(row("a17 (Curvature change with camber)", BITS_NEG_5, BITS_5));
        proof {
            assert(r.deep_view() =~= spec_lateral_rows());
        }
        r
    }
}

impl Longitudinal {
    /// One slider description per coefficient, in field order, with the
    /// documented labels and recommended ranges.
    pub fn slider_specs() -> (r: Vec<SliderSpec>)
        ensures
            r.deep_view() == spec_longitudinal_rows(),
    {
        let mut r: Vec<SliderSpec> = Vec::new();
        r.push(row("Fz [N]", BITS_0, BITS_100000));
        r.push(row("b0 (Shape factor)", BITS_0, BITS_2));
        r.push(row("b1 (Load influence on mu) [1/kN]", BITS_NEG_100, BITS_100));
        r.push(row("b2 (Longitudinal mu)", BITS_500, BITS_2000));
        r.push(row("b3 (Curvature factor of stiffness/load) [N/%/kN^2]", BITS_NEG_100, BITS_100));
        r.push(row("b4 (Change of stiffness with slip) [N/%]", BITS_500, BITS_600));
        r.push(row(
            "b5 (Change of progressivity of stiffness/load) [1/kN]",
            BITS_NEG_5,
            BITS_5,
        ));
        r.push(row("b6 (Curvature change with load^2)", BITS_NEG_1, BITS_1));
        r.push(row("b7 (Curvature change with load)", BITS_NEG_10, BITS_10));
        r.push(row("b8 (Curvature factor)", BITS_NEG_50, BITS_10));
        r.push(row("b9 (Load influence on horizontal shift) [%/kN]", BITS_NEG_5, BITS_5));
        r.push(row("b10 (Horizontal shift) [%]", BITS_NEG_10, BITS_10));
        r.push(row("b11 (Vertical shift) [N]", BITS_NEG_500, BITS_500));
        r.push(row("b12 (Vertical shift at load = 0) [N]", BITS_NEG_100, BITS_100));
        r.push(row("b13 (Curvature shift)", BITS_NEG_10, BITS_10));
        proof {
            assert(r.deep_view() =~= spec_longitudinal_rows());
        }
        r
    }
}

impl PacejkaModel {
    /// The slider descriptions of the kind this model holds.
    pub fn slider_specs(&self) -> (r: Vec<SliderSpec>)
        ensures
            r.deep_view() == spec_slider_rows(self.kind()),
    {
        match self {
            PacejkaModel::LateralSimple(_) => Simple::slider_specs(),
            PacejkaModel::Lateral94(_) => Lateral::slider_specs(),
            PacejkaModel::Longitudinal94(_) => Longitudinal::slider_specs(),
        }
    }
}

} // verus!
