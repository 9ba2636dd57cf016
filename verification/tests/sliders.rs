use pacejka_tuner::models::{ModelType, PacejkaModel};
use pacejka_tuner::params::{Lateral, Longitudinal, Simple};
use pacejka_tuner::sliders::SliderSpec;

fn range_of(s: &SliderSpec) -> (f64, f64) {
    (f64::from_bits(s.min.bits), f64::from_bits(s.max.bits))
}

#[test]
fn simple_slider_rows() {
    let rows = Simple::slider_specs();
    let expected = vec![
        ("Fz [N]", 0.0, 100000.0),
        ("B (Stiffness)", 0.0, 20.0),
        ("C (Shape)", 0.0, 10.0),
        ("D (Peak)", 0.0, 5.0),
        ("E (Curvature)", -10.0, 10.0),
    ];
    assert_eq!(rows.len(), expected.len());
    for (row, (label, min, max)) in rows.iter().zip(expected) {
        assert_eq!(row.label, label);
        assert_eq!(range_of(row), (min, max));
    }
}

#[test]
fn lateral_slider_rows() {
    let rows = Lateral::slider_specs();
    let expected = vec![
        ("Fz [N]", 0.0, 100000.0),
        ("a0 (Shape Factor)", 0.0, 20.0),
        ("a1 (Load influence on lateral mu) [1/kN]", -100.0, 100.0),
        ("a2 (Lateral mu)", 500.0, 1000.0),
        ("a3 (Stiffness with slip) [N/deg]", 100.0, 2000.0),
        ("a4 (ddy of stiffness / load) [1/KN]", 0.0, 100.0),
        ("a5 (Camber influence on stiffness) [%/deg/100]", -0.1, 0.1),
        ("a6 (Curvature change with load)", -5.0, 5.0),
        ("a7 (Curvature factor)", -20.0, 5.0),
        ("a8 (Load influence on horizontal shift) [deg/kN]", -5.0, 5.0),
        ("a9 (Horizontal shift at no load) [deg]", -5.0, 5.0),
        ("a10 (Camber influence on horizontal shift) [deg/deg]", -1.0, 1.0),
        ("a11 (Vertical shift) [N]", -500.0, 500.0),
        ("a12 (Vertical shift at no load) [N]", -10.0, 10.0),
        ("a13 (Camber influence on vertical shift, loaded) [N/deg/kN]", -10.0, 10.0),
        ("a14 (Camber influence on vertical shift) [N/deg]", -20.0, 20.0),
        ("a15 (Camber influence on lateral friction coefficient) [1/deg]", -1.0, 1.0),
        ("a16 (Curvature change with camber)", -1.0, 1.0),
        ("a17 (Curvature change with camber)", -5.0, 5.0),
    ];
    assert_eq!(rows.len(), expected.len());
    for (row, (label, min, max)) in rows.iter().zip(expected) {
        assert_eq!(row.label, label);
        assert_eq!(range_of(row), (min, max));
    }
}

#[test]
fn longitudinal_slider_rows() {
    let rows = Longitudinal::slider_specs();
    let expected = vec![
        ("Fz [N]", 0.0, 100000.0),
        ("b0 (Shape factor)", 0.0, 2.0),
        ("b1 (Load influence on mu) [1/kN]", -100.0, 100.0),
        ("b2 (Longitudinal mu)", 500.0, 2000.0),
        ("b3 (Curvature factor of stiffness/load) [N/%/kN^2]", -100.0, 100.0),
        ("b4 (Change of stiffness with slip) [N/%]", 500.0, 600.0),
        ("b5 (Change of progressivity of stiffness/load) [1/kN]", -5.0, 5.0),
        ("b6 (Curvature change with load^2)", -1.0, 1.0),
        ("b7 (Curvature change with load)", -10.0, 10.0),
        ("b8 (Curvature factor)", -50.0, 10.0),
        ("b9 (Load influence on horizontal shift) [%/kN]", -5.0, 5.0),
        ("b10 (Horizontal shift) [%]", -10.0, 10.0),
        ("b11 (Vertical shift) [N]", -500.0, 500.0),
        ("b12 (Vertical shift at load = 0) [N]", -100.0, 100.0),
        ("b13 (Curvature shift)", -10.0, 10.0),
    ];
    assert_eq!(rows.len(), expected.len());
    for (row, (label, min, max)) in rows.iter().zip(expected) {
        assert_eq!(row.label, label);
        assert_eq!(range_of(row), (min, max));
    }
}

#[test]
fn model_dispatches_slider_rows_by_kind() {
    let simple = PacejkaModel::create_model(ModelType::LateralSimple);
    assert_eq!(simple.slider_specs().len(), 5);
    let lateral = PacejkaModel::create_model(ModelType::Lateral94);
    assert_eq!(lateral.slider_specs().len(), 19);
    let longitudinal = PacejkaModel::create_model(ModelType::Longitudinal94);
    assert_eq!(longitudinal.slider_specs().len(), 15);
    assert_eq!(lateral.slider_specs()[18].label, "a17 (Curvature change with camber)");
}

#[test]
fn variant_labels_direct() {
    assert_eq!(Simple::default().get_model_label(), "Simple");
    assert_eq!(Simple::default().get_model_axis_label(), "Lateral Force (N)");
    assert_eq!(Lateral::default().get_model_label(), "Lateral '94");
    assert_eq!(Lateral::default().get_model_axis_label(), "Lateral Force (N)");
    assert_eq!(Longitudinal::default().get_model_label(), "Longitudinal '94");
    assert_eq!(Longitudinal::default().get_model_axis_label(), "Longitudinal Force (N)");
}
