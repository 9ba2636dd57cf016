//! Parametric tire-force curve models (Pacejka "Magic Formula" family).
//!
//! The core of an interactive curve tuner: a closed family of model kinds,
//! each with a named coefficient set, literature-default values, descriptive
//! labels, and recommended per-coefficient tuning ranges. Coefficients are
//! carried as raw IEEE-754 double-precision bit patterns, so the core can
//! state and prove exact facts about construction, defaults and metadata;
//! decoding the bits and evaluating the transcendental formulas is left to
//! the surrounding application.

pub mod models;
pub mod params;
pub mod scalar;
pub mod sliders;
