use crate::params::{Lateral, Longitudinal, Simple};
use vstd::prelude::*;
use vstd::string::StringExecFns;

verus! {

/// The closed set of model kinds the registry offers. Every kind listed
/// here has a total implementation of force evaluation, defaults and
/// metadata; nothing unimplemented is selectable.
#[derive(Clone, Copy, Debug, PartialEq, Eq, Structural)]
pub enum ModelType {
    /// Single-term lateral Magic Formula.
    LateralSimple,
    /// Full lateral Magic Formula of 1994.
    Lateral94,
    /// Longitudinal Magic Formula of 1994.
    Longitudinal94,
}

/// A force model: one variant per kind, each owning exactly that kind's
/// coefficient set. The variant never changes after construction; selecting
/// another kind replaces the whole model with a fresh one.
#[derive(Clone, Copy, Debug, PartialEq, Eq, Structural)]
pub enum PacejkaModel {
    /// Single-term lateral model.
    LateralSimple(Simple),
    /// Full lateral model of 1994.
    Lateral94(Lateral),
    /// Longitudinal model of 1994.
    Longitudinal94(Longitudinal),
}

/// The display label of each kind, shown by the selection UI. A function of
/// the kind alone: no coefficient value reaches it.
pub open spec fn spec_model_label(t: ModelType) -> Seq<char> {
    match t {
        ModelType::LateralSimple => "Simple"@,
        ModelType::Lateral94 => "Lateral '94"@,
        ModelType::Longitudinal94 => "Longitudinal '94"@,
    }
}

/// The force-axis label of each kind: the two lateral kinds plot lateral
/// force, the longitudinal kind longitudinal force. A function of the kind
/// alone: no coefficient value reaches it.
pub open spec fn spec_axis_label(t: ModelType) -> Seq<char> {
    match t {
        ModelType::LateralSimple => "Lateral Force (N)"@,
        ModelType::Lateral94 => "Lateral Force (N)"@,
        ModelType::Longitudinal94 => "Longitudinal Force (N)"@,
    }
}

impl PacejkaModel {
    /// The kind this model holds.
    pub open spec fn kind(self) -> ModelType {
        match self {
            PacejkaModel::LateralSimple(_) => ModelType::LateralSimple,
            PacejkaModel::Lateral94(_) => ModelType::Lateral94,
            PacejkaModel::Longitudinal94(_) => ModelType::Longitudinal94,
        }
    }

    /// What the registry hands out for each kind: the variant of that kind
    /// holding its literature-default coefficient set.
    pub open spec fn spec_default_model(t: ModelType) -> PacejkaModel {
        match t {
            ModelType::LateralSimple => PacejkaModel::LateralSimple(Simple::spec_default()),
            ModelType::Lateral94 => PacejkaModel::Lateral94(Lateral::spec_default()),
            ModelType::Longitudinal94 => PacejkaModel::Longitudinal94(Longitudinal::spec_default()),
        }
    }

    /// The registry: a freshly constructed model of the requested kind with
    /// that kind's literature defaults. The result depends on the requested
    /// kind alone, so no edit made to any earlier model can reach it, and
    /// each call yields an independently owned instance.
    pub fn create_model(model_name: ModelType) -> (r: Self)
        ensures
            r == PacejkaModel::spec_default_model(model_name),
    {
        match model_name {
            ModelType::LateralSimple => PacejkaModel::LateralSimple(Simple::default()),
            ModelType::Lateral94 => PacejkaModel::Lateral94(Lateral::default()),
            ModelType::Longitudinal94 => PacejkaModel::Longitudinal94(Longitudinal::default()),
        }
    }

    /// The display label of the kind this model holds.
    pub fn get_model_label(&self) -> (r: String)
        ensures
            r@ == spec_model_label(self.kind()),
    {
        match self {
            PacejkaModel::LateralSimple(m) => m.get_model_label(),
            PacejkaModel::Lateral94(m) => m.get_model_label(),
            PacejkaModel::Longitudinal94(m) => m.get_model_label(),
        }
    }

    /// The force-axis label of the kind this model holds.
    pub fn get_model_axis_label(&self) -> (r: String)
        ensures
            r@ == spec_axis_label(self.kind()),
    {
        match self {
            PacejkaModel::LateralSimple(m) => m.get_model_axis_label(),
            PacejkaModel::Lateral94(m) => m.get_model_axis_label(),
            PacejkaModel::Longitudinal94(m) => m.get_model_axis_label(),
        }
    }
}

impl Simple {
    /// The label identifying this variant; the coefficients play no part.
    pub fn get_model_label(&self) -> (r: String)
        ensures
            r@ == spec_model_label(ModelType::LateralSimple),
    {
        String::from_str("Simple")
    }

    /// The axis label of this variant; the coefficients play no part.
    pub fn get_model_axis_label(&self) -> (r: String)
        ensures
            r@ == spec_axis_label(ModelType::LateralSimple),
    {
        String::from_str("Lateral Force (N)")
    }
}

impl Lateral {
    /// The label identifying this variant; the coefficients play no part.
    pub fn get_model_label(&self) -> (r: String)
        ensures
            r@ == spec_model_label(ModelType::Lateral94),
    {
        String::from_str("Lateral '94")
    }

    /// The axis label of this variant; the coefficients play no part.
    pub fn get_model_axis_label(&self) -> (r: String)
        ensures
            r@ == spec_axis_label(ModelType::Lateral94),
    {
        String::from_str("Lateral Force (N)")
    }
}

impl Longitudinal {
    /// The label identifying this variant; the coefficients play no part.
    pub fn get_model_label(&self) -> (r: String)
        ensures
            r@ == spec_model_label(ModelType::Longitudinal94),
    {
        String::from_str("Longitudinal '94")
    }

    /// The axis label of this variant; the coefficients play no part.
    pub fn get_model_axis_label(&self) -> (r: String)
        ensures
            r@ == spec_axis_label(ModelType::Longitudinal94),
    {
        String::from_str("Longitudinal Force (N)")
    }
}

/// Labels are metadata of the kind alone: two models of the same kind carry
/// the same display label and the same axis label, however far their
/// coefficient sets have been edited apart.
pub proof fn lemma_labels_ignore_coefficients(m1: PacejkaModel, m2: PacejkaModel)
    requires
        m1.kind() == m2.kind(),
    ensures
        spec_model_label(m1.kind()) == spec_model_label(m2.kind()),
        spec_axis_label(m1.kind()) == spec_axis_label(m2.kind()),
{
}

/// The registry is faithful to the requested kind: the model it hands out
/// holds that kind, with that kind's literature defaults.
pub proof fn lemma_registry_kind(t: ModelType)
    ensures
        PacejkaModel::spec_default_model(t).kind() == t,
{
}

} // verus!
