//! Optimization methods and the presets of their settings.

use vstd::prelude::*;

verus! {

/// The optimization method of parametric and spline fits.
#[derive(Debug, Clone, Copy, PartialEq, Eq, Structural)]
pub enum OptimizerMethod {
    Lbfgs,
    NelderMead,
    SteepestDescent,
    NewtonCg,
    Sgd,
    Adam,
}

/// The position of a method in the stable ordering of [`OptimizerMethod::all`].
pub open spec fn spec_method_index(method: OptimizerMethod) -> nat {
    match method {
        OptimizerMethod::Lbfgs => 0,
        OptimizerMethod::NelderMead => 1,
        OptimizerMethod::SteepestDescent => 2,
        OptimizerMethod::NewtonCg => 3,
        OptimizerMethod::Sgd => 4,
        OptimizerMethod::Adam => 5,
    }
}

impl OptimizerMethod {
    /// The default method: L-BFGS.
    pub fn default_method() -> (method: OptimizerMethod)
        ensures
            method == OptimizerMethod::Lbfgs,
    {
        OptimizerMethod::Lbfgs
    }

    /// Every method once, in a stable order.
    pub fn all() -> (methods: Vec<OptimizerMethod>)
        ensures
            methods@.len() == 6,
            forall|k: int| 0 <= k < 6 ==> spec_method_index(#[trigger] methods@[k]) == k,
    {
        vec![
            OptimizerMethod::Lbfgs,
            OptimizerMethod::NelderMead,
            OptimizerMethod::SteepestDescent,
            OptimizerMethod::NewtonCg,
            OptimizerMethod::Sgd,
            OptimizerMethod::Adam,
        ]
    }

    /// The identifier used in exported results.
    pub fn id(self) -> (id: &'static str)
        ensures
            id@ == spec_method_id(self),
    {
        match self {
            OptimizerMethod::Lbfgs => "lbfgs",
            OptimizerMethod::NelderMead => "nelder_mead",
            OptimizerMethod::SteepestDescent => "steepest_descent",
            OptimizerMethod::NewtonCg => "newton_cg",
            OptimizerMethod::Sgd => "sgd",
            OptimizerMethod::Adam => "adam",
        }
    }
}

/// The identifier of a method in exported results.
pub open spec fn spec_method_id(method: OptimizerMethod) -> Seq<char> {
    match method {
        OptimizerMethod::Lbfgs => "lbfgs"@,
        OptimizerMethod::NelderMead => "nelder_mead"@,
        OptimizerMethod::SteepestDescent => "steepest_descent"@,
        OptimizerMethod::NewtonCg => "newton_cg"@,
        OptimizerMethod::Sgd => "sgd"@,
        OptimizerMethod::Adam => "adam"@,
    }
}

/// A preset of optimizer settings, or custom settings.
#[derive(Debug, Clone, Copy, PartialEq, Eq, Structural)]
pub enum OptimizerPreset {
    Fast,
    Balanced,
    Precise,
    Custom,
}

impl OptimizerPreset {
    /// The presets the interface offers; `Custom` is what the settings become once edited.
    pub fn all() -> (presets: Vec<OptimizerPreset>)
        ensures
            presets@ == seq![OptimizerPreset::Fast, OptimizerPreset::Balanced, OptimizerPreset::Precise],
    {
        let presets = vec![OptimizerPreset::Fast, OptimizerPreset::Balanced, OptimizerPreset::Precise];
        proof {
            assert(presets@ =~= seq![OptimizerPreset::Fast, OptimizerPreset::Balanced, OptimizerPreset::Precise]);
        }
        presets
    }
}

/// Whether the optimizer settings show the presets only or every setting.
#[derive(Debug, Clone, Copy, PartialEq, Eq, Structural)]
pub enum OptimizerUiMode {
    Basic,
    Advanced,
}

} // verus!
