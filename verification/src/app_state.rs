//! The shared on/off switch that every component reads once per cycle.

use vstd::prelude::*;
use vstd::string::*;

verus! {

/// Whether optimization is switched on.
#[derive(Debug, Clone, Copy, PartialEq, Eq, Structural)]
pub enum OptimizationMode {
    Enabled,
    Disabled,
}

impl OptimizationMode {
    /// The other mode.
    pub fn toggled(self) -> (r: OptimizationMode)
        ensures
            r == (match self {
                OptimizationMode::Enabled => OptimizationMode::Disabled,
                OptimizationMode::Disabled => OptimizationMode::Enabled,
            }),
    {
        match self {
            OptimizationMode::Enabled => OptimizationMode::Disabled,
            OptimizationMode::Disabled => OptimizationMode::Enabled,
        }
    }

    /// The mode's name as the shell reads it.
    pub fn name(self) -> (r: &'static str)
        ensures
            r@ == (match self {
                OptimizationMode::Enabled => "Enabled"@,
                OptimizationMode::Disabled => "Disabled"@,
            }),
    {
        match self {
            OptimizationMode::Enabled => "Enabled",
            OptimizationMode::Disabled => "Disabled",
        }
    }

    /// True for `Enabled`.
    pub fn is_enabled(self) -> (b: bool)
        ensures
            b == (self == OptimizationMode::Enabled),
    {
        match self {
            OptimizationMode::Enabled => true,
            OptimizationMode::Disabled => false,
        }
    }
}

/// The control state that the shell owns and the engines read.
#[derive(Debug, Clone, Copy)]
pub struct AppControlState {
    pub optimization_mode: OptimizationMode,
}

impl Default for AppControlState {
    fn default() -> (r: Self)
        ensures
            r.optimization_mode == OptimizationMode::Disabled,
    {
        AppControlState { optimization_mode: OptimizationMode::Disabled }
    }
}

} // verus!
