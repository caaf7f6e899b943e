//! Failure kinds of planning and optimization.

use vstd::prelude::*;

verus! {

/// Why planning or optimization refused a statement or a plan.
///
/// All three are recoverable conditions reported to the caller; none of the
/// library's functions aborts the process.
#[derive(Clone, Copy, Debug, PartialEq, Eq, Structural)]
pub enum PlanError {
    /// The planner has no rule for this bound-statement variant.
    UnsupportedStatement,
    /// The optimizer has no physical mapping for this logical operator variant.
    UnsupportedOperator,
    /// An operator was constructed with structurally invalid attributes.
    InvalidOperatorConfiguration,
}

impl PlanError {
    /// A short description of the failure, for diagnostics.
    pub fn message(&self) -> (r: &'static str)
        ensures
            self matches PlanError::UnsupportedStatement ==> r@ == "statement not supported"@,
            self matches PlanError::UnsupportedOperator ==> r@ == "operator not supported by optimizer"@,
            self matches PlanError::InvalidOperatorConfiguration ==> r@ == "invalid operator configuration"@,
    {
        match self {
            PlanError::UnsupportedStatement => "statement not supported",
            PlanError::UnsupportedOperator => "operator not supported by optimizer",
            PlanError::InvalidOperatorConfiguration => "invalid operator configuration",
        }
    }
}

} // verus!
