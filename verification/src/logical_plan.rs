//! The logical plan: a finite tree pairing one logical operator with an
//! ordered sequence of shared-owned child plans.

use vstd::prelude::*;
use std::sync::Arc;
use crate::operator::LogicalOperator;

verus! {

/// One node of a logical plan tree.
///
/// Child order encodes data-dependency order: an `Insert` node's sole child
/// supplies the rows to insert. Nodes are immutable after construction and
/// shared by reference count, so a sub-plan can be referenced from several
/// places without a deep copy.
#[derive(Clone, Debug)]
pub struct LogicalPlan {
    pub operator: LogicalOperator,
    pub children: Vec<Arc<LogicalPlan>>,
}

impl LogicalPlan {
    /// Builds a plan node from its operator and ordered children.
    pub fn new(operator: LogicalOperator, children: Vec<Arc<LogicalPlan>>) -> (r: LogicalPlan)
        ensures
            r.operator == operator,
            r.children == children,
    {
        LogicalPlan { operator, children }
    }
}

} // verus!
