//! The planner: a pure function from a bound statement to a logical
//! plan tree, total over the supported statement kinds and failing with an
//! explicit, recoverable error on every other kind.

use vstd::prelude::*;
use std::sync::Arc;
use crate::catalog::clone_column_refs;
use crate::error::PlanError;
use crate::logical_plan::LogicalPlan;
use crate::operator::LogicalOperator;
use crate::statement::{BoundInsertStatement, BoundStatement};

verus! {

/// The plan an `INSERT` statement turns into: an `Insert` root over the
/// statement's table and columns, whose single child is a `Values` leaf
/// holding the statement's columns and its rows in unchanged order.
pub open spec fn is_insert_plan(stmt: BoundInsertStatement, p: LogicalPlan) -> bool {
    &&& p.operator matches LogicalOperator::Insert(ins) && ins.table_name == stmt.table.table
        && ins.columns == stmt.columns
    &&& p.children@.len() == 1
    &&& (*p.children@[0]).operator matches LogicalOperator::Values(vals) && vals.columns@
        == stmt.columns@ && vals.tuples == stmt.values
    &&& (*p.children@[0]).children@.len() == 0
}

/// Turns bound statements into logical plans.
pub struct Planner {}

impl Planner {
    /// Plans one bound statement.
    ///
    /// An `Insert` statement always plans successfully, into the tree that
    /// [`is_insert_plan`] describes; every other statement kind is refused
    /// with [`PlanError::UnsupportedStatement`].
    pub fn plan(&mut self, statement: BoundStatement) -> (r: Result<LogicalPlan, PlanError>)
        ensures
            statement matches BoundStatement::Insert(stmt) ==> (r matches Ok(p) && is_insert_plan(
                stmt,
                p,
            )),
            !(statement matches BoundStatement::Insert(_)) ==> (r matches Err(e) && e
                == PlanError::UnsupportedStatement),
    {
        match statement {
            BoundStatement::Insert(stmt) => {
                let values_node = LogicalPlan {
                    operator: LogicalOperator::new_values_operator(
                        clone_column_refs(&stmt.columns),
                        stmt.values,
                    ),
                    children: Vec::new(),
                };
                let mut children: Vec<Arc<LogicalPlan>> = Vec::new();
                children.push(Arc::new(values_node));
                Ok(
                    LogicalPlan {
                        operator: LogicalOperator::new_insert_operator(
                            stmt.table.table,
                            stmt.columns,
                        ),
                        children,
                    },
                )
            },
            _ => Err(PlanError::UnsupportedStatement),
        }
    }
}

} // verus!
