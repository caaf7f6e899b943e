//! The optimizer: a recursive tree transformer from a logical plan to a
//! physical plan.
//!
//! In its current form the rebuild is 1:1 and structural — each mapped
//! logical operator becomes exactly one physical operator with the same
//! attributes, and children are rebuilt in unchanged order. A logical plan
//! that holds any operator without a physical mapping is refused whole, with
//! [`PlanError::UnsupportedOperator`]; no partial tree is returned.

use vstd::prelude::*;
use std::sync::Arc;
use crate::error::PlanError;
use crate::logical_plan::LogicalPlan;
use crate::operator::LogicalOperator;
use crate::physical_plan::{rows_match, PhysicalOperator, PhysicalPlan};
use crate::planner::is_insert_plan;
use crate::statement::BoundInsertStatement;

verus! {

/// The logical operator variants the optimizer can map to a physical
/// operator today: `Dummy`, `Insert` and `Values`.
pub open spec fn op_mapped(op: LogicalOperator) -> bool {
    match op {
        LogicalOperator::Dummy => true,
        LogicalOperator::Insert(_) => true,
        LogicalOperator::Values(_) => true,
        _ => false,
    }
}

/// Every operator in the tree is a mapped variant.
pub open spec fn plan_mapped(p: LogicalPlan) -> bool
    decreases p,
{
    op_mapped(p.operator) && (forall|i: int|
        0 <= i < p.children@.len() ==> plan_mapped(*p.children@[i]))
}

/// The physical operator is the 1:1 image of the logical one: the
/// corresponding variant, with the attribute values carried through
/// unchanged.
pub open spec fn op_maps_to(l: LogicalOperator, p: PhysicalOperator) -> bool {
    match l {
        LogicalOperator::Dummy => p matches PhysicalOperator::Dummy,
        LogicalOperator::Insert(li) => p matches PhysicalOperator::Insert(pi) && pi.table_name
            == li.table_name && pi.columns@ == li.columns@,
        LogicalOperator::Values(lv) => p matches PhysicalOperator::Values(pv) && pv.columns@
            == lv.columns@ && rows_match(pv.tuples@, lv.tuples@),
        _ => false,
    }
}

/// The physical tree is the structural image of the logical tree:
/// at every node the corresponding operator, the same number of children,
/// in the same order.
pub open spec fn maps_to(l: LogicalPlan, p: PhysicalPlan) -> bool
    decreases l,
{
    &&& op_maps_to(l.operator, p.operator)
    &&& p.children@.len() == l.children@.len()
    &&& forall|i: int|
        0 <= i < l.children@.len() ==> maps_to(*l.children@[i], *p.children@[i])
}

/// `s` is `p` itself or a node somewhere under `p`.
pub open spec fn subplan_of(s: LogicalPlan, p: LogicalPlan) -> bool
    decreases p,
{
    s == p || (exists|i: int| 0 <= i < p.children@.len() && subplan_of(s, *p.children@[i]))
}

/// A plan that holds, anywhere in its tree, one operator without a physical
/// mapping — a `Scan`, `Filter`, `Project`, `Join`, `Sort`, `Limit`,
/// `CreateTable` or `CreateIndex` node — is not mapped as a whole, so
/// [`Optimizer::find_best`] refuses it and returns no partial tree.
pub proof fn lemma_unmapped_node_unmapped_plan(s: &LogicalPlan, p: &LogicalPlan)
    requires
        subplan_of(*s, *p),
        !op_mapped(s.operator),
    ensures
        !plan_mapped(*p),
    decreases *p,
{
    if *s == *p {
    } else {
        let i = choose|i: int| 0 <= i < p.children@.len() && subplan_of(*s, *p.children@[i]);
        lemma_unmapped_node_unmapped_plan(s, &*p.children@[i]);
    }
}

/// Every plan the planner produces for an `INSERT` statement is built of
/// mapped operators only, so the optimizer accepts it: planning and
/// optimization compose without failure.
pub proof fn lemma_insert_plan_mapped(stmt: BoundInsertStatement, p: LogicalPlan)
    requires
        is_insert_plan(stmt, p),
    ensures
        plan_mapped(p),
{
    assert(plan_mapped(*p.children@[0]));
}

/// Turns one logical plan into the physical plan the execution engine runs.
pub struct Optimizer {
    logical_plan: Arc<LogicalPlan>,
}

impl Optimizer {
    /// The logical plan this optimizer was built over.
    pub closed spec fn input(self) -> LogicalPlan {
        *self.logical_plan
    }

    /// Builds an optimizer over a shared logical plan root.
    pub fn new(logical_plan: Arc<LogicalPlan>) -> (r: Self)
        ensures
            r.input() == *logical_plan,
    {
        Self { logical_plan }
    }

    /// Produces the physical plan for the logical plan given at construction.
    ///
    /// Succeeds exactly when every operator in the tree is a mapped variant,
    /// and then returns the structural 1:1 image; otherwise it returns
    /// [`PlanError::UnsupportedOperator`] and no tree at all.
    pub fn find_best(&self) -> (r: Result<PhysicalPlan, PlanError>)
        ensures
            r matches Ok(p) ==> plan_mapped(self.input()) && maps_to(self.input(), p),
            r matches Err(e) ==> e == PlanError::UnsupportedOperator && !plan_mapped(self.input()),
    {
        let physical_node = match Self::build_physical_node(self.logical_plan.clone()) {
            Ok(node) => node,
            Err(e) => {
                return Err(e);
            },
        };
        Self::build_physical_plan(physical_node, self.logical_plan.clone())
    }

    /// Maps one node's operator, leaving the children to be rebuilt.
    fn build_physical_node(logical_node: Arc<LogicalPlan>) -> (r: Result<PhysicalPlan, PlanError>)
        ensures
            r matches Ok(p) ==> op_mapped((*logical_node).operator) && op_maps_to(
                (*logical_node).operator,
                p.operator,
            ) && p.children@.len() == 0,
            r matches Err(e) ==> e == PlanError::UnsupportedOperator && !op_mapped(
                (*logical_node).operator,
            ),
    {
        match logical_node.operator {
            LogicalOperator::Dummy => Ok(PhysicalPlan::dummy()),
            LogicalOperator::Insert(ref logic_insert) => Ok(
                PhysicalPlan::new_insert_node(&logic_insert.table_name, &logic_insert.columns),
            ),
            LogicalOperator::Values(ref logical_values) => Ok(
                PhysicalPlan::new_values_node(&logical_values.columns, &logical_values.tuples),
            ),
            _ => Err(PlanError::UnsupportedOperator),
        }
    }

    /// Rebuilds the logical node's subtrees as children of the already
    /// mapped physical node, appended in unchanged order.
    fn build_physical_plan(physical_plan: PhysicalPlan, logical_plan: Arc<LogicalPlan>) -> (r:
        Result<PhysicalPlan, PlanError>)
        ensures
            r matches Ok(p) ==> (forall|i: int|
                0 <= i < (*logical_plan).children@.len() ==> plan_mapped(
                    *(*logical_plan).children@[i],
                )) && p.operator == physical_plan.operator && p.children@.len()
                == physical_plan.children@.len() + (*logical_plan).children@.len() && (forall|
                i: int,
            |
                0 <= i < physical_plan.children@.len() ==> p.children@[i]
                    == physical_plan.children@[i]) && (forall|i: int|
                0 <= i < (*logical_plan).children@.len() ==> maps_to(
                    *(*logical_plan).children@[i],
                    *p.children@[physical_plan.children@.len() + i],
                )),
            r matches Err(e) ==> e == PlanError::UnsupportedOperator && !(forall|i: int|
                0 <= i < (*logical_plan).children@.len() ==> plan_mapped(
                    *(*logical_plan).children@[i],
                )),
        decreases *logical_plan,
    {
        let mut physical_plan = physical_plan;
        let ghost init = physical_plan;
        let n = logical_plan.children.len();
        let mut idx: usize = 0;
        while idx < n
            invariant
                idx <= n,
                n == (*logical_plan).children@.len(),
                physical_plan.operator == init.operator,
                physical_plan.children@.len() == init.children@.len() + idx,
                forall|i: int|
                    0 <= i < init.children@.len() ==> physical_plan.children@[i]
                        == init.children@[i],
                forall|i: int|
                    0 <= i < idx ==> plan_mapped(*(*logical_plan).children@[i]) && maps_to(
                        *(*logical_plan).children@[i],
                        *physical_plan.children@[init.children@.len() + i],
                    ),
            decreases n - idx,
        {
            let logical_child = logical_plan.children[idx].clone();
            let physical_child = match Self::build_physical_node(logical_child.clone()) {
                Ok(node) => node,
                Err(e) => {
                    return Err(e);
                },
            };
            let sub = match Self::build_physical_plan(physical_child, logical_child.clone()) {
                Ok(p) => p,
                Err(e) => {
                    return Err(e);
                },
            };
            physical_plan.children.push(Arc::new(sub));
            idx = idx + 1;
        }
        Ok(physical_plan)
    }
}

} // verus!
