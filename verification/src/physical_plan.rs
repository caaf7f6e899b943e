//! The physical plan: the concrete, executable operator tree handed to the
//! execution engine, parallel in shape to the logical plan it came from.

use vstd::prelude::*;
use std::sync::Arc;
use crate::catalog::{clone_column_refs, ColumnRef, ScalarValue};

verus! {

/// Physical insert: write the child's rows into the named table.
#[derive(Clone, Debug)]
pub struct PhysicalInsertOperator {
    pub table_name: String,
    pub columns: Vec<ColumnRef>,
}

/// Physical literal row source.
#[derive(Clone, Debug)]
pub struct PhysicalValuesOperator {
    pub columns: Vec<ColumnRef>,
    pub tuples: Vec<Vec<ScalarValue>>,
}

/// One physical plan node's computation kind with its attributes.
///
/// Only the variants the optimizer can already map from a logical operator
/// exist here; new variants are added together with their mapping.
#[derive(Clone, Debug)]
pub enum PhysicalOperator {
    /// Sentinel placeholder root.
    Dummy,
    Insert(PhysicalInsertOperator),
    Values(PhysicalValuesOperator),
}

/// One node of a physical plan tree, immutable after construction and shared
/// by reference count.
#[derive(Clone, Debug)]
pub struct PhysicalPlan {
    pub operator: PhysicalOperator,
    pub children: Vec<Arc<PhysicalPlan>>,
}

/// Two row lists hold the same rows in the same order.
pub open spec fn rows_match(a: Seq<Vec<ScalarValue>>, b: Seq<Vec<ScalarValue>>) -> bool {
    a.len() == b.len() && (forall|i: int| 0 <= i < a.len() ==> a[i]@ == b[i]@)
}

impl PhysicalPlan {
    /// Builds a childless sentinel node.
    pub fn dummy() -> (r: PhysicalPlan)
        ensures
            r.operator matches PhysicalOperator::Dummy,
            r.children@.len() == 0,
    {
        PhysicalPlan { operator: PhysicalOperator::Dummy, children: Vec::new() }
    }

    /// Builds a childless insert node over the given table and columns.
    pub fn new_insert_node(table_name: &String, columns: &Vec<ColumnRef>) -> (r: PhysicalPlan)
        ensures
            (r.operator matches PhysicalOperator::Insert(op) && op.table_name == *table_name
                && op.columns@ == columns@),
            r.children@.len() == 0,
    {
        PhysicalPlan {
            operator: PhysicalOperator::Insert(
                PhysicalInsertOperator {
                    table_name: table_name.clone(),
                    columns: clone_column_refs(columns),
                },
            ),
            children: Vec::new(),
        }
    }

    /// Builds a childless values node over the given columns and rows.
    pub fn new_values_node(columns: &Vec<ColumnRef>, tuples: &Vec<Vec<ScalarValue>>) -> (r:
        PhysicalPlan)
        ensures
            (r.operator matches PhysicalOperator::Values(op) && op.columns@ == columns@
                && rows_match(op.tuples@, tuples@)),
            r.children@.len() == 0,
    {
        let copied_tuples = tuples.clone();
        proof {
            assert forall|i: int| 0 <= i < tuples@.len() implies copied_tuples@[i]@
                == tuples@[i]@ by {
                assert(vstd::pervasive::cloned::<Vec<ScalarValue>>(tuples[i], copied_tuples[i]));
            }
        }
        PhysicalPlan {
            operator: PhysicalOperator::Values(
                PhysicalValuesOperator {
                    columns: clone_column_refs(columns),
                    tuples: copied_tuples,
                },
            ),
            children: Vec::new(),
        }
    }
}

} // verus!
