//! Bound statements: the opaque, already-validated statement representation
//! that an external binder hands to the planner.
//!
//! The planner only consumes the variants it supports; every other variant is
//! rejected with an explicit failure rather than an abort.

use vstd::prelude::*;
use crate::catalog::{ColumnRef, ScalarValue};

verus! {

/// A resolved reference to a base table.
#[derive(Clone, Debug, PartialEq, Eq)]
pub struct BoundTableRef {
    /// The table's name.
    pub table: String,
}

/// A bound `INSERT` statement: the target table, the target columns in
/// order, and the literal rows to insert, each row in column order.
#[derive(Clone, Debug, PartialEq, Eq)]
pub struct BoundInsertStatement {
    pub table: BoundTableRef,
    pub columns: Vec<ColumnRef>,
    pub values: Vec<Vec<ScalarValue>>,
}

/// A statement after binding, dispatched on by the planner.
///
/// Only `Insert` carries its payload here; the other variants stand for
/// statement kinds the planner cannot handle yet and rejects whole.
#[derive(Clone, Debug, PartialEq, Eq)]
pub enum BoundStatement {
    Insert(BoundInsertStatement),
    Select,
    Update,
    Delete,
    CreateTable,
    CreateIndex,
}

impl BoundTableRef {
    /// Builds a table reference from the table's name.
    pub fn new(table: String) -> (r: BoundTableRef)
        ensures
            r.table == table,
    {
        BoundTableRef { table }
    }
}

impl BoundInsertStatement {
    /// Builds a bound insert from its target table, columns and rows.
    pub fn new(table: BoundTableRef, columns: Vec<ColumnRef>, values: Vec<Vec<ScalarValue>>) -> (r:
        BoundInsertStatement)
        ensures
            r.table == table,
            r.columns == columns,
            r.values == values,
    {
        BoundInsertStatement { table, columns, values }
    }
}

} // verus!
