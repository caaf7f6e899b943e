//! Catalog-side values the planner consumes: column definitions, schemas and
//! the scalar values that literal rows carry.
//!
//! Schemas and column definitions are shared by reference count, never deep
//! copied: a plan may point at the same schema from several places.

use vstd::prelude::*;
use std::sync::Arc;

verus! {

/// Identifier of a base table in the catalog.
pub type TableOid = u32;

/// The value type of one column.
#[derive(Clone, Copy, Debug, PartialEq, Eq, Structural)]
pub enum DataType {
    Boolean,
    Integer,
    Varchar,
}

/// One column definition: a name and a value type.
#[derive(Clone, Debug, PartialEq, Eq)]
pub struct Column {
    pub name: String,
    pub data_type: DataType,
}

/// Shared, immutable handle to a column definition.
pub type ColumnRef = Arc<Column>;

/// The ordered column definitions describing a row shape.
#[derive(Clone, Debug, PartialEq, Eq)]
pub struct Schema {
    pub columns: Vec<Column>,
}

/// Shared, immutable handle to a schema.
pub type SchemaRef = Arc<Schema>;

/// A literal scalar value carried by a row of a `VALUES` source.
#[derive(Clone, Copy, Debug, PartialEq, Eq, Structural)]
pub enum ScalarValue {
    Null,
    Boolean(bool),
    Integer(i64),
}

impl Column {
    /// Builds a column definition from its name and value type.
    pub fn new(name: String, data_type: DataType) -> (r: Column)
        ensures
            r.name == name,
            r.data_type == data_type,
    {
        Column { name, data_type }
    }
}

/// Copies a list of column handles; each handle still points at the same
/// shared column definition, so no definition is duplicated.
pub(crate) fn clone_column_refs(columns: &Vec<ColumnRef>) -> (r: Vec<ColumnRef>)
    ensures
        r@ == columns@,
{
    let mut r: Vec<ColumnRef> = Vec::new();
    let mut i: usize = 0;
    while i < columns.len()
        invariant
            i <= columns@.len(),
            r@.len() == i,
            forall|j: int| 0 <= j < i ==> r@[j] == columns@[j],
        decreases columns@.len() - i,
    {
        r.push(columns[i].clone());
        i = i + 1;
    }
    proof {
        assert(r@ =~= columns@);
    }
    r
}

impl Schema {
    /// Builds a schema from its ordered column definitions.
    pub fn new(columns: Vec<Column>) -> (r: Schema)
        ensures
            r.columns == columns,
    {
        Schema { columns }
    }
}

} // verus!
