//! The logical operator algebra: a closed set of operator variants, each an
//! immutable value carrying kind-specific attributes, with one dedicated
//! constructor per variant.

use vstd::prelude::*;
use crate::catalog::{ColumnRef, ScalarValue, Schema, SchemaRef, TableOid};
use crate::error::PlanError;
use crate::expression::{BoundOrderBy, Expr, JoinType};

verus! {

/// DDL: create a table with the given schema.
#[derive(Clone, Debug)]
pub struct LogicalCreateTableOperator {
    pub table_name: String,
    pub schema: Schema,
}

/// DDL: create an index on a table.
///
/// The table's schema is held as a shared reference so that several index
/// definitions on one table share the same schema value instead of copying it.
#[derive(Clone, Debug)]
pub struct LogicalCreateIndexOperator {
    pub index_name: String,
    pub table_name: String,
    pub table_schema: SchemaRef,
    pub key_attrs: Vec<u32>,
}

/// Write the rows produced by the sole child into a table.
#[derive(Clone, Debug)]
pub struct LogicalInsertOperator {
    pub table_name: String,
    pub columns: Vec<ColumnRef>,
}

/// A literal row source: column references and the rows themselves.
#[derive(Clone, Debug)]
pub struct LogicalValuesOperator {
    pub columns: Vec<ColumnRef>,
    pub tuples: Vec<Vec<ScalarValue>>,
}

/// Read a base table, projecting the given columns.
#[derive(Clone, Debug)]
pub struct LogicalScanOperator {
    pub table_oid: TableOid,
    pub columns: Vec<ColumnRef>,
}

/// Keep only the input rows on which the predicate holds.
#[derive(Clone, Debug)]
pub struct LogicalFilterOperator {
    pub predicate: Expr,
}

/// Compute the given output expressions over each input row.
#[derive(Clone, Debug)]
pub struct LogicalProjectOperator {
    pub expressions: Vec<Expr>,
}

/// Join the two children under the given kind and optional condition.
#[derive(Clone, Debug)]
pub struct LogicalJoinOperator {
    pub join_type: JoinType,
    pub condition: Option<Expr>,
}

/// Order the input rows by the given keys.
#[derive(Clone, Debug)]
pub struct LogicalSortOperator {
    pub order_bys: Vec<BoundOrderBy>,
}

/// Pass at most `limit` rows, after skipping `offset` rows.
#[derive(Clone, Debug)]
pub struct LogicalLimitOperator {
    pub limit: Option<usize>,
    pub offset: Option<usize>,
}

/// One logical plan node's computation kind with its attributes.
#[derive(Clone, Debug)]
pub enum LogicalOperator {
    /// Sentinel placeholder root.
    Dummy,
    CreateTable(LogicalCreateTableOperator),
    CreateIndex(LogicalCreateIndexOperator),
    Filter(LogicalFilterOperator),
    Join(LogicalJoinOperator),
    Project(LogicalProjectOperator),
    Scan(LogicalScanOperator),
    Sort(LogicalSortOperator),
    Limit(LogicalLimitOperator),
    Insert(LogicalInsertOperator),
    Values(LogicalValuesOperator),
}

impl LogicalCreateIndexOperator {
    /// Builds the create-index attributes; the schema handle is stored as
    /// given, shared, never copied.
    pub fn new(
        index_name: String,
        table_name: String,
        table_schema: SchemaRef,
        key_attrs: Vec<u32>,
    ) -> (r: LogicalCreateIndexOperator)
        ensures
            r.index_name == index_name,
            r.table_name == table_name,
            r.table_schema == table_schema,
            r.key_attrs == key_attrs,
    {
        LogicalCreateIndexOperator { index_name, table_name, table_schema, key_attrs }
    }
}

impl LogicalOperator {
    /// Builds a `CreateTable` operator over the given table name and schema.
    pub fn new_create_table_operator(table_name: String, schema: Schema) -> (r: LogicalOperator)
        ensures
            r matches LogicalOperator::CreateTable(op) && op.table_name == table_name
                && op.schema == schema,
    {
        LogicalOperator::CreateTable(LogicalCreateTableOperator { table_name, schema })
    }

    /// Builds a `CreateIndex` operator.
    ///
    /// The key-attribute list must be non-empty: an index over no columns is
    /// structurally invalid, and the failure is reported here, at the point
    /// of construction, rather than during a later tree traversal.
    pub fn new_create_index_operator(
        index_name: String,
        table_name: String,
        table_schema: SchemaRef,
        key_attrs: Vec<u32>,
    ) -> (r: Result<LogicalOperator, PlanError>)
        ensures
            key_attrs@.len() > 0 ==> (r matches Ok(lop) && lop matches
                LogicalOperator::CreateIndex(op) && op.index_name == index_name && op.table_name
                == table_name && op.table_schema == table_schema && op.key_attrs == key_attrs),
            key_attrs@.len() == 0 ==> (r matches Err(e) && e
                == PlanError::InvalidOperatorConfiguration),
    {
        if key_attrs.len() == 0 {
            Err(PlanError::InvalidOperatorConfiguration)
        } else {
            Ok(
                LogicalOperator::CreateIndex(
                    LogicalCreateIndexOperator::new(
                        index_name,
                        table_name,
                        table_schema,
                        key_attrs,
                    ),
                ),
            )
        }
    }

    /// Builds an `Insert` operator over the given table and target columns.
    pub fn new_insert_operator(table_name: String, columns: Vec<ColumnRef>) -> (r: LogicalOperator)
        ensures
            r matches LogicalOperator::Insert(op) && op.table_name == table_name && op.columns
                == columns,
    {
        LogicalOperator::Insert(LogicalInsertOperator { table_name, columns })
    }

    /// Builds a `Values` operator over the given columns and literal rows.
    pub fn new_values_operator(columns: Vec<ColumnRef>, tuples: Vec<Vec<ScalarValue>>) -> (r:
        LogicalOperator)
        ensures
            r matches LogicalOperator::Values(op) && op.columns == columns && op.tuples == tuples,
    {
        LogicalOperator::Values(LogicalValuesOperator { columns, tuples })
    }

    /// Builds a `Scan` operator over the given table and projected columns.
    pub fn new_scan_operator(table_oid: TableOid, columns: Vec<ColumnRef>) -> (r: LogicalOperator)
        ensures
            r matches LogicalOperator::Scan(op) && op.table_oid == table_oid && op.columns
                == columns,
    {
        LogicalOperator::Scan(LogicalScanOperator { table_oid, columns })
    }

    /// Builds a `Project` operator over the given output expressions.
    pub fn new_project_operator(expressions: Vec<Expr>) -> (r: LogicalOperator)
        ensures
            r matches LogicalOperator::Project(op) && op.expressions == expressions,
    {
        LogicalOperator::Project(LogicalProjectOperator { expressions })
    }

    /// Builds a `Filter` operator over the given predicate.
    pub fn new_filter_operator(predicate: Expr) -> (r: LogicalOperator)
        ensures
            r matches LogicalOperator::Filter(op) && op.predicate == predicate,
    {
        LogicalOperator::Filter(LogicalFilterOperator { predicate })
    }

    /// Builds a `Limit` operator from an optional row limit and offset.
    pub fn new_limit_operator(limit: Option<usize>, offset: Option<usize>) -> (r: LogicalOperator)
        ensures
            r matches LogicalOperator::Limit(op) && op.limit == limit && op.offset == offset,
    {
        LogicalOperator::Limit(LogicalLimitOperator { limit, offset })
    }

    /// Builds a `Join` operator from its kind and optional condition.
    pub fn new_join_operator(join_type: JoinType, condition: Option<Expr>) -> (r: LogicalOperator)
        ensures
            r matches LogicalOperator::Join(op) && op.join_type == join_type && op.condition
                == condition,
    {
        LogicalOperator::Join(LogicalJoinOperator { join_type, condition })
    }

    /// Builds a `Sort` operator over the given sort requirements.
    pub fn new_sort_operator(order_bys: Vec<BoundOrderBy>) -> (r: LogicalOperator)
        ensures
            r matches LogicalOperator::Sort(op) && op.order_bys == order_bys,
    {
        LogicalOperator::Sort(LogicalSortOperator { order_bys })
    }
}

} // verus!
