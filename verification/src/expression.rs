//! Bound scalar expressions and the expression-shaped attributes that
//! operators carry: join kinds and sort requirements.

use vstd::prelude::*;
use crate::catalog::{ColumnRef, ScalarValue};

verus! {

/// A scalar expression, already resolved against the catalog.
#[derive(Clone, Debug, PartialEq, Eq)]
pub enum Expr {
    /// A literal constant.
    Constant(ScalarValue),
    /// A reference to one column of the operator's input.
    Column(ColumnRef),
}

/// The kind of a join.
#[derive(Clone, Copy, Debug, PartialEq, Eq, Structural)]
pub enum JoinType {
    Inner,
    LeftOuter,
    RightOuter,
    FullOuter,
    Cross,
}

/// One sort requirement: a key expression and its direction.
#[derive(Clone, Debug, PartialEq, Eq)]
pub struct BoundOrderBy {
    pub expr: Expr,
    pub desc: bool,
}

impl BoundOrderBy {
    /// Builds a sort requirement from its key expression and direction.
    pub fn new(expr: Expr, desc: bool) -> (r: BoundOrderBy)
        ensures
            r.expr == expr,
            r.desc == desc,
    {
        BoundOrderBy { expr, desc }
    }
}

} // verus!
