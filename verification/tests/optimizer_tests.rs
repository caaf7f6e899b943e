use std::sync::Arc;

use query_planner::catalog::{Column, ColumnRef, DataType, ScalarValue};
use query_planner::error::PlanError;
use query_planner::expression::{Expr, JoinType};
use query_planner::logical_plan::LogicalPlan;
use query_planner::operator::LogicalOperator;
use query_planner::optimizer::Optimizer;
use query_planner::physical_plan::PhysicalOperator;
use query_planner::planner::Planner;
use query_planner::statement::{BoundInsertStatement, BoundStatement, BoundTableRef};

fn col(name: &str) -> ColumnRef {
    Arc::new(Column::new(name.to_string(), DataType::Integer))
}

fn leaf(operator: LogicalOperator) -> LogicalPlan {
    LogicalPlan::new(operator, Vec::new())
}

#[test]
fn end_to_end_insert_plans_and_optimizes() {
    // INSERT INTO t (a, b) VALUES (1, 2), (3, 4)
    let stmt = BoundStatement::Insert(BoundInsertStatement::new(
        BoundTableRef::new("t".to_string()),
        vec![col("a"), col("b")],
        vec![
            vec![ScalarValue::Integer(1), ScalarValue::Integer(2)],
            vec![ScalarValue::Integer(3), ScalarValue::Integer(4)],
        ],
    ));
    let mut planner = Planner {};
    let logical = planner.plan(stmt).expect("insert must plan");
    let optimizer = Optimizer::new(Arc::new(logical));
    let physical = optimizer.find_best().expect("mapped tree must optimize");

    match &physical.operator {
        PhysicalOperator::Insert(ins) => {
            assert_eq!(ins.table_name, "t");
            assert_eq!(ins.columns.len(), 2);
            assert_eq!(ins.columns[0].name, "a");
            assert_eq!(ins.columns[1].name, "b");
        }
        other => panic!("expected physical Insert root, got {:?}", other),
    }
    assert_eq!(physical.children.len(), 1);
    let child = &physical.children[0];
    match &child.operator {
        PhysicalOperator::Values(vals) => {
            assert_eq!(vals.columns.len(), 2);
            assert_eq!(vals.columns[0].name, "a");
            assert_eq!(vals.columns[1].name, "b");
            assert_eq!(
                vals.tuples,
                vec![
                    vec![ScalarValue::Integer(1), ScalarValue::Integer(2)],
                    vec![ScalarValue::Integer(3), ScalarValue::Integer(4)],
                ]
            );
        }
        other => panic!("expected physical Values child, got {:?}", other),
    }
    assert_eq!(child.children.len(), 0);
}

#[test]
fn find_best_maps_dummy_leaf() {
    let optimizer = Optimizer::new(Arc::new(leaf(LogicalOperator::Dummy)));
    let physical = optimizer.find_best().expect("dummy must optimize");
    assert!(matches!(physical.operator, PhysicalOperator::Dummy));
    assert_eq!(physical.children.len(), 0);
}

#[test]
fn find_best_preserves_shape_and_order_on_mapped_tree() {
    // Dummy root over two Values leaves, in a fixed order.
    let first = leaf(LogicalOperator::new_values_operator(
        vec![col("a")],
        vec![vec![ScalarValue::Integer(1)]],
    ));
    let second = leaf(LogicalOperator::new_values_operator(
        vec![col("b")],
        vec![vec![ScalarValue::Integer(2)]],
    ));
    let root = LogicalPlan::new(
        LogicalOperator::Dummy,
        vec![Arc::new(first), Arc::new(second)],
    );
    let physical = Optimizer::new(Arc::new(root))
        .find_best()
        .expect("mapped tree must optimize");

    assert!(matches!(physical.operator, PhysicalOperator::Dummy));
    assert_eq!(physical.children.len(), 2);
    match &physical.children[0].operator {
        PhysicalOperator::Values(vals) => {
            assert_eq!(vals.columns[0].name, "a");
            assert_eq!(vals.tuples, vec![vec![ScalarValue::Integer(1)]]);
        }
        other => panic!("expected Values first child, got {:?}", other),
    }
    match &physical.children[1].operator {
        PhysicalOperator::Values(vals) => {
            assert_eq!(vals.columns[0].name, "b");
            assert_eq!(vals.tuples, vec![vec![ScalarValue::Integer(2)]]);
        }
        other => panic!("expected Values second child, got {:?}", other),
    }
    assert_eq!(physical.children[0].children.len(), 0);
    assert_eq!(physical.children[1].children.len(), 0);
}

fn assert_unsupported(plan: LogicalPlan) {
    match Optimizer::new(Arc::new(plan)).find_best() {
        Err(e) => assert_eq!(e, PlanError::UnsupportedOperator),
        Ok(p) => panic!("expected UnsupportedOperator, got plan {:?}", p),
    }
}

#[test]
fn find_best_rejects_each_unmapped_operator() {
    assert_unsupported(leaf(LogicalOperator::new_scan_operator(7, vec![col("a")])));
    assert_unsupported(leaf(LogicalOperator::new_filter_operator(Expr::Constant(
        ScalarValue::Boolean(true),
    ))));
    assert_unsupported(leaf(LogicalOperator::new_project_operator(vec![
        Expr::Column(col("a")),
    ])));
    assert_unsupported(leaf(LogicalOperator::new_join_operator(
        JoinType::Inner,
        None,
    )));
    assert_unsupported(leaf(LogicalOperator::new_sort_operator(Vec::new())));
    assert_unsupported(leaf(LogicalOperator::new_limit_operator(Some(10), None)));
}

#[test]
fn find_best_rejects_unmapped_node_below_mapped_root() {
    // A mapped Insert root over an unmapped Scan child: refused whole, no
    // partial tree comes back.
    let scan = leaf(LogicalOperator::new_scan_operator(3, vec![col("a")]));
    let root = LogicalPlan::new(
        LogicalOperator::new_insert_operator("t".to_string(), vec![col("a")]),
        vec![Arc::new(scan)],
    );
    assert_unsupported(root);
}

#[test]
fn find_best_rejects_unmapped_node_deep_in_tree() {
    let limit = leaf(LogicalOperator::new_limit_operator(None, Some(5)));
    let mid = LogicalPlan::new(LogicalOperator::Dummy, vec![Arc::new(limit)]);
    let ok_leaf = leaf(LogicalOperator::new_values_operator(
        vec![col("a")],
        vec![vec![ScalarValue::Integer(1)]],
    ));
    let root = LogicalPlan::new(
        LogicalOperator::Dummy,
        vec![Arc::new(ok_leaf), Arc::new(mid)],
    );
    assert_unsupported(root);
}
