use std::sync::Arc;

use query_planner::catalog::{Column, ColumnRef, DataType, ScalarValue};
use query_planner::error::PlanError;
use query_planner::operator::LogicalOperator;
use query_planner::planner::Planner;
use query_planner::statement::{BoundInsertStatement, BoundStatement, BoundTableRef};

fn col(name: &str) -> ColumnRef {
    Arc::new(Column::new(name.to_string(), DataType::Integer))
}

fn insert_t_ab() -> BoundStatement {
    BoundStatement::Insert(BoundInsertStatement::new(
        BoundTableRef::new("t".to_string()),
        vec![col("a"), col("b")],
        vec![
            vec![ScalarValue::Integer(1), ScalarValue::Integer(2)],
            vec![ScalarValue::Integer(3), ScalarValue::Integer(4)],
        ],
    ))
}

#[test]
fn plan_insert_builds_insert_over_values() {
    let mut planner = Planner {};
    let plan = planner.plan(insert_t_ab()).expect("insert must plan");

    match &plan.operator {
        LogicalOperator::Insert(ins) => {
            assert_eq!(ins.table_name, "t");
            assert_eq!(ins.columns.len(), 2);
            assert_eq!(ins.columns[0].name, "a");
            assert_eq!(ins.columns[1].name, "b");
        }
        other => panic!("expected Insert root, got {:?}", other),
    }

    assert_eq!(plan.children.len(), 1);
    let child = &plan.children[0];
    match &child.operator {
        LogicalOperator::Values(vals) => {
            assert_eq!(vals.columns.len(), 2);
            assert_eq!(vals.columns[0].name, "a");
            assert_eq!(vals.columns[1].name, "b");
            assert_eq!(
                vals.tuples,
                vec![
                    vec![ScalarValue::Integer(1), ScalarValue::Integer(2)],
                    vec![ScalarValue::Integer(3), ScalarValue::Integer(4)],
                ]
            );
        }
        other => panic!("expected Values child, got {:?}", other),
    }
    assert_eq!(child.children.len(), 0);
}

#[test]
fn plan_insert_preserves_row_order() {
    let mut planner = Planner {};
    let rows = vec![
        vec![ScalarValue::Integer(9)],
        vec![ScalarValue::Integer(7)],
        vec![ScalarValue::Integer(8)],
    ];
    let stmt = BoundStatement::Insert(BoundInsertStatement::new(
        BoundTableRef::new("t".to_string()),
        vec![col("a")],
        rows.clone(),
    ));
    let plan = planner.plan(stmt).expect("insert must plan");
    match &plan.children[0].operator {
        LogicalOperator::Values(vals) => assert_eq!(vals.tuples, rows),
        other => panic!("expected Values child, got {:?}", other),
    }
}

#[test]
fn plan_rejects_every_other_statement_kind() {
    let mut planner = Planner {};
    for stmt in [
        BoundStatement::Select,
        BoundStatement::Update,
        BoundStatement::Delete,
        BoundStatement::CreateTable,
        BoundStatement::CreateIndex,
    ] {
        match planner.plan(stmt) {
            Err(e) => assert_eq!(e, PlanError::UnsupportedStatement),
            Ok(p) => panic!("expected UnsupportedStatement, got plan {:?}", p),
        }
    }
}

#[test]
fn plan_error_messages() {
    assert_eq!(
        PlanError::UnsupportedStatement.message(),
        "statement not supported"
    );
    assert_eq!(
        PlanError::UnsupportedOperator.message(),
        "operator not supported by optimizer"
    );
    assert_eq!(
        PlanError::InvalidOperatorConfiguration.message(),
        "invalid operator configuration"
    );
}
