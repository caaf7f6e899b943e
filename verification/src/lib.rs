//! Query planning and optimization layer of a SQL database engine.
//!
//! A bound statement (a SQL statement already resolved against the catalog)
//! is turned by the [`planner::Planner`] into a tree of logical operators,
//! which the [`optimizer::Optimizer`] rebuilds into a tree of physical
//! operators for the execution engine to interpret.

pub mod catalog;
pub mod error;
pub mod expression;
pub mod logical_plan;
pub mod operator;
pub mod optimizer;
pub mod physical_plan;
pub mod planner;
pub mod statement;
