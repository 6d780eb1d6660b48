//! The physical plan tree: an immutable tree of operator nodes, each exposing
//! its kind and the children it owns outright, plus the stage that owns one
//! such subtree.

use vstd::prelude::*;

verus! {

/// How two join inputs are matched.
#[derive(Debug, Clone, Copy, PartialEq, Eq, Structural)]
pub enum JoinType {
    Inner,
    Left,
    Right,
    Full,
}

/// A physical scalar expression: a column reference, a literal, a binary
/// operation, or an opaque expression carried as text.
#[derive(Debug, PartialEq)]
pub enum Expr {
    Column { name: String },
    Literal { value: String },
    Binary { left: Box<Expr>, op: String, right: Box<Expr> },
    Other { description: String },
}

/// One aggregate expression: the name of its output field, where one is
/// resolved, and its operand expressions.
#[derive(Debug, PartialEq)]
pub struct AggExpr {
    pub output_field: Option<String>,
    pub operands: Vec<Expr>,
}

/// What an operator node is, apart from its children. The set is closed and
/// extended by adding a variant; a kind this layer does not recognize is
/// carried as `Other` with a generic description.
#[derive(Debug, PartialEq)]
pub enum PlanKind {
    Scan { path: String, partition_count: u64 },
    Filter { predicate: Expr },
    Projection,
    Join { join_type: JoinType, on: Vec<(String, String)> },
    Aggregate { group_exprs: Vec<Expr>, agg_exprs: Vec<AggExpr> },
    Sort,
    CoalesceBatches { target_batch_size: u64 },
    Merge,
    StageBoundary { job_id: String, stage_id: u64 },
    UnresolvedShuffle { upstream_stage_ids: Vec<u64> },
    Other { description: String },
}

/// One node of a physical plan tree.
#[derive(Debug, PartialEq)]
pub struct PlanNode {
    pub kind: PlanKind,
    pub children: Vec<PlanNode>,
}

/// A query stage: its job and stage identity and the plan subtree it owns.
#[derive(Debug, PartialEq)]
pub struct QueryStage {
    pub job_id: String,
    pub stage_id: u64,
    pub plan: PlanNode,
}

} // verus!
