//! Logical plan trees, as the scheduler reads and rewrites them.
use vstd::prelude::*;

use crate::expression::{names_view, ExprView, Expression};

verus! {

/// How rows cross an exchange boundary.
#[derive(Debug, Clone, Copy, PartialEq, Eq, Structural)]
pub enum StageKind {
    /// All-to-all reshuffle: every node sends to every node.
    Normal,
    /// Broadcast: the coordinator alone runs the upstream part and fans out.
    Expansive,
    /// Gather: whatever is spread over the cluster comes back to the coordinator.
    Convergent,
}

/// A data source; the scheduler only carries it along.
#[derive(Debug, PartialEq, Eq)]
pub struct ReadSourcePlan {
    pub table: String,
}

/// A pass-through operator with a single input.
#[derive(Debug, PartialEq, Eq)]
pub struct SelectPlan {
    pub input: Box<PlanNode>,
}

/// A pass-through filter with a predicate that is never evaluated here.
#[derive(Debug, PartialEq, Eq)]
pub struct FilterPlan {
    pub predicate: Expression,
    pub input: Box<PlanNode>,
}

/// An exchange boundary: rows produced by `input` are routed with
/// `scatters_expr` according to `kind`.
#[derive(Debug, PartialEq, Eq)]
pub struct StagePlan {
    pub kind: StageKind,
    pub scatters_expr: Expression,
    pub input: Box<PlanNode>,
}

/// A remote fetch: receive the rows that `fetch_nodes` send to the address
/// `fetch_name`.
#[derive(Debug, PartialEq, Eq)]
pub struct RemotePlan {
    pub fetch_name: String,
    pub fetch_nodes: Vec<String>,
}

/// A node of a plan tree.
#[derive(Debug, PartialEq, Eq)]
pub enum PlanNode {
    Empty,
    ReadSource(ReadSourcePlan),
    Select(SelectPlan),
    Filter(FilterPlan),
    Stage(StagePlan),
    Remote(RemotePlan),
}

/// Mathematical model of a [`PlanNode`].
pub enum PlanView {
    Empty,
    ReadSource(Seq<char>),
    Select(Box<PlanView>),
    Filter(ExprView, Box<PlanView>),
    Stage(StageKind, ExprView, Box<PlanView>),
    Remote(Seq<char>, Seq<Seq<char>>),
}

pub open spec fn plan_view(p: &PlanNode) -> PlanView
    decreases p,
{
    match p {
        PlanNode::Empty => PlanView::Empty,
        PlanNode::ReadSource(r) => PlanView::ReadSource(r.table@),
        PlanNode::Select(s) => PlanView::Select(Box::new(plan_view(&s.input))),
        PlanNode::Filter(f) => PlanView::Filter(f.predicate@, Box::new(plan_view(&f.input))),
        PlanNode::Stage(s) => PlanView::Stage(s.kind, s.scatters_expr@, Box::new(plan_view(&s.input))),
        PlanNode::Remote(r) => PlanView::Remote(r.fetch_name@, names_view(r.fetch_nodes@)),
    }
}

impl View for PlanNode {
    type V = PlanView;

    open spec fn view(&self) -> PlanView {
        plan_view(self)
    }
}

} // verus!
