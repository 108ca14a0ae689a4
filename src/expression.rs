//! Routing expressions carried by exchange boundaries.
//!
//! The scheduler never evaluates an expression: it only copies it into the
//! tasks it emits, so all this module offers is a model and a faithful copy.
use vstd::prelude::*;

verus! {

/// An opaque routing expression: a constant, a column, or a function applied
/// to columns.
#[derive(Debug, PartialEq, Eq)]
pub enum Expression {
    Literal(u64),
    Column(String),
    Function { op: String, args: Vec<String> },
}

/// Mathematical model of an [`Expression`].
pub enum ExprView {
    Literal(u64),
    Column(Seq<char>),
    Function(Seq<char>, Seq<Seq<char>>),
}

/// The models of a list of strings.
pub open spec fn names_view(v: Seq<String>) -> Seq<Seq<char>> {
    v.map_values(|s: String| s@)
}

impl View for Expression {
    type V = ExprView;

    open spec fn view(&self) -> ExprView {
        match self {
            Expression::Literal(v) => ExprView::Literal(*v),
            Expression::Column(c) => ExprView::Column(c@),
            Expression::Function { op, args } => ExprView::Function(op@, names_view(args@)),
        }
    }
}

/// Copies a list of strings.
pub fn copy_names(v: &Vec<String>) -> (r: Vec<String>)
    ensures
        names_view(r@) == names_view(v@),
{
    let mut out: Vec<String> = Vec::new();
    let mut i: usize = 0;
    while i < v.len()
        invariant
            i <= v.len(),
            out.len() == i,
            forall|j: int| 0 <= j < i ==> #[trigger] out[j]@ == v[j]@,
        decreases v.len() - i,
    {
        out.push(v[i].clone());
        i = i + 1;
    }
    assert(names_view(out@) =~= names_view(v@));
    out
}

impl Expression {
    /// A copy with the same model.
    pub fn duplicate(&self) -> (r: Expression)
        ensures
            r@ == self@,
    {
        match self {
            Expression::Literal(v) => Expression::Literal(*v),
            Expression::Column(c) => Expression::Column(c.clone()),
            Expression::Function { op, args } => Expression::Function {
                op: op.clone(),
                args: copy_names(args),
            },
        }
    }
}

} // verus!
