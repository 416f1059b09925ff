//! What holds of every analysis, proved from the typing rules.
//!
//! The laws are sorted by what they are about: the scopes and the function
//! tables, the operands of binary nodes, and the kinds that are left once a
//! program is corrected.

use vstd::prelude::*;
use crate::analysis::{AnalyzedExprView, TypedExprView};

pub mod scopes;
pub mod operands;
pub mod settling;

verus! {

/// Whether `p` holds of `t` and of every node below it.
pub open spec fn every_node(t: TypedExprView, p: spec_fn(TypedExprView) -> bool) -> bool
    decreases t,
{
    p(t) && match t.expr {
        AnalyzedExprView::Literal(_) => true,
        AnalyzedExprView::Id(_) => true,
        AnalyzedExprView::BinaryExpr { op, left, right } => every_node(*left, p) && every_node(
            *right,
            p,
        ),
        AnalyzedExprView::VarDeclare { name, val } => every_node(*val, p),
        AnalyzedExprView::VarAssign { name, val } => every_node(*val, p),
        AnalyzedExprView::FnCall { name, args } => every_node_in(args, p),
        AnalyzedExprView::If { cond, body, alt } => every_node(*cond, p) && every_node_in(body, p)
            && match alt {
            Some(a) => every_node(*a, p),
            None => true,
        },
        AnalyzedExprView::Block(ts) => every_node_in(ts, p),
        AnalyzedExprView::RetExpr(inner) => every_node(*inner, p),
        AnalyzedExprView::Discard(inner) => every_node(*inner, p),
        AnalyzedExprView::As(inner) => every_node(*inner, p),
        AnalyzedExprView::Import { .. } => true,
        AnalyzedExprView::Debug(_, _, _) => true,
        AnalyzedExprView::Func { ret, name, args, body } => every_node_in(body, p),
    }
}

/// Whether `p` holds of every node of every tree of the run.
pub open spec fn every_node_in(ts: Seq<TypedExprView>, p: spec_fn(TypedExprView) -> bool) -> bool
    decreases ts,
{
    forall|i: int| 0 <= i < ts.len() ==> every_node(#[trigger] ts[i], p)
}

} // verus!
