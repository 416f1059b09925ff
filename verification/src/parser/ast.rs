//! The untyped syntax tree.

use vstd::prelude::*;
use crate::source::{ConstType, Ident, IdentView};

verus! {

/// A literal of the source language. A float is kept as the bit pattern of
/// its IEEE-754 single-precision value.
#[derive(Clone, Debug, PartialEq)]
pub enum Literal {
    Int(i32),
    Float(u32),
    Str(String),
    Bool(bool),
}

/// The mathematical value of a [`Literal`].
pub enum LiteralView {
    Int(i32),
    Float(u32),
    Str(Seq<char>),
    Bool(bool),
}

impl LiteralView {
    /// The kind a literal belongs to.
    pub open spec fn get_ty(self) -> ConstType {
        match self {
            LiteralView::Int(_) => ConstType::Int,
            LiteralView::Float(_) => ConstType::Float,
            LiteralView::Str(_) => ConstType::Str,
            LiteralView::Bool(_) => ConstType::Bool,
        }
    }
}

impl View for Literal {
    type V = LiteralView;

    open spec fn view(&self) -> LiteralView {
        match self {
            Literal::Int(n) => LiteralView::Int(*n),
            Literal::Float(bits) => LiteralView::Float(*bits),
            Literal::Str(s) => LiteralView::Str(s@),
            Literal::Bool(b) => LiteralView::Bool(*b),
        }
    }
}

impl Literal {
    /// The kind this literal belongs to.
    pub fn get_ty(&self) -> (ty: ConstType)
        ensures
            ty == self@.get_ty(),
    {
        match self {
            Literal::Int(_) => ConstType::Int,
            Literal::Float(_) => ConstType::Float,
            Literal::Str(_) => ConstType::Str,
            Literal::Bool(_) => ConstType::Bool,
        }
    }
}

/// An expression as parsed, before any type is known.
#[derive(Debug, PartialEq)]
pub enum Expr {
    Literal(Literal),
    Ident(Ident),
    BinaryExpr { op: String, left: Box<Expr>, right: Box<Expr> },
    VarDeclare { name: Ident, val: Box<Expr> },
    VarAssign { name: Ident, val: Box<Expr> },
    FnCall { name: Ident, args: Vec<Expr> },
    IfExpr { condition: Box<Expr>, body: Vec<Expr>, alt: Option<Box<Expr>> },
    Block(Vec<Expr>),
    RetExpr(Box<Expr>),
    Discard(Box<Expr>),
    PosInfo(String, u32, u32),
}

/// The mathematical value of an [`Expr`].
pub enum ExprView {
    Literal(LiteralView),
    Ident(IdentView),
    BinaryExpr { op: Seq<char>, left: Box<ExprView>, right: Box<ExprView> },
    VarDeclare { name: IdentView, val: Box<ExprView> },
    VarAssign { name: IdentView, val: Box<ExprView> },
    FnCall { name: IdentView, args: Seq<ExprView> },
    IfExpr { condition: Box<ExprView>, body: Seq<ExprView>, alt: Option<Box<ExprView>> },
    Block(Seq<ExprView>),
    RetExpr(Box<ExprView>),
    Discard(Box<ExprView>),
    PosInfo(Seq<char>, u32, u32),
}

/// The value of one expression.
pub open spec fn expr_view(e: Expr) -> ExprView
    decreases e,
{
    match e {
        Expr::Literal(l) => ExprView::Literal(l@),
        Expr::Ident(id) => ExprView::Ident(id@),
        Expr::BinaryExpr { op, left, right } => ExprView::BinaryExpr {
            op: op@,
            left: Box::new(expr_view(*left)),
            right: Box::new(expr_view(*right)),
        },
        Expr::VarDeclare { name, val } => ExprView::VarDeclare {
            name: name@,
            val: Box::new(expr_view(*val)),
        },
        Expr::VarAssign { name, val } => ExprView::VarAssign {
            name: name@,
            val: Box::new(expr_view(*val)),
        },
        Expr::FnCall { name, args } => ExprView::FnCall { name: name@, args: exprs_view(args@) },
        Expr::IfExpr { condition, body, alt } => ExprView::IfExpr {
            condition: Box::new(expr_view(*condition)),
            body: exprs_view(body@),
            alt: match alt {
                Some(a) => Some(Box::new(expr_view(*a))),
                None => None,
            },
        },
        Expr::Block(es) => ExprView::Block(exprs_view(es@)),
        Expr::RetExpr(e) => ExprView::RetExpr(Box::new(expr_view(*e))),
        Expr::Discard(e) => ExprView::Discard(Box::new(expr_view(*e))),
        Expr::PosInfo(s, line, column) => ExprView::PosInfo(s@, line, column),
    }
}

/// The values of a run of expressions, in order.
pub open spec fn exprs_view(es: Seq<Expr>) -> Seq<ExprView>
    decreases es,
{
    Seq::new(es.len(), |i: int| if 0 <= i < es.len() { expr_view(es[i]) } else { arbitrary() })
}

impl View for Expr {
    type V = ExprView;

    open spec fn view(&self) -> ExprView {
        expr_view(*self)
    }
}

} // verus!
