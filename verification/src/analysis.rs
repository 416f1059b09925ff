//! Type inference over the syntax tree.
//!
//! The analyzer walks the untyped tree once, gives every node a kind,
//! inserts the coercions that binary operators ask for, and keeps the
//! scoped environment in step. A second walk settles the calls whose callee
//! was not yet typed when they were met.

use vstd::prelude::*;
use vstd::string::*;
use crate::source::{ATErr, ATErrView, ConstType, ErrKind, Ident, IdentView};
use crate::parser::ast::{Literal, LiteralView};
use crate::analysis::env::{Env, EnvView};
use crate::text::reads;

pub mod env;
pub mod typing;
pub mod analysis;
pub mod correct;
pub mod laws;

verus! {

/// A node of the typed tree: what it is and the kind it was given.
#[derive(Debug, PartialEq)]
pub struct TypedExpr {
    pub expr: AnalyzedExpr,
    pub ty: ConstType,
}

/// The shapes of the typed tree.
#[derive(Debug, PartialEq)]
pub enum AnalyzedExpr {
    Literal(Literal),
    Id(String),
    BinaryExpr { op: String, left: Box<TypedExpr>, right: Box<TypedExpr> },
    VarDeclare { name: String, val: Box<TypedExpr> },
    VarAssign { name: String, val: Box<TypedExpr> },
    FnCall { name: String, args: Vec<TypedExpr> },
    If { cond: Box<TypedExpr>, body: Vec<TypedExpr>, alt: Option<Box<TypedExpr>> },
    Block(Vec<TypedExpr>),
    RetExpr(Box<TypedExpr>),
    Discard(Box<TypedExpr>),
    /// The operand coerced to the kind of the node that holds this.
    As(Box<TypedExpr>),
    Import { module: String, name: String, args: Vec<ConstType> },
    Debug(String, u32, u32),
    Func { ret: ConstType, name: String, args: Vec<Ident>, body: Vec<TypedExpr> },
}

/// The mathematical value of a [`TypedExpr`].
pub struct TypedExprView {
    pub expr: AnalyzedExprView,
    pub ty: ConstType,
}

/// The mathematical value of an [`AnalyzedExpr`].
pub enum AnalyzedExprView {
    Literal(LiteralView),
    Id(Seq<char>),
    BinaryExpr { op: Seq<char>, left: Box<TypedExprView>, right: Box<TypedExprView> },
    VarDeclare { name: Seq<char>, val: Box<TypedExprView> },
    VarAssign { name: Seq<char>, val: Box<TypedExprView> },
    FnCall { name: Seq<char>, args: Seq<TypedExprView> },
    If { cond: Box<TypedExprView>, body: Seq<TypedExprView>, alt: Option<Box<TypedExprView>> },
    Block(Seq<TypedExprView>),
    RetExpr(Box<TypedExprView>),
    Discard(Box<TypedExprView>),
    As(Box<TypedExprView>),
    Import { module: Seq<char>, name: Seq<char>, args: Seq<ConstType> },
    Debug(Seq<char>, u32, u32),
    Func { ret: ConstType, name: Seq<char>, args: Seq<IdentView>, body: Seq<TypedExprView> },
}

/// The value of one typed node.
pub open spec fn typed_view(t: TypedExpr) -> TypedExprView
    decreases t,
{
    TypedExprView { expr: analyzed_view(t.expr), ty: t.ty }
}

/// The value of one shape of the typed tree.
pub open spec fn analyzed_view(e: AnalyzedExpr) -> AnalyzedExprView
    decreases e,
{
    match e {
        AnalyzedExpr::Literal(l) => AnalyzedExprView::Literal(l@),
        AnalyzedExpr::Id(name) => AnalyzedExprView::Id(name@),
        AnalyzedExpr::BinaryExpr { op, left, right } => AnalyzedExprView::BinaryExpr {
            op: op@,
            left: Box::new(typed_view(*left)),
            right: Box::new(typed_view(*right)),
        },
        AnalyzedExpr::VarDeclare { name, val } => AnalyzedExprView::VarDeclare {
            name: name@,
            val: Box::new(typed_view(*val)),
        },
        AnalyzedExpr::VarAssign { name, val } => AnalyzedExprView::VarAssign {
            name: name@,
            val: Box::new(typed_view(*val)),
        },
        AnalyzedExpr::FnCall { name, args } => AnalyzedExprView::FnCall {
            name: name@,
            args: typed_views(args@),
        },
        AnalyzedExpr::If { cond, body, alt } => AnalyzedExprView::If {
            cond: Box::new(typed_view(*cond)),
            body: typed_views(body@),
            alt: match alt {
                Some(a) => Some(Box::new(typed_view(*a))),
                None => None,
            },
        },
        AnalyzedExpr::Block(es) => AnalyzedExprView::Block(typed_views(es@)),
        AnalyzedExpr::RetExpr(e) => AnalyzedExprView::RetExpr(Box::new(typed_view(*e))),
        AnalyzedExpr::Discard(e) => AnalyzedExprView::Discard(Box::new(typed_view(*e))),
        AnalyzedExpr::As(e) => AnalyzedExprView::As(Box::new(typed_view(*e))),
        AnalyzedExpr::Import { module, name, args } => AnalyzedExprView::Import {
            module: module@,
            name: name@,
            args: args@,
        },
        AnalyzedExpr::Debug(text, line, column) => AnalyzedExprView::Debug(text@, line, column),
        AnalyzedExpr::Func { ret, name, args, body } => AnalyzedExprView::Func {
            ret,
            name: name@,
            args: crate::parser::idents_view(args@),
            body: typed_views(body@),
        },
    }
}

/// The values of a run of typed nodes, in order.
pub open spec fn typed_views(ts: Seq<TypedExpr>) -> Seq<TypedExprView>
    decreases ts,
{
    Seq::new(
        ts.len(),
        |i: int|
            if 0 <= i < ts.len() {
                typed_view(ts[i])
            } else {
                arbitrary()
            },
    )
}

impl View for TypedExpr {
    type V = TypedExprView;

    open spec fn view(&self) -> TypedExprView {
        typed_view(*self)
    }
}

impl View for AnalyzedExpr {
    type V = AnalyzedExprView;

    open spec fn view(&self) -> AnalyzedExprView {
        analyzed_view(*self)
    }
}

/// An analyzer: the scoped environment, the position last seen in the
/// source, and the diagnostics reported so far.
pub struct Analyzer {
    pub env: Env,
    pub line: u32,
    pub column: u32,
    pub diagnostics: Vec<ATErr>,
}

/// The mathematical value of an [`Analyzer`].
pub struct AnalyzerView {
    pub env: EnvView,
    pub line: u32,
    pub column: u32,
    pub diagnostics: Seq<ATErrView>,
}

/// The values of a run of diagnostics, in order.
pub open spec fn diagnostics_view(ds: Seq<ATErr>) -> Seq<ATErrView> {
    Seq::new(ds.len(), |i: int| ds[i]@)
}

impl View for Analyzer {
    type V = AnalyzerView;

    open spec fn view(&self) -> AnalyzerView {
        AnalyzerView {
            env: self.env@,
            line: self.line,
            column: self.column,
            diagnostics: diagnostics_view(self.diagnostics@),
        }
    }
}

impl AnalyzerView {
    /// A fresh analyzer: an empty root scope, at the start of the source,
    /// nothing reported.
    pub open spec fn fresh() -> AnalyzerView {
        AnalyzerView { env: EnvView::root(), line: 0, column: 0, diagnostics: Seq::empty() }
    }

    /// This analyzer with `env` for its environment.
    pub open spec fn with_env(self, env: EnvView) -> AnalyzerView {
        AnalyzerView { env, ..self }
    }

    /// This analyzer moved to a position in the source.
    pub open spec fn at(self, line: u32, column: u32) -> AnalyzerView {
        AnalyzerView { line, column, ..self }
    }

    /// This analyzer after reporting a failure at its current position.
    pub open spec fn report(self, kind: ErrKind, msg: Seq<char>) -> AnalyzerView {
        AnalyzerView {
            diagnostics: self.diagnostics.push(
                ATErrView { kind, msg, line: self.line, column: self.column },
            ),
            ..self
        }
    }
}

/// The elements of `v`, last first.
pub(crate) fn reversed<T>(v: Vec<T>) -> (r: Vec<T>)
    ensures
        r@ == v@.reverse(),
{
    let mut v = v;
    let ghost all = v@;
    let mut r: Vec<T> = Vec::new();
    while v.len() > 0
        invariant
            v.len() + r.len() == all.len(),
            v@ == all.take(v.len() as int),
            forall|j: int| 0 <= j < r.len() ==> r[j] == all[all.len() - 1 - j],
        decreases v.len(),
    {
        let x = v.pop().unwrap();
        r.push(x);
    }
    assert(r@ =~= all.reverse());
    r
}

/// The kind a body yields: that of its last node, `Void` where it is empty.
pub open spec fn fn_type(body: Seq<TypedExprView>) -> ConstType {
    if body.len() == 0 {
        ConstType::Void
    } else {
        body.last().ty
    }
}

/// The kind a body yields: that of its last node, `Void` where it is empty.
pub fn get_fn_type(body: &Vec<TypedExpr>) -> (ty: ConstType)
    ensures
        ty == fn_type(typed_views(body@)),
{
    if body.len() == 0 {
        ConstType::Void
    } else {
        body[body.len() - 1].ty
    }
}

/// Whether `op` is one of the five comparisons.
pub open spec fn is_comparison(op: Seq<char>) -> bool {
    op == "=="@ || op == "<"@ || op == ">"@ || op == "<="@ || op == ">="@
}

/// Whether `op` is one of the four arithmetic operators.
pub open spec fn is_arithmetic(op: Seq<char>) -> bool {
    op == "+"@ || op == "-"@ || op == "*"@ || op == "/"@
}

/// The operators each kind grants. `Dynamic` grants every operator: what
/// it stands for is settled later. `Void` grants none.
pub open spec fn grants(ty: ConstType, op: Seq<char>) -> bool {
    match ty {
        ConstType::Dynamic => true,
        ConstType::Int | ConstType::Float => is_comparison(op) || is_arithmetic(op),
        ConstType::Str => is_comparison(op) || op == "+"@,
        ConstType::Bool => is_comparison(op),
        ConstType::Void => false,
    }
}

/// Whether `op` is one of the five comparisons.
pub fn comparison(op: &String) -> (b: bool)
    ensures
        b == is_comparison(op@),
{
    reads(op, "==") || reads(op, "<") || reads(op, ">") || reads(op, "<=") || reads(op, ">=")
}

/// Whether a value of kind `ty` may stand to the left of `op`.
pub fn supports_op(ty: &ConstType, op: &String) -> (b: bool)
    ensures
        b == grants(*ty, op@),
{
    match ty {
        ConstType::Dynamic => true,
        ConstType::Int | ConstType::Float => comparison(op) || reads(op, "+") || reads(op, "-")
            || reads(op, "*") || reads(op, "/"),
        ConstType::Str => comparison(op) || reads(op, "+"),
        ConstType::Bool => comparison(op),
        ConstType::Void => false,
    }
}

} // verus!
