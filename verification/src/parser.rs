//! The shapes that the parser produces.

use vstd::prelude::*;
use crate::source::{Ident, IdentView};
use crate::parser::ast::{Expr, ExprView, exprs_view};

pub mod ast;

verus! {

/// A function definition as parsed.
#[derive(Debug, PartialEq)]
pub struct Function {
    pub name: Ident,
    pub args: Vec<Ident>,
    pub body: Vec<Expr>,
}

/// The mathematical value of a [`Function`].
pub struct FunctionView {
    pub name: IdentView,
    pub args: Seq<IdentView>,
    pub body: Seq<ExprView>,
}

/// The values of a run of identifiers.
pub open spec fn idents_view(s: Seq<Ident>) -> Seq<IdentView> {
    Seq::new(s.len(), |i: int| s[i]@)
}

/// The values of a run of functions, in order.
pub open spec fn functions_view(fs: Seq<Function>) -> Seq<FunctionView> {
    Seq::new(fs.len(), |i: int| fs[i]@)
}

impl View for Function {
    type V = FunctionView;

    open spec fn view(&self) -> FunctionView {
        FunctionView {
            name: self.name@,
            args: idents_view(self.args@),
            body: exprs_view(self.body@),
        }
    }
}

} // verus!
