//! Types shared by every stage: primitive kinds, identifiers, diagnostics.

use vstd::prelude::*;

verus! {

/// The primitive kinds of the source language. `Dynamic` marks a type that
/// the first pass could not settle.
#[derive(Clone, Copy, Debug, PartialEq, Eq, Structural)]
pub enum ConstType {
    Int,
    Float,
    Str,
    Bool,
    Void,
    Dynamic,
}

/// The closed set of failures that analysis and lowering report.
#[derive(Clone, Copy, Debug, PartialEq, Eq, Structural)]
pub enum ErrKind {
    UndeclaredVar,
    VarAlreadyDeclared,
    OperationNotGranted,
    CannotConvertRight,
}

/// A name together with the annotation the user gave it, if any.
#[derive(Clone, Debug, PartialEq)]
pub struct Ident {
    pub tag: Option<ConstType>,
    pub val: String,
}

/// The mathematical value of an [`Ident`].
pub struct IdentView {
    pub tag: Option<ConstType>,
    pub val: Seq<char>,
}

impl View for Ident {
    type V = IdentView;

    open spec fn view(&self) -> IdentView {
        IdentView { tag: self.tag, val: self.val@ }
    }
}

impl Ident {
    /// Copies the identifier.
    pub fn duplicate(&self) -> (r: Ident)
        ensures
            r@ == self@,
    {
        Ident { tag: self.tag, val: self.val.clone() }
    }

    /// Whether two identifiers agree in both annotation and text.
    pub fn same(&self, other: &Ident) -> (b: bool)
        ensures
            b == (self@ == other@),
    {
        let tags = match (self.tag, other.tag) {
            (None, None) => true,
            (Some(a), Some(b)) => a == b,
            _ => false,
        };
        let vals = self.val == other.val;
        proof {
            if tags && vals {
                assert(self@.val =~= other@.val);
            }
        }
        tags && vals
    }
}

/// A diagnostic: what went wrong and where the analyzer stood.
#[derive(Clone, Debug, PartialEq)]
pub struct ATErr {
    pub kind: ErrKind,
    pub msg: String,
    pub line: u32,
    pub column: u32,
}

/// The mathematical value of an [`ATErr`].
pub struct ATErrView {
    pub kind: ErrKind,
    pub msg: Seq<char>,
    pub line: u32,
    pub column: u32,
}

impl View for ATErr {
    type V = ATErrView;

    open spec fn view(&self) -> ATErrView {
        ATErrView { kind: self.kind, msg: self.msg@, line: self.line, column: self.column }
    }
}

} // verus!
