//! The second walk: settling the calls that the first walk left open.
//!
//! A call met before its callee's body was typed carries the kind
//! `Dynamic`. Once the whole program is typed, every function node says what
//! its function returns, and the calls can be given that kind. Nothing but
//! calls and the coercions around their arguments is touched.

use vstd::prelude::*;
use vstd::hash_map::StringHashMap;
use crate::source::ConstType;
use crate::parser::idents_view;
use crate::analysis::{
    AnalyzedExpr, AnalyzedExprView, TypedExpr, TypedExprView, reversed, typed_view, typed_views,
};
use crate::analysis::typing::declared_ty;

verus! {

/// What a program says of one of its functions: the kinds of its
/// parameters and the kind it returns.
pub struct Signature {
    pub params: Seq<ConstType>,
    pub ret: ConstType,
}

/// What a top-level node declares, if it declares a function.
pub open spec fn signature_entry(node: TypedExprView) -> Option<(Seq<char>, Signature)> {
    match node.expr {
        AnalyzedExprView::Func { ret, name, args, body } => Some(
            (name, Signature { params: Seq::new(args.len(), |i: int| declared_ty(args[i])), ret }),
        ),
        AnalyzedExprView::Import { module, name, args } => Some(
            (name, Signature { params: args, ret: node.ty }),
        ),
        _ => None,
    }
}

/// The signatures that the top-level nodes of a program declare, by name.
/// Where a name is declared twice, the later declaration counts.
pub open spec fn signature_table(prog: Seq<TypedExprView>) -> Map<Seq<char>, Signature>
    decreases prog.len(),
{
    if prog.len() == 0 {
        Map::empty()
    } else {
        let rest = signature_table(prog.drop_last());
        match signature_entry(prog.last()) {
            Some((name, sig)) => rest.insert(name, sig),
            None => rest,
        }
    }
}

/// An argument settled against the kind `param` of its parameter. Where
/// that kind is known and the argument still sits in the coercion to
/// `Dynamic` that the first walk gave it, the coercion is dropped if the
/// argument has the parameter's kind, and else retyped to it.
pub open spec fn settle_arg(param: ConstType, arg: TypedExprView) -> TypedExprView {
    if param == ConstType::Dynamic || arg.ty != ConstType::Dynamic {
        arg
    } else {
        match arg.expr {
            AnalyzedExprView::As(inner) => if inner.ty == param {
                *inner
            } else {
                TypedExprView { expr: arg.expr, ty: param }
            },
            _ => arg,
        }
    }
}

/// The kind of the parameter at `i`; `Dynamic` where there is none.
pub open spec fn param_at(params: Seq<ConstType>, i: int) -> ConstType {
    if 0 <= i < params.len() {
        params[i]
    } else {
        ConstType::Dynamic
    }
}

/// Each argument settled against the parameter in its place.
pub open spec fn settle_args(params: Seq<ConstType>, args: Seq<TypedExprView>) -> Seq<
    TypedExprView,
> {
    Seq::new(args.len(), |i: int| settle_arg(param_at(params, i), args[i]))
}

/// A call of `name` with its arguments corrected already, settled against
/// the signatures `sigs`: it takes the kind its callee returns where that
/// is known, and keeps `ty` where it is not.
pub open spec fn settle_call(
    sigs: Map<Seq<char>, Signature>,
    name: Seq<char>,
    args: Seq<TypedExprView>,
    ty: ConstType,
) -> TypedExprView {
    if sigs.contains_key(name) {
        TypedExprView {
            expr: AnalyzedExprView::FnCall { name, args: settle_args(sigs[name].params, args) },
            ty: if sigs[name].ret != ConstType::Dynamic {
                sigs[name].ret
            } else {
                ty
            },
        }
    } else {
        TypedExprView { expr: AnalyzedExprView::FnCall { name, args }, ty }
    }
}

/// One node corrected against the signatures `sigs`.
pub open spec fn correct_spec(sigs: Map<Seq<char>, Signature>, t: TypedExprView) -> TypedExprView
    decreases t,
{
    match t.expr {
        AnalyzedExprView::Literal(_) => t,
        AnalyzedExprView::Id(_) => t,
        AnalyzedExprView::BinaryExpr { op, left, right } => TypedExprView {
            expr: AnalyzedExprView::BinaryExpr {
                op,
                left: Box::new(correct_spec(sigs, *left)),
                right: Box::new(correct_spec(sigs, *right)),
            },
            ty: t.ty,
        },
        AnalyzedExprView::VarDeclare { name, val } => TypedExprView {
            expr: AnalyzedExprView::VarDeclare { name, val: Box::new(correct_spec(sigs, *val)) },
            ty: t.ty,
        },
        AnalyzedExprView::VarAssign { name, val } => TypedExprView {
            expr: AnalyzedExprView::VarAssign { name, val: Box::new(correct_spec(sigs, *val)) },
            ty: t.ty,
        },
        AnalyzedExprView::FnCall { name, args } => settle_call(
            sigs,
            name,
            correct_all_spec(sigs, args),
            t.ty,
        ),
        AnalyzedExprView::If { cond, body, alt } => TypedExprView {
            expr: AnalyzedExprView::If {
                cond: Box::new(correct_spec(sigs, *cond)),
                body: correct_all_spec(sigs, body),
                alt: match alt {
                    Some(a) => Some(Box::new(correct_spec(sigs, *a))),
                    None => None,
                },
            },
            ty: t.ty,
        },
        AnalyzedExprView::Block(ts) => TypedExprView {
            expr: AnalyzedExprView::Block(correct_all_spec(sigs, ts)),
            ty: t.ty,
        },
        AnalyzedExprView::RetExpr(inner) => TypedExprView {
            expr: AnalyzedExprView::RetExpr(Box::new(correct_spec(sigs, *inner))),
            ty: t.ty,
        },
        AnalyzedExprView::Discard(inner) => TypedExprView {
            expr: AnalyzedExprView::Discard(Box::new(correct_spec(sigs, *inner))),
            ty: t.ty,
        },
        AnalyzedExprView::As(inner) => TypedExprView {
            expr: AnalyzedExprView::As(Box::new(correct_spec(sigs, *inner))),
            ty: t.ty,
        },
        AnalyzedExprView::Import { .. } => t,
        AnalyzedExprView::Debug(_, _, _) => t,
        AnalyzedExprView::Func { ret, name, args, body } => TypedExprView {
            expr: AnalyzedExprView::Func { ret, name, args, body: correct_all_spec(sigs, body) },
            ty: t.ty,
        },
    }
}

/// Each node of a run corrected against the signatures `sigs`.
pub open spec fn correct_all_spec(sigs: Map<Seq<char>, Signature>, ts: Seq<TypedExprView>) -> Seq<
    TypedExprView,
>
    decreases ts,
{
    Seq::new(
        ts.len(),
        |i: int|
            if 0 <= i < ts.len() {
                correct_spec(sigs, ts[i])
            } else {
                arbitrary()
            },
    )
}

/// A program corrected against the signatures that it declares itself.
pub open spec fn correct_prog_spec(prog: Seq<TypedExprView>) -> Seq<TypedExprView> {
    correct_all_spec(signature_table(prog), prog)
}

/// One declared signature as stored.
struct SigEntry {
    params: Vec<ConstType>,
    ret: ConstType,
}

impl SigEntry {
    /// The signature that the entry stands for.
    spec fn sig(&self) -> Signature {
        Signature { params: self.params@, ret: self.ret }
    }
}

/// The signatures that a program declares, by name.
pub struct SignatureTable {
    entries: StringHashMap<SigEntry>,
}

/// The signatures that the stored entries stand for.
spec fn signatures_of(m: Map<Seq<char>, SigEntry>) -> Map<Seq<char>, Signature> {
    Map::new(|name: Seq<char>| m.contains_key(name), |name: Seq<char>| m[name].sig())
}

impl View for SignatureTable {
    type V = Map<Seq<char>, Signature>;

    closed spec fn view(&self) -> Map<Seq<char>, Signature> {
        signatures_of(self.entries@)
    }
}

/// The kinds that the annotations of `args` stand for.
fn declared_kinds(args: &Vec<crate::source::Ident>) -> (r: Vec<ConstType>)
    ensures
        r@ == Seq::new(idents_view(args@).len(), |i: int| declared_ty(idents_view(args@)[i])),
{
    let mut r: Vec<ConstType> = Vec::new();
    let mut i: usize = 0;
    while i < args.len()
        invariant
            i <= args.len(),
            r.len() == i,
            forall|j: int| 0 <= j < i ==> r[j] == declared_ty(args[j]@),
        decreases args.len() - i,
    {
        r.push(
            match args[i].tag {
                Some(ty) => ty,
                None => ConstType::Dynamic,
            },
        );
        i = i + 1;
    }
    assert(r@ =~= Seq::new(
        idents_view(args@).len(),
        |i: int| declared_ty(idents_view(args@)[i]),
    ));
    r
}

/// Copies a run of kinds.
fn copy_kinds(kinds: &Vec<ConstType>) -> (r: Vec<ConstType>)
    ensures
        r@ == kinds@,
{
    let mut r: Vec<ConstType> = Vec::new();
    let mut i: usize = 0;
    while i < kinds.len()
        invariant
            i <= kinds.len(),
            r@ == kinds@.take(i as int),
        decreases kinds.len() - i,
    {
        r.push(kinds[i]);
        assert(kinds@.take(i + 1) =~= kinds@.take(i as int).push(kinds[i as int]));
        i = i + 1;
    }
    assert(kinds@.take(kinds.len() as int) =~= kinds@);
    r
}

impl SignatureTable {
    /// The signatures that the top-level nodes of `prog` declare.
    pub fn collect(prog: &Vec<TypedExpr>) -> (table: SignatureTable)
        ensures
            table@ == signature_table(typed_views(prog@)),
    {
        let ghost views = typed_views(prog@);
        let mut entries: StringHashMap<SigEntry> = StringHashMap::new();
        let mut i: usize = 0;
        assert(views.take(0) =~= Seq::empty());
        assert(signatures_of(entries@) =~= Map::empty());
        while i < prog.len()
            invariant
                i <= prog.len(),
                views == typed_views(prog@),
                signatures_of(entries@) == signature_table(views.take(i as int)),
            decreases prog.len() - i,
        {
            assert(views.take(i + 1).drop_last() =~= views.take(i as int));
            assert(views.take(i + 1).last() == prog[i as int]@);
            let ghost before = entries@;
            match &prog[i].expr {
                AnalyzedExpr::Func { ret, name, args, body } => {
                    let entry = SigEntry { params: declared_kinds(args), ret: *ret };
                    entries.insert(name.clone(), entry);
                    assert(signatures_of(entries@) =~= signatures_of(before).insert(
                        name@,
                        entry.sig(),
                    ));
                },
                AnalyzedExpr::Import { module, name, args } => {
                    let entry = SigEntry { params: copy_kinds(args), ret: prog[i].ty };
                    entries.insert(name.clone(), entry);
                    assert(signatures_of(entries@) =~= signatures_of(before).insert(
                        name@,
                        entry.sig(),
                    ));
                },
                _ => {},
            }
            i = i + 1;
        }
        assert(views.take(prog.len() as int) =~= views);
        SignatureTable { entries }
    }

    /// The entry for `name`, if there is one.
    fn find(&self, name: &String) -> (r: Option<&SigEntry>)
        ensures
            r is Some <==> self@.contains_key(name@),
            r matches Some(entry) ==> self@[name@] == entry.sig(),
    {
        self.entries.get(name.as_str())
    }
}

/// Settles one argument against the kind of its parameter.
fn settle_one(param: ConstType, arg: TypedExpr) -> (r: TypedExpr)
    ensures
        r@ == settle_arg(param, arg@),
{
    if param == ConstType::Dynamic || arg.ty != ConstType::Dynamic {
        return arg;
    }
    let ty = arg.ty;
    match arg.expr {
        AnalyzedExpr::As(inner) => {
            assert(arg@.expr == AnalyzedExprView::As(Box::new(typed_view(*inner))));
            if inner.ty == param {
                *inner
            } else {
                TypedExpr { expr: AnalyzedExpr::As(inner), ty: param }
            }
        },
        other => {
            let r = TypedExpr { expr: other, ty };
            assert(r == arg);
            r
        },
    }
}

/// Settles each argument against the parameter in its place.
fn settle_all(params: &Vec<ConstType>, args: Vec<TypedExpr>) -> (r: Vec<TypedExpr>)
    ensures
        typed_views(r@) == settle_args(params@, typed_views(args@)),
{
    let ghost all = args@;
    let mut stack = reversed(args);
    let mut r: Vec<TypedExpr> = Vec::new();
    while stack.len() > 0
        invariant
            stack.len() + r.len() == all.len(),
            forall|j: int| 0 <= j < stack.len() ==> stack[j] == all[all.len() - 1 - j],
            forall|j: int| 0 <= j < r.len() ==> r[j]@ == settle_arg(param_at(params@, j), all[j]@),
        decreases stack.len(),
    {
        let i = r.len();
        let arg = stack.pop().unwrap();
        let param = if i < params.len() {
            params[i]
        } else {
            ConstType::Dynamic
        };
        r.push(settle_one(param, arg));
    }
    assert(typed_views(r@) =~= settle_args(params@, typed_views(all)));
    r
}

impl SignatureTable {
    /// Settles a call of `name`, whose arguments are corrected already.
    fn settle(&self, name: String, args: Vec<TypedExpr>, ty: ConstType) -> (r: TypedExpr)
        ensures
            r@ == settle_call(self@, name@, typed_views(args@), ty),
    {
        match self.find(&name) {
            Some(entry) => {
                let args = settle_all(&entry.params, args);
                let ret = entry.ret;
                let ty = if ret != ConstType::Dynamic {
                    ret
                } else {
                    ty
                };
                TypedExpr { expr: AnalyzedExpr::FnCall { name, args }, ty }
            },
            None => TypedExpr { expr: AnalyzedExpr::FnCall { name, args }, ty },
        }
    }

    /// Corrects each node of a run.
    pub fn correct_all(&self, ts: Vec<TypedExpr>) -> (r: Vec<TypedExpr>)
        ensures
            typed_views(r@) == correct_all_spec(self@, typed_views(ts@)),
        decreases ts, 0nat,
    {
        let ghost all = ts@;
        let mut stack = reversed(ts);
        let mut r: Vec<TypedExpr> = Vec::new();
        while stack.len() > 0
            invariant
                all == ts@,
                stack.len() + r.len() == all.len(),
                forall|j: int| 0 <= j < stack.len() ==> stack[j] == all[all.len() - 1 - j],
                forall|j: int| 0 <= j < r.len() ==> r[j]@ == correct_spec(self@, all[j]@),
            decreases stack.len(),
        {
            let t = stack.pop().unwrap();
            r.push(self.correct(t));
        }
        assert(typed_views(r@) =~= correct_all_spec(self@, typed_views(all)));
        r
    }

    /// Corrects one node: every call in it takes the kind that its callee
    /// returns, where the table knows it.
    #[verifier::rlimit(60)]
    pub fn correct(&self, t: TypedExpr) -> (r: TypedExpr)
        ensures
            r@ == correct_spec(self@, t@),
        decreases t, 1nat,
    {
        let ty = t.ty;
        match t.expr {
            AnalyzedExpr::Literal(l) => TypedExpr { expr: AnalyzedExpr::Literal(l), ty },
            AnalyzedExpr::Id(name) => TypedExpr { expr: AnalyzedExpr::Id(name), ty },
            AnalyzedExpr::BinaryExpr { op, left, right } => {
                let left = Box::new(self.correct(*left));
                let right = Box::new(self.correct(*right));
                TypedExpr { expr: AnalyzedExpr::BinaryExpr { op, left, right }, ty }
            },
            AnalyzedExpr::VarDeclare { name, val } => {
                let val = Box::new(self.correct(*val));
                TypedExpr { expr: AnalyzedExpr::VarDeclare { name, val }, ty }
            },
            AnalyzedExpr::VarAssign { name, val } => {
                let val = Box::new(self.correct(*val));
                TypedExpr { expr: AnalyzedExpr::VarAssign { name, val }, ty }
            },
            AnalyzedExpr::FnCall { name, args } => {
                let args = self.correct_all(args);
                self.settle(name, args, ty)
            },
            AnalyzedExpr::If { cond, body, alt } => {
                let cond = Box::new(self.correct(*cond));
                let body = self.correct_all(body);
                let alt = match alt {
                    Some(a) => Some(Box::new(self.correct(*a))),
                    None => None,
                };
                TypedExpr { expr: AnalyzedExpr::If { cond, body, alt }, ty }
            },
            AnalyzedExpr::Block(ts) => {
                let ts = self.correct_all(ts);
                TypedExpr { expr: AnalyzedExpr::Block(ts), ty }
            },
            AnalyzedExpr::RetExpr(inner) => {
                let inner = Box::new(self.correct(*inner));
                TypedExpr { expr: AnalyzedExpr::RetExpr(inner), ty }
            },
            AnalyzedExpr::Discard(inner) => {
                let inner = Box::new(self.correct(*inner));
                TypedExpr { expr: AnalyzedExpr::Discard(inner), ty }
            },
            AnalyzedExpr::As(inner) => {
                let inner = Box::new(self.correct(*inner));
                TypedExpr { expr: AnalyzedExpr::As(inner), ty }
            },
            AnalyzedExpr::Import { module, name, args } => TypedExpr {
                expr: AnalyzedExpr::Import { module, name, args },
                ty,
            },
            AnalyzedExpr::Debug(text, line, column) => TypedExpr {
                expr: AnalyzedExpr::Debug(text, line, column),
                ty,
            },
            AnalyzedExpr::Func { ret, name, args, body } => {
                let body = self.correct_all(body);
                TypedExpr { expr: AnalyzedExpr::Func { ret, name, args, body }, ty }
            },
        }
    }
}

/// The second walk over a typed program: every call takes the kind that
/// its callee returns, where the program says what that is, and the
/// coercions around its arguments follow the callee's parameters.
pub fn correct_prog(prog: Vec<TypedExpr>) -> (r: Vec<TypedExpr>)
    ensures
        typed_views(r@) == correct_prog_spec(typed_views(prog@)),
{
    let table = SignatureTable::collect(&prog);
    table.correct_all(prog)
}

} // verus!
