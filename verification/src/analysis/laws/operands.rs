//! The operands of binary nodes and the operators they grant.

use vstd::prelude::*;
use crate::source::{ConstType, ErrKind};
use crate::parser::FunctionView;
use crate::parser::ast::ExprView;
use crate::analysis::{AnalyzedExprView, AnalyzerView, TypedExprView, fn_type, grants};
use crate::analysis::laws::{every_node, every_node_in};
use crate::analysis::typing::{
    analyz_all_spec, analyz_binary_expr_spec, analyz_func_spec, analyz_funcs_spec, analyz_spec,
    binary_ty, bind_params, call_node, coerce_operands, coerced, coercible, combine,
    deferred_args, first_walk, function_node, if_node, import_node, import_state, joined_ty,
    register_all, resolve_call, writeln_params,
};

verus! {

/// Binary coercion: where the table of coercions has a row for the kinds
/// of the operands, both operands have the same kind afterwards, that kind
/// is `joined_ty`, and at most one operand was wrapped in a coercion to the
/// kind of the other. Where the table has no row, as for an integer and a
/// boolean, the operands stay as they are.
pub proof fn lemma_operands_agree(lhs: TypedExprView, rhs: TypedExprView)
    ensures
        ({
            let (left, right) = coerce_operands(lhs, rhs);
            &&& left.ty == joined_ty(lhs.ty, rhs.ty)
            &&& coercible(lhs.ty, rhs.ty) ==> left.ty == right.ty
            &&& coercible(lhs.ty, rhs.ty) ==> (left == lhs && right == rhs) || (left == lhs
                && right == coerced(left.ty, rhs)) || (left == coerced(right.ty, lhs) && right
                == rhs)
            &&& !coercible(lhs.ty, rhs.ty) ==> left == lhs && right == rhs && left.ty != right.ty
        }),
{
}

/// Operator gating: a binary node over typed operands is refused, as
/// `OperationNotGranted` and with one diagnostic, exactly where the kind
/// that the operands are brought to does not grant the operator.
pub proof fn lemma_operator_gating(
    st: AnalyzerView,
    op: Seq<char>,
    lhs: TypedExprView,
    rhs: TypedExprView,
)
    ensures
        !grants(joined_ty(lhs.ty, rhs.ty), op) ==> combine(st, op, lhs, rhs).1 == Err::<
            TypedExprView,
            ErrKind,
        >(ErrKind::OperationNotGranted) && combine(st, op, lhs, rhs).0.diagnostics.len()
            == st.diagnostics.len() + 1,
        grants(joined_ty(lhs.ty, rhs.ty), op) ==> combine(st, op, lhs, rhs).1 is Ok && combine(
            st,
            op,
            lhs,
            rhs,
        ).0 == st,
{
    lemma_operands_agree(lhs, rhs);
}

/// Operator gating for a binary expression: once both operands are typed,
/// the expression fails with `OperationNotGranted` exactly where the kind
/// that the operands are brought to does not grant the operator.
pub proof fn lemma_binary_expr_gating(
    st: AnalyzerView,
    left: ExprView,
    right: ExprView,
    op: Seq<char>,
)
    requires
        analyz_spec(st, left).1 is Ok,
        analyz_spec(analyz_spec(st, left).0, right).1 is Ok,
    ensures
        ({
            let lhs = analyz_spec(st, left).1->Ok_0;
            let rhs = analyz_spec(analyz_spec(st, left).0, right).1->Ok_0;
            let r = analyz_binary_expr_spec(st, left, right, op).1;
            &&& !grants(joined_ty(lhs.ty, rhs.ty), op) ==> r == Err::<TypedExprView, ErrKind>(
                ErrKind::OperationNotGranted,
            )
            &&& grants(joined_ty(lhs.ty, rhs.ty), op) ==> r is Ok
        }),
{
    let (st1, rl) = analyz_spec(st, left);
    let (st2, rr) = analyz_spec(st1, right);
    lemma_operator_gating(st2, op, rl->Ok_0, rr->Ok_0);
}

/// What the first walk makes true of each node it produces, by the shape
/// of the node. The operands of a binary node have the same kind wherever
/// the table of coercions has a row for them, and the left one grants the
/// operator; every argument of a call sits in a coercion to `Dynamic`; a
/// declaration, an assignment and a return have the kind of their value; a
/// conditional, a block and a function have the kind that their body
/// yields.
pub open spec fn well_typed(n: TypedExprView) -> bool {
    match n.expr {
        AnalyzedExprView::Literal(l) => n.ty == l.get_ty(),
        AnalyzedExprView::Id(_) => true,
        AnalyzedExprView::BinaryExpr { op, left, right } => {
            &&& left.ty == right.ty || !coercible(left.ty, right.ty)
            &&& grants(left.ty, op)
            &&& n.ty == binary_ty(op, left.ty)
        },
        AnalyzedExprView::VarDeclare { name, val } => n.ty == val.ty,
        AnalyzedExprView::VarAssign { name, val } => n.ty == val.ty,
        AnalyzedExprView::FnCall { name, args } => forall|i: int|
            0 <= i < args.len() ==> (#[trigger] args[i]).expr is As && args[i].ty
                == ConstType::Dynamic,
        AnalyzedExprView::If { cond, body, alt } => n.ty == fn_type(body),
        AnalyzedExprView::Block(ts) => n.ty == fn_type(ts),
        AnalyzedExprView::RetExpr(inner) => n.ty == inner.ty,
        AnalyzedExprView::Discard(_) => n.ty == ConstType::Void,
        AnalyzedExprView::As(_) => true,
        AnalyzedExprView::Import { .. } => true,
        AnalyzedExprView::Debug(_, _, _) => n.ty == ConstType::Void,
        AnalyzedExprView::Func { ret, name, args, body } => ret == n.ty && n.ty == fn_type(body),
    }
}

/// `well_typed` as a rule for `every_node`.
pub open spec fn well_typed_rule() -> spec_fn(TypedExprView) -> bool {
    |n: TypedExprView| well_typed(n)
}

/// Typing an expression produces well typed nodes only, for any rule that
/// says what `well_typed` says.
proof fn lemma_analyz_nodes(st: AnalyzerView, e: ExprView, p: spec_fn(TypedExprView) -> bool)
    requires
        forall|n: TypedExprView| p(n) == well_typed(n),
    ensures
        analyz_spec(st, e).1 matches Ok(t) ==> every_node(t, p),
    decreases e,
{
    let r = analyz_spec(st, e).1;
    match e {
        ExprView::Literal(_) => {},
        ExprView::BinaryExpr { op, left, right } => {
            lemma_analyz_nodes(st, *left, p);
            let (st1, rl) = analyz_spec(st, *left);
            if rl is Ok {
                lemma_analyz_nodes(st1, *right, p);
                let (st2, rr) = analyz_spec(st1, *right);
                if rr is Ok {
                    let lhs = rl->Ok_0;
                    let rhs = rr->Ok_0;
                    lemma_operands_agree(lhs, rhs);
                    let (l, r2) = coerce_operands(lhs, rhs);
                    assert(every_node(lhs, p) && every_node(rhs, p));
                    let wl = coerced(r2.ty, lhs);
                    let wr = coerced(l.ty, rhs);
                    assert(well_typed(wl));
                    assert(p(wl));
                    assert(well_typed(wr));
                    assert(p(wr));
                    assert(every_node(l, p));
                    assert(every_node(r2, p));
                }
            }
        },
        ExprView::Ident(_) => {},
        ExprView::VarDeclare { name, val } => {
            lemma_analyz_nodes(st, *val, p);
        },
        ExprView::VarAssign { name, val } => {
            lemma_analyz_nodes(st, *val, p);
        },
        ExprView::Discard(inner) => {
            lemma_analyz_nodes(st, *inner, p);
        },
        ExprView::PosInfo(_, _, _) => {},
        ExprView::RetExpr(inner) => {
            lemma_analyz_nodes(st, *inner, p);
        },
        ExprView::FnCall { name, args } => {
            let (st0, rc) = resolve_call(st, name, args.len());
            if rc is Ok {
                lemma_run_nodes(st0, args, p);
                let (st1, ra) = analyz_all_spec(st0, args);
                if ra is Ok {
                    let ts = ra->Ok_0;
                    let wrapped = deferred_args(ts);
                    assert forall|i: int| 0 <= i < wrapped.len() implies every_node(
                        #[trigger] wrapped[i],
                        p,
                    ) by {
                        assert(every_node(ts[i], p));
                        assert(wrapped[i] == coerced(ConstType::Dynamic, ts[i]));
                        assert(well_typed(wrapped[i]));
                        assert(p(wrapped[i]));
                    }
                    assert(every_node_in(wrapped, p));
                    assert(r->Ok_0 == call_node(name.val, ts, rc->Ok_0));
                }
            }
        },
        ExprView::IfExpr { condition, body, alt } => {
            lemma_analyz_nodes(st, *condition, p);
            let (st1, rc) = analyz_spec(st, *condition);
            if rc is Ok {
                let inner = st1.with_env(st1.env.child());
                lemma_run_nodes(inner, body, p);
                let (st2, rb) = analyz_all_spec(inner, body);
                let st3 = st2.with_env(st2.env.parent());
                if rb is Ok {
                    match alt {
                        Some(a) => {
                            lemma_analyz_nodes(st3, *a, p);
                            let ra = analyz_spec(st3, *a).1;
                            if ra is Ok {
                                assert(r->Ok_0 == if_node(rc->Ok_0, rb->Ok_0, Some(ra->Ok_0)));
                            }
                        },
                        None => {
                            assert(r->Ok_0 == if_node(rc->Ok_0, rb->Ok_0, None));
                        },
                    }
                }
            }
        },
        ExprView::Block(es) => {
            lemma_run_nodes(st, es, p);
        },
    }
    if r is Ok {
        let t = r->Ok_0;
        assert(well_typed(t));
        assert(p(t));
        assert(every_node(t, p));
    }
}

/// Typing a run of expressions produces well typed nodes only.
proof fn lemma_run_nodes(st: AnalyzerView, es: Seq<ExprView>, p: spec_fn(TypedExprView) -> bool)
    requires
        forall|n: TypedExprView| p(n) == well_typed(n),
    ensures
        analyz_all_spec(st, es).1 matches Ok(ts) ==> every_node_in(ts, p),
    decreases es,
{
    if es.len() > 0 {
        lemma_run_nodes(st, es.drop_last(), p);
        let (st1, r) = analyz_all_spec(st, es.drop_last());
        if r is Ok {
            lemma_analyz_nodes(st1, es.last(), p);
        }
    }
}

/// Every node that typing an expression produces is well typed: in
/// particular the operands of every binary node agree in kind, but for the
/// pairs of kinds that the table of coercions has no row for.
pub proof fn lemma_analyz_well_typed(st: AnalyzerView, e: ExprView)
    ensures
        analyz_spec(st, e).1 matches Ok(t) ==> every_node(t, well_typed_rule()),
{
    lemma_analyz_nodes(st, e, well_typed_rule());
}

/// Every node that typing a run of expressions produces is well typed.
pub proof fn lemma_run_well_typed(st: AnalyzerView, es: Seq<ExprView>)
    ensures
        analyz_all_spec(st, es).1 matches Ok(ts) ==> every_node_in(ts, well_typed_rule()),
{
    lemma_run_nodes(st, es, well_typed_rule());
}

/// Every node that typing a function produces is well typed.
pub proof fn lemma_func_well_typed(st: AnalyzerView, f: FunctionView)
    ensures
        analyz_func_spec(st, f).1 matches Ok(t) ==> every_node(t, well_typed_rule()),
{
    let p = well_typed_rule();
    let inner = st.with_env(bind_params(st.env.child(), f.args));
    lemma_run_nodes(inner, f.body, p);
    let r = analyz_func_spec(st, f).1;
    if r is Ok {
        let body = analyz_all_spec(inner, f.body).1->Ok_0;
        assert(r->Ok_0 == function_node(f.name.val, f.args, body));
        assert(well_typed(r->Ok_0));
        assert(p(r->Ok_0));
    }
}

/// Every node that typing a run of functions produces is well typed.
pub proof fn lemma_funcs_well_typed(st: AnalyzerView, fs: Seq<FunctionView>)
    ensures
        analyz_funcs_spec(st, fs).1 matches Ok(ts) ==> every_node_in(ts, well_typed_rule()),
    decreases fs.len(),
{
    if fs.len() > 0 {
        lemma_funcs_well_typed(st, fs.drop_last());
        let (st1, r) = analyz_funcs_spec(st, fs.drop_last());
        if r is Ok {
            lemma_func_well_typed(st1, fs.last());
        }
    }
}

/// Every node that the first walk over a program produces is well typed.
pub proof fn lemma_first_walk_well_typed(
    st: AnalyzerView,
    exprs: Seq<ExprView>,
    functions: Seq<FunctionView>,
)
    ensures
        first_walk(st, exprs, functions).1 matches Ok(prog) ==> every_node_in(
            prog,
            well_typed_rule(),
        ),
{
    let p = well_typed_rule();
    let seeded = import_state(st, ConstType::Void, "writeln"@, writeln_params());
    let head = import_node(ConstType::Void, "std"@, "writeln"@, writeln_params());
    let reg = seeded.with_env(register_all(seeded.env, functions));
    lemma_funcs_well_typed(reg, functions);
    let (st1, rf) = analyz_funcs_spec(reg, functions);
    if rf is Ok {
        lemma_run_well_typed(st1, exprs);
        let re = analyz_all_spec(st1, exprs).1;
        if re is Ok {
            let prog = first_walk(st, exprs, functions).1->Ok_0;
            let fs = rf->Ok_0;
            let es = re->Ok_0;
            assert(prog == seq![head] + fs + es);
            assert(well_typed(head) && p(head));
            assert forall|i: int| 0 <= i < prog.len() implies every_node(#[trigger] prog[i], p) by {
                if i == 0 {
                    assert(prog[i] == head);
                } else if i < 1 + fs.len() {
                    assert(prog[i] == fs[i - 1]);
                } else {
                    assert(prog[i] == es[i - 1 - fs.len()]);
                }
            }
        }
    }
}

} // verus!
