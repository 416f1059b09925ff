//! The kinds that are left once a program is corrected.

use vstd::prelude::*;
use crate::source::ConstType;
use crate::parser::FunctionView;
use crate::parser::ast::ExprView;
use crate::analysis::{AnalyzedExprView, AnalyzerView, TypedExprView};
use crate::analysis::correct::{
    Signature, correct_all_spec, correct_prog_spec, correct_spec, param_at, settle_arg,
    settle_args, settle_call, signature_table,
};
use crate::analysis::laws::{every_node, every_node_in};
use crate::analysis::typing::{analyz_prog_spec, first_walk};

verus! {

/// Whether a node is a call if its kind is still `Dynamic`.
pub open spec fn dynamic_is_call(t: TypedExprView) -> bool {
    t.ty == ConstType::Dynamic ==> t.expr is FnCall
}

/// Whether an argument of a call is a coercion to `Dynamic`, as the first
/// walk wraps every argument in, or else a call if its kind is `Dynamic`.
pub open spec fn deferred_or_call(a: TypedExprView) -> bool {
    (a.expr is As && a.ty == ConstType::Dynamic) || dynamic_is_call(a)
}

/// Whether the kind `Dynamic` stands, right below the node `n`, at calls
/// and at the coercions around the arguments of calls only.
pub open spec fn confined(n: TypedExprView) -> bool {
    match n.expr {
        AnalyzedExprView::Literal(_) => true,
        AnalyzedExprView::Id(_) => true,
        AnalyzedExprView::BinaryExpr { op, left, right } => dynamic_is_call(*left)
            && dynamic_is_call(*right),
        AnalyzedExprView::VarDeclare { name, val } => dynamic_is_call(*val),
        AnalyzedExprView::VarAssign { name, val } => dynamic_is_call(*val),
        AnalyzedExprView::FnCall { name, args } => forall|i: int|
            0 <= i < args.len() ==> deferred_or_call(#[trigger] args[i]),
        AnalyzedExprView::If { cond, body, alt } => dynamic_is_call(*cond) && (forall|i: int|
            0 <= i < body.len() ==> dynamic_is_call(#[trigger] body[i])) && match alt {
            Some(a) => dynamic_is_call(*a),
            None => true,
        },
        AnalyzedExprView::Block(ts) => forall|i: int|
            0 <= i < ts.len() ==> dynamic_is_call(#[trigger] ts[i]),
        AnalyzedExprView::RetExpr(inner) => dynamic_is_call(*inner),
        AnalyzedExprView::Discard(inner) => dynamic_is_call(*inner),
        AnalyzedExprView::As(inner) => dynamic_is_call(*inner),
        AnalyzedExprView::Import { .. } => true,
        AnalyzedExprView::Debug(_, _, _) => true,
        AnalyzedExprView::Func { ret, name, args, body } => forall|i: int|
            0 <= i < body.len() ==> dynamic_is_call(#[trigger] body[i]),
    }
}

/// Whether the node `n`, if it is a call, calls a function that `sigs`
/// knows and that says of what kind each argument has to be.
pub open spec fn params_known(sigs: Map<Seq<char>, Signature>, n: TypedExprView) -> bool {
    n.expr matches AnalyzedExprView::FnCall { name, args } ==> sigs.contains_key(name) && forall|
        i: int,
    |
        0 <= i < args.len() ==> #[trigger] param_at(sigs[name].params, i) != ConstType::Dynamic
}

/// Whether the node `n` has a kind, or is a call of a function of which
/// `sigs` cannot say what it returns.
pub open spec fn settled(sigs: Map<Seq<char>, Signature>, n: TypedExprView) -> bool {
    n.ty == ConstType::Dynamic ==> (n.expr matches AnalyzedExprView::FnCall { name, args }
        && sigs.contains_key(name) && sigs[name].ret == ConstType::Dynamic)
}

/// `confined` as a rule for `every_node`.
pub open spec fn confined_rule() -> spec_fn(TypedExprView) -> bool {
    |n: TypedExprView| confined(n)
}

/// `params_known` as a rule for `every_node`.
pub open spec fn params_known_rule(sigs: Map<Seq<char>, Signature>) -> spec_fn(
    TypedExprView,
) -> bool {
    |n: TypedExprView| params_known(sigs, n)
}

/// `settled` as a rule for `every_node`.
pub open spec fn settled_rule(sigs: Map<Seq<char>, Signature>) -> spec_fn(TypedExprView) -> bool {
    |n: TypedExprView| settled(sigs, n)
}

/// Whether, in the trees of `prog`, the kind `Dynamic` stands at calls and
/// at the coercions around the arguments of calls only, and every call is
/// of a function that `sigs` knows with the kind of each parameter.
pub open spec fn ready_to_settle(sigs: Map<Seq<char>, Signature>, prog: Seq<TypedExprView>)
    -> bool {
    &&& every_node_in(prog, confined_rule())
    &&& every_node_in(prog, params_known_rule(sigs))
    &&& forall|i: int| 0 <= i < prog.len() ==> dynamic_is_call(#[trigger] prog[i])
}

/// Correction settles one tree, for any rules that say what `confined`,
/// `params_known` and `settled` say.
proof fn lemma_correct_nodes(
    sigs: Map<Seq<char>, Signature>,
    t: TypedExprView,
    pc: spec_fn(TypedExprView) -> bool,
    pk: spec_fn(TypedExprView) -> bool,
    ps: spec_fn(TypedExprView) -> bool,
)
    requires
        forall|n: TypedExprView| pc(n) == confined(n),
        forall|n: TypedExprView| pk(n) == params_known(sigs, n),
        forall|n: TypedExprView| ps(n) == settled(sigs, n),
        every_node(t, pc),
        every_node(t, pk),
        dynamic_is_call(t),
    ensures
        every_node(correct_spec(sigs, t), ps),
    decreases t,
{
    let out = correct_spec(sigs, t);
    assert(pc(t) && confined(t));
    assert(pk(t) && params_known(sigs, t));
    match t.expr {
        AnalyzedExprView::Literal(_) => {},
        AnalyzedExprView::Id(_) => {},
        AnalyzedExprView::BinaryExpr { op, left, right } => {
            lemma_correct_nodes(sigs, *left, pc, pk, ps);
            lemma_correct_nodes(sigs, *right, pc, pk, ps);
        },
        AnalyzedExprView::VarDeclare { name, val } => {
            lemma_correct_nodes(sigs, *val, pc, pk, ps);
        },
        AnalyzedExprView::VarAssign { name, val } => {
            lemma_correct_nodes(sigs, *val, pc, pk, ps);
        },
        AnalyzedExprView::FnCall { name, args } => {
            let corrected = correct_all_spec(sigs, args);
            let params = sigs[name].params;
            let given = settle_args(params, corrected);
            assert(every_node_in(args, pc));
            assert(every_node_in(args, pk));
            assert forall|i: int| 0 <= i < given.len() implies every_node(
                #[trigger] given[i],
                ps,
            ) by {
                let a = args[i];
                let param = param_at(params, i);
                assert(deferred_or_call(a));
                assert(every_node(a, pc) && every_node(a, pk));
                assert(given[i] == settle_arg(param, correct_spec(sigs, a)));
                if a.expr is As && a.ty == ConstType::Dynamic {
                    let inner = *a.expr->As_0;
                    assert(pc(a) && confined(a));
                    lemma_correct_nodes(sigs, inner, pc, pk, ps);
                    let fixed = correct_spec(sigs, inner);
                    if fixed.ty != param {
                        let retyped = TypedExprView {
                            expr: AnalyzedExprView::As(Box::new(fixed)),
                            ty: param,
                        };
                        assert(settled(sigs, retyped));
                        assert(ps(retyped));
                        assert(given[i] == retyped);
                    }
                } else {
                    lemma_correct_nodes(sigs, a, pc, pk, ps);
                    let fixed = correct_spec(sigs, a);
                    assert(ps(fixed) && settled(sigs, fixed));
                    assert(given[i] == fixed);
                }
            }
            assert(every_node_in(given, ps));
            assert(out == settle_call(sigs, name, corrected, t.ty));
        },
        AnalyzedExprView::If { cond, body, alt } => {
            lemma_correct_nodes(sigs, *cond, pc, pk, ps);
            lemma_correct_all_nodes(sigs, body, pc, pk, ps);
            match alt {
                Some(a) => {
                    lemma_correct_nodes(sigs, *a, pc, pk, ps);
                },
                None => {},
            }
        },
        AnalyzedExprView::Block(ts) => {
            lemma_correct_all_nodes(sigs, ts, pc, pk, ps);
        },
        AnalyzedExprView::RetExpr(inner) => {
            lemma_correct_nodes(sigs, *inner, pc, pk, ps);
        },
        AnalyzedExprView::Discard(inner) => {
            lemma_correct_nodes(sigs, *inner, pc, pk, ps);
        },
        AnalyzedExprView::As(inner) => {
            lemma_correct_nodes(sigs, *inner, pc, pk, ps);
        },
        AnalyzedExprView::Import { .. } => {},
        AnalyzedExprView::Debug(_, _, _) => {},
        AnalyzedExprView::Func { ret, name, args, body } => {
            lemma_correct_all_nodes(sigs, body, pc, pk, ps);
        },
    }
    assert(settled(sigs, out));
    assert(ps(out));
}

/// Correction settles every tree of a run.
proof fn lemma_correct_all_nodes(
    sigs: Map<Seq<char>, Signature>,
    ts: Seq<TypedExprView>,
    pc: spec_fn(TypedExprView) -> bool,
    pk: spec_fn(TypedExprView) -> bool,
    ps: spec_fn(TypedExprView) -> bool,
)
    requires
        forall|n: TypedExprView| pc(n) == confined(n),
        forall|n: TypedExprView| pk(n) == params_known(sigs, n),
        forall|n: TypedExprView| ps(n) == settled(sigs, n),
        every_node_in(ts, pc),
        every_node_in(ts, pk),
        forall|i: int| 0 <= i < ts.len() ==> dynamic_is_call(#[trigger] ts[i]),
    ensures
        every_node_in(correct_all_spec(sigs, ts), ps),
    decreases ts,
{
    let out = correct_all_spec(sigs, ts);
    assert forall|i: int| 0 <= i < out.len() implies every_node(#[trigger] out[i], ps) by {
        assert(every_node(ts[i], pc) && every_node(ts[i], pk));
        lemma_correct_nodes(sigs, ts[i], pc, pk, ps);
    }
}

/// Correction leaves the kind `Dynamic` only at calls whose callee
/// returns `Dynamic`, in trees in which the first walk confined it to calls
/// and to the coercions around their arguments, and in which every callee
/// says the kinds of its parameters.
pub proof fn lemma_correct_settles(sigs: Map<Seq<char>, Signature>, prog: Seq<TypedExprView>)
    requires
        ready_to_settle(sigs, prog),
    ensures
        every_node_in(correct_all_spec(sigs, prog), settled_rule(sigs)),
{
    lemma_correct_all_nodes(
        sigs,
        prog,
        confined_rule(),
        params_known_rule(sigs),
        settled_rule(sigs),
    );
}

/// No kind is left open by an analysis but at calls whose callee returns
/// `Dynamic`: this holds of every program in whose first walk `Dynamic`
/// stands at calls and around their arguments only, and whose callees all
/// say the kinds of their parameters.
pub proof fn lemma_analysis_settles(
    st: AnalyzerView,
    exprs: Seq<ExprView>,
    functions: Seq<FunctionView>,
)
    requires
        first_walk(st, exprs, functions).1 is Ok,
        ready_to_settle(
            signature_table(first_walk(st, exprs, functions).1->Ok_0),
            first_walk(st, exprs, functions).1->Ok_0,
        ),
    ensures
        analyz_prog_spec(st, exprs, functions).1 is Ok,
        every_node_in(
            analyz_prog_spec(st, exprs, functions).1->Ok_0,
            settled_rule(signature_table(first_walk(st, exprs, functions).1->Ok_0)),
        ),
{
    let prog = first_walk(st, exprs, functions).1->Ok_0;
    lemma_correct_settles(signature_table(prog), prog);
}

/// Whether the node `n`, if it is a call of a function of which `sigs`
/// says what it returns, has the kind that the function returns.
pub open spec fn call_settled(sigs: Map<Seq<char>, Signature>, n: TypedExprView) -> bool {
    n.expr matches AnalyzedExprView::FnCall { name, args } ==> sigs.contains_key(name)
        && sigs[name].ret != ConstType::Dynamic ==> n.ty == sigs[name].ret
}

/// `call_settled` as a rule for `every_node`.
pub open spec fn call_settled_rule(sigs: Map<Seq<char>, Signature>) -> spec_fn(
    TypedExprView,
) -> bool {
    |n: TypedExprView| call_settled(sigs, n)
}

/// Correction settles the calls of one tree, for any rule that says what
/// `call_settled` says.
proof fn lemma_correct_calls(
    sigs: Map<Seq<char>, Signature>,
    t: TypedExprView,
    p: spec_fn(TypedExprView) -> bool,
)
    requires
        forall|n: TypedExprView| p(n) == call_settled(sigs, n),
    ensures
        every_node(correct_spec(sigs, t), p),
    decreases t,
{
    let out = correct_spec(sigs, t);
    match t.expr {
        AnalyzedExprView::Literal(_) => {},
        AnalyzedExprView::Id(_) => {},
        AnalyzedExprView::BinaryExpr { op, left, right } => {
            lemma_correct_calls(sigs, *left, p);
            lemma_correct_calls(sigs, *right, p);
        },
        AnalyzedExprView::VarDeclare { name, val } => {
            lemma_correct_calls(sigs, *val, p);
        },
        AnalyzedExprView::VarAssign { name, val } => {
            lemma_correct_calls(sigs, *val, p);
        },
        AnalyzedExprView::FnCall { name, args } => {
            let corrected = correct_all_spec(sigs, args);
            lemma_correct_all_calls(sigs, args, p);
            if sigs.contains_key(name) {
                let given = settle_args(sigs[name].params, corrected);
                assert forall|i: int| 0 <= i < given.len() implies every_node(
                    #[trigger] given[i],
                    p,
                ) by {
                    let arg = corrected[i];
                    let param = param_at(sigs[name].params, i);
                    assert(every_node(arg, p));
                    assert(given[i] == settle_arg(param, arg));
                    if given[i] != arg {
                        let inner = *arg.expr->As_0;
                        if given[i] != inner {
                            let retyped = TypedExprView { expr: arg.expr, ty: param };
                            assert(given[i] == retyped);
                            assert(call_settled(sigs, retyped));
                            assert(p(retyped));
                        }
                    }
                }
                assert(every_node_in(given, p));
            }
            assert(out == settle_call(sigs, name, corrected, t.ty));
        },
        AnalyzedExprView::If { cond, body, alt } => {
            lemma_correct_calls(sigs, *cond, p);
            lemma_correct_all_calls(sigs, body, p);
            match alt {
                Some(a) => {
                    lemma_correct_calls(sigs, *a, p);
                },
                None => {},
            }
        },
        AnalyzedExprView::Block(ts) => {
            lemma_correct_all_calls(sigs, ts, p);
        },
        AnalyzedExprView::RetExpr(inner) => {
            lemma_correct_calls(sigs, *inner, p);
        },
        AnalyzedExprView::Discard(inner) => {
            lemma_correct_calls(sigs, *inner, p);
        },
        AnalyzedExprView::As(inner) => {
            lemma_correct_calls(sigs, *inner, p);
        },
        AnalyzedExprView::Import { .. } => {},
        AnalyzedExprView::Debug(_, _, _) => {},
        AnalyzedExprView::Func { ret, name, args, body } => {
            lemma_correct_all_calls(sigs, body, p);
        },
    }
    assert(call_settled(sigs, out));
    assert(p(out));
}

/// Correction settles the calls of every tree of a run.
proof fn lemma_correct_all_calls(
    sigs: Map<Seq<char>, Signature>,
    ts: Seq<TypedExprView>,
    p: spec_fn(TypedExprView) -> bool,
)
    requires
        forall|n: TypedExprView| p(n) == call_settled(sigs, n),
    ensures
        every_node_in(correct_all_spec(sigs, ts), p),
    decreases ts,
{
    let out = correct_all_spec(sigs, ts);
    assert forall|i: int| 0 <= i < out.len() implies every_node(#[trigger] out[i], p) by {
        lemma_correct_calls(sigs, ts[i], p);
    }
}

/// In every corrected program, every call of a function of which the
/// program says what it returns has the kind that the function returns:
/// a call stays `Dynamic` only where its callee does.
pub proof fn lemma_calls_take_return_types(prog: Seq<TypedExprView>)
    ensures
        every_node_in(correct_prog_spec(prog), call_settled_rule(signature_table(prog))),
{
    let sigs = signature_table(prog);
    lemma_correct_all_calls(sigs, prog, call_settled_rule(sigs));
}

} // verus!
