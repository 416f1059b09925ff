//! Scopes stay balanced and function tables stay filled.

use vstd::prelude::*;
use crate::source::{ConstType, ErrKind, IdentView};
use crate::parser::FunctionView;
use crate::parser::ast::ExprView;
use crate::analysis::{AnalyzerView, TypedExprView, fn_type};
use crate::analysis::env::{
    EnvView, FnSigView, ScopeView, keeps_signatures, lemma_innermost_function, lemma_innermost_var,
    lemma_same_functions, same_functions,
};
use crate::analysis::typing::{
    analyz_all_spec, analyz_func_spec, analyz_funcs_spec, analyz_prog_spec, analyz_spec, assign,
    bind_params,
    declare, declared_ty, import_params, import_state, register_all, resolve_call,
    writeln_params,
};

verus! {

/// `same_functions` is transitive.
proof fn lemma_same_functions_chain(a: EnvView, b: EnvView, c: EnvView)
    requires
        same_functions(a, b),
        same_functions(b, c),
    ensures
        same_functions(a, c),
{
    assert forall|i: int| 0 <= i < a.frames.len() implies (#[trigger] a.frames[i]).funcs
        == c.frames[i].funcs by {
        assert(a.frames[i].funcs == b.frames[i].funcs);
        assert(b.frames[i].funcs == c.frames[i].funcs);
    }
}

/// Binding and rebinding variables touches no function table.
proof fn lemma_vars_keep_functions(env: EnvView, name: Seq<char>, ty: ConstType)
    requires
        env.depth() >= 1,
    ensures
        same_functions(env.add(name, ty), env),
        same_functions(env.modify(name, ty), env),
{
    lemma_innermost_var(env.frames, name);
}

/// A scope that is opened and closed again leaves the function tables
/// that were there as they were, whatever was bound in between.
proof fn lemma_scope_keeps_functions(outer: EnvView, inner: EnvView)
    requires
        outer.depth() >= 1,
        same_functions(inner, outer.child()),
    ensures
        same_functions(inner.parent(), outer),
{
    let closed = inner.parent();
    assert forall|i: int| 0 <= i < outer.frames.len() implies (#[trigger] closed.frames[i]).funcs
        == outer.frames[i].funcs by {
        assert(inner.frames[i].funcs == outer.child().frames[i].funcs);
    }
}

/// Typing an expression leaves as many scopes open as it found, and every
/// function table as it was: every scope that a conditional opens for its
/// body is closed again, also where the body fails, and expressions
/// declare no functions.
pub proof fn lemma_analyz_keeps_functions(st: AnalyzerView, e: ExprView)
    requires
        st.env.depth() >= 1,
    ensures
        same_functions(analyz_spec(st, e).0.env, st.env),
    decreases e,
{
    match e {
        ExprView::Literal(_) => {},
        ExprView::BinaryExpr { op, left, right } => {
            lemma_analyz_keeps_functions(st, *left);
            let (st1, rl) = analyz_spec(st, *left);
            if rl is Ok {
                lemma_analyz_keeps_functions(st1, *right);
                lemma_same_functions_chain(analyz_spec(st1, *right).0.env, st1.env, st.env);
            }
        },
        ExprView::Ident(_) => {},
        ExprView::VarDeclare { name, val } => {
            lemma_analyz_keeps_functions(st, *val);
            let (st1, r) = analyz_spec(st, *val);
            if r is Ok {
                lemma_vars_keep_functions(st1.env, name.val, r->Ok_0.ty);
                lemma_same_functions_chain(declare(st1, name.val, r->Ok_0).0.env, st1.env, st.env);
            }
        },
        ExprView::VarAssign { name, val } => {
            lemma_analyz_keeps_functions(st, *val);
            let (st1, r) = analyz_spec(st, *val);
            if r is Ok {
                lemma_vars_keep_functions(st1.env, name.val, r->Ok_0.ty);
                lemma_same_functions_chain(assign(st1, name.val, r->Ok_0).0.env, st1.env, st.env);
            }
        },
        ExprView::Discard(inner) => {
            lemma_analyz_keeps_functions(st, *inner);
        },
        ExprView::PosInfo(_, _, _) => {},
        ExprView::RetExpr(inner) => {
            lemma_analyz_keeps_functions(st, *inner);
        },
        ExprView::FnCall { name, args } => {
            let (st0, rc) = resolve_call(st, name, args.len());
            if rc is Ok {
                lemma_run_keeps_functions(st0, args);
            }
        },
        ExprView::IfExpr { condition, body, alt } => {
            lemma_analyz_keeps_functions(st, *condition);
            let (st1, rc) = analyz_spec(st, *condition);
            if rc is Ok {
                let inner = st1.with_env(st1.env.child());
                lemma_run_keeps_functions(inner, body);
                let (st2, rb) = analyz_all_spec(inner, body);
                let st3 = st2.with_env(st2.env.parent());
                lemma_scope_keeps_functions(st1.env, st2.env);
                lemma_same_functions_chain(st3.env, st1.env, st.env);
                if rb is Ok {
                    match alt {
                        Some(a) => {
                            lemma_analyz_keeps_functions(st3, *a);
                            lemma_same_functions_chain(
                                analyz_spec(st3, *a).0.env,
                                st3.env,
                                st.env,
                            );
                        },
                        None => {},
                    }
                }
            }
        },
        ExprView::Block(es) => {
            lemma_run_keeps_functions(st, es);
        },
    }
}

/// Typing a run of expressions leaves as many scopes open as it found, and
/// every function table as it was.
pub proof fn lemma_run_keeps_functions(st: AnalyzerView, es: Seq<ExprView>)
    requires
        st.env.depth() >= 1,
    ensures
        same_functions(analyz_all_spec(st, es).0.env, st.env),
    decreases es,
{
    if es.len() > 0 {
        lemma_run_keeps_functions(st, es.drop_last());
        let (st1, r) = analyz_all_spec(st, es.drop_last());
        if r is Ok {
            lemma_analyz_keeps_functions(st1, es.last());
            lemma_same_functions_chain(analyz_spec(st1, es.last()).0.env, st1.env, st.env);
        }
    }
}

/// Binding parameters opens and closes no scope and touches no function
/// table.
pub proof fn lemma_bind_params_keeps_functions(env: EnvView, args: Seq<IdentView>)
    requires
        env.depth() >= 1,
    ensures
        same_functions(bind_params(env, args), env),
    decreases args.len(),
{
    if args.len() > 0 {
        lemma_bind_params_keeps_functions(env, args.drop_last());
        let before = bind_params(env, args.drop_last());
        lemma_vars_keep_functions(before, args.last().val, declared_ty(args.last()));
        lemma_same_functions_chain(bind_params(env, args), before, env);
    }
}

/// Environments with the same function tables keep each other's
/// signatures.
proof fn lemma_same_functions_keep(a: EnvView, b: EnvView)
    requires
        same_functions(a, b),
    ensures
        keeps_signatures(a, b),
{
    assert forall|name: IdentView| #[trigger] a.get_function(name) is Some implies b.get_function(
        name,
    ) is Some && b.get_function(name)->Some_0.args == a.get_function(name)->Some_0.args by {
        lemma_same_functions(a, b, name);
    }
}

/// `keeps_signatures` is transitive.
proof fn lemma_keeps_signatures_chain(a: EnvView, b: EnvView, c: EnvView)
    requires
        keeps_signatures(a, b),
        keeps_signatures(b, c),
    ensures
        keeps_signatures(a, c),
{
    assert forall|name: IdentView| #[trigger] a.get_function(name) is Some implies c.get_function(
        name,
    ) is Some && c.get_function(name)->Some_0.args == a.get_function(name)->Some_0.args by {
        assert(b.get_function(name) is Some);
    }
}

/// Scope balance: typing a function leaves as many scopes open as it
/// found, whether or not the body could be typed. Every function that was
/// resolved before is resolved afterwards, with the same parameters.
pub proof fn lemma_func_keeps_depth(st: AnalyzerView, f: FunctionView)
    requires
        st.env.depth() >= 1,
    ensures
        analyz_func_spec(st, f).0.env.depth() == st.env.depth(),
        keeps_signatures(st.env, analyz_func_spec(st, f).0.env),
{
    lemma_bind_params_keeps_functions(st.env.child(), f.args);
    let inner = st.with_env(bind_params(st.env.child(), f.args));
    lemma_run_keeps_functions(inner, f.body);
    let (st1, r) = analyz_all_spec(inner, f.body);
    lemma_same_functions_chain(st1.env, inner.env, st.env.child());
    lemma_scope_keeps_functions(st.env, st1.env);
    let st2 = st1.with_env(st1.env.parent());
    lemma_same_functions_keep(st.env, st2.env);
    if r is Ok {
        st2.env.lemma_depth_kept(
            Seq::empty(),
            arbitrary(),
            f.name,
            FnSigView { args: f.args, ret: fn_type(r->Ok_0) },
        );
        st2.env.lemma_settle_function(f.name, f.args, fn_type(r->Ok_0));
        lemma_keeps_signatures_chain(st.env, st2.env, analyz_func_spec(st, f).0.env);
    }
}

/// Typing a run of functions leaves as many scopes open as it found and
/// keeps the parameters of every function that was resolved before.
pub proof fn lemma_funcs_keep_signatures(st: AnalyzerView, fs: Seq<FunctionView>)
    requires
        st.env.depth() >= 1,
    ensures
        analyz_funcs_spec(st, fs).0.env.depth() == st.env.depth(),
        keeps_signatures(st.env, analyz_funcs_spec(st, fs).0.env),
    decreases fs.len(),
{
    if fs.len() > 0 {
        lemma_funcs_keep_signatures(st, fs.drop_last());
        let (st1, r) = analyz_funcs_spec(st, fs.drop_last());
        if r is Ok {
            lemma_func_keeps_depth(st1, fs.last());
            lemma_keeps_signatures_chain(st.env, st1.env, analyz_func_spec(st1, fs.last()).0.env);
        }
    }
}

/// Registration files every function of the program: each name resolves
/// to the parameters of the last function declared under it, whatever
/// stands before or after.
pub proof fn lemma_register_all(env: EnvView, fs: Seq<FunctionView>, j: int)
    requires
        env.depth() >= 1,
        0 <= j < fs.len(),
        forall|k: int| j < k < fs.len() ==> fs[k].name != fs[j].name,
    ensures
        register_all(env, fs).depth() == env.depth(),
        register_all(env, fs).get_function(fs[j].name) == Some(
            FnSigView { args: fs[j].args, ret: ConstType::Dynamic },
        ),
    decreases fs.len(),
{
    lemma_register_all_depth(env, fs);
    lemma_register_all_depth(env, fs.drop_last());
    let before = register_all(env, fs.drop_last());
    let sig = FnSigView { args: fs.last().args, ret: ConstType::Dynamic };
    before.lemma_push_function(fs.last().name, sig, fs[j].name);
    if j < fs.len() - 1 {
        lemma_register_all(env, fs.drop_last(), j);
    }
}

/// Registration opens and closes no scope.
pub proof fn lemma_register_all_depth(env: EnvView, fs: Seq<FunctionView>)
    requires
        env.depth() >= 1,
    ensures
        register_all(env, fs).depth() == env.depth(),
    decreases fs.len(),
{
    if fs.len() > 0 {
        lemma_register_all_depth(env, fs.drop_last());
        register_all(env, fs.drop_last()).lemma_depth_kept(
            Seq::empty(),
            arbitrary(),
            fs.last().name,
            FnSigView { args: fs.last().args, ret: ConstType::Dynamic },
        );
    }
}

/// The state in which the bodies of a program's functions are typed: the
/// intrinsic is imported and every function registered.
pub open spec fn registered(st: AnalyzerView, functions: Seq<FunctionView>) -> AnalyzerView {
    let seeded = import_state(st, ConstType::Void, "writeln"@, writeln_params());
    seeded.with_env(register_all(seeded.env, functions))
}

/// The state in which the body of the function at `caller` is typed, once
/// the functions before it are.
pub open spec fn body_entry(st: AnalyzerView, functions: Seq<FunctionView>, caller: int)
    -> AnalyzerView {
    let before = analyz_funcs_spec(registered(st, functions), functions.take(caller)).0;
    before.with_env(bind_params(before.env.child(), functions[caller].args))
}

/// Forward reference: inside the body of any function of a program, a call
/// under a name that the program declares finds its callee if it gives as
/// many arguments as the last function declared under that name takes,
/// wherever in the program that function stands, also after the caller.
/// This holds on entry to the body and after any run of expressions typed
/// in it.
pub proof fn lemma_forward_reference(
    st: AnalyzerView,
    functions: Seq<FunctionView>,
    caller: int,
    name: IdentView,
    given: nat,
    last: int,
    es: Seq<ExprView>,
)
    requires
        st.env.depth() >= 1,
        0 <= caller < functions.len(),
        0 <= last < functions.len(),
        functions[last].name == name,
        functions[last].args.len() == given,
        forall|k: int| last < k < functions.len() ==> functions[k].name != name,
        analyz_funcs_spec(registered(st, functions), functions.take(caller)).1 is Ok,
    ensures
        resolve_call(body_entry(st, functions, caller), name, given) == (
            body_entry(st, functions, caller),
            Ok::<ConstType, ErrKind>(
                body_entry(st, functions, caller).env.get_function(name)->Some_0.ret,
            ),
        ),
        resolve_call(
            analyz_all_spec(body_entry(st, functions, caller), es).0,
            name,
            given,
        ).1 is Ok,
{
    let seeded = import_state(st, ConstType::Void, "writeln"@, writeln_params());
    st.env.lemma_depth_kept(
        Seq::empty(),
        arbitrary(),
        IdentView { tag: None, val: "writeln"@ },
        FnSigView { args: import_params(writeln_params()), ret: ConstType::Void },
    );
    lemma_register_all(seeded.env, functions, last);
    let reg = registered(st, functions);
    lemma_funcs_keep_signatures(reg, functions.take(caller));
    let before = analyz_funcs_spec(reg, functions.take(caller)).0;
    assert(reg.env.get_function(name) is Some);
    assert(before.env.get_function(name) is Some);
    let opened = before.env.child();
    lemma_scope_opens(before.env, name);
    lemma_bind_params_keeps_functions(opened, functions[caller].args);
    let entry = before.with_env(bind_params(opened, functions[caller].args));
    lemma_same_functions(entry.env, opened, name);
    lemma_run_keeps_functions(entry, es);
    lemma_same_functions(analyz_all_spec(entry, es).0.env, entry.env, name);
}

/// Whether the function at `i` can be typed in the state in which the
/// first walk meets it, if the functions before it could.
pub open spec fn typed_in_turn(st: AnalyzerView, functions: Seq<FunctionView>, i: int) -> bool {
    let (before, r) = analyz_funcs_spec(registered(st, functions), functions.take(i));
    r is Ok ==> analyz_func_spec(before, functions[i]).1 is Ok
}

/// The functions before `n` can all be typed, if each but the caller can
/// be typed in its turn and the caller's body is one call that resolves.
proof fn lemma_forward_prefix(
    st: AnalyzerView,
    functions: Seq<FunctionView>,
    caller: int,
    name: IdentView,
    args: Seq<ExprView>,
    last: int,
    n: int,
)
    requires
        st.env.depth() >= 1,
        0 <= caller < functions.len(),
        0 <= last < functions.len(),
        0 <= n <= functions.len(),
        functions[caller].body == seq![ExprView::FnCall { name, args }],
        functions[last].name == name,
        functions[last].args.len() == args.len(),
        forall|k: int| last < k < functions.len() ==> functions[k].name != name,
        analyz_funcs_spec(registered(st, functions), functions.take(caller)).1 is Ok
            ==> analyz_all_spec(body_entry(st, functions, caller), args).1 is Ok,
        forall|i: int|
            0 <= i < functions.len() && i != caller ==> #[trigger] typed_in_turn(
                st,
                functions,
                i,
            ),
    ensures
        analyz_funcs_spec(registered(st, functions), functions.take(n)).1 is Ok,
    decreases n,
{
    if n > 0 {
        lemma_forward_prefix(st, functions, caller, name, args, last, n - 1);
        assert(functions.take(n).drop_last() =~= functions.take(n - 1));
        assert(functions.take(n).last() == functions[n - 1]);
        let (before, r) = analyz_funcs_spec(registered(st, functions), functions.take(n - 1));
        if n - 1 == caller {
            lemma_forward_reference(st, functions, caller, name, args.len(), last, Seq::empty());
            let entry = body_entry(st, functions, caller);
            let body = functions[caller].body;
            assert(body.drop_last() =~= Seq::<ExprView>::empty());
            assert(body.last() == ExprView::FnCall { name, args });
            assert(analyz_all_spec(entry, body.drop_last()) == (
                entry,
                Ok::<Seq<TypedExprView>, ErrKind>(Seq::empty()),
            ));
            assert(analyz_spec(entry, body.last()).1 is Ok);
            assert(analyz_all_spec(entry, body).1 is Ok);
            assert(analyz_func_spec(before, functions[caller]).1 is Ok);
        } else {
            assert(typed_in_turn(st, functions, n - 1));
        }
    }
}

/// Forward reference, for a whole program: let one function's body be a
/// call under a name that the program declares, with as many arguments as
/// the last function declared under that name takes, wherever that function
/// stands, also after the caller. If the arguments can be typed, every other
/// function can be typed in its turn, and so can the top-level expressions,
/// then the analysis of the program succeeds.
pub proof fn lemma_forward_program(
    st: AnalyzerView,
    exprs: Seq<ExprView>,
    functions: Seq<FunctionView>,
    caller: int,
    name: IdentView,
    args: Seq<ExprView>,
    last: int,
)
    requires
        st.env.depth() >= 1,
        0 <= caller < functions.len(),
        0 <= last < functions.len(),
        functions[caller].body == seq![ExprView::FnCall { name, args }],
        functions[last].name == name,
        functions[last].args.len() == args.len(),
        forall|k: int| last < k < functions.len() ==> functions[k].name != name,
        analyz_funcs_spec(registered(st, functions), functions.take(caller)).1 is Ok
            ==> analyz_all_spec(body_entry(st, functions, caller), args).1 is Ok,
        forall|i: int|
            0 <= i < functions.len() && i != caller ==> #[trigger] typed_in_turn(
                st,
                functions,
                i,
            ),
        analyz_funcs_spec(registered(st, functions), functions).1 is Ok ==> analyz_all_spec(
            analyz_funcs_spec(registered(st, functions), functions).0,
            exprs,
        ).1 is Ok,
    ensures
        analyz_prog_spec(st, exprs, functions).1 is Ok,
{
    lemma_forward_prefix(st, functions, caller, name, args, last, functions.len() as int);
    assert(functions.take(functions.len() as int) =~= functions);
}

/// A scope that was just opened files nothing: every name resolves as
/// outside it.
proof fn lemma_scope_opens(env: EnvView, name: IdentView)
    ensures
        env.child().get_function(name) == env.get_function(name),
{
    assert(env.child().frames.drop_last() =~= env.frames);
    lemma_innermost_function(env.frames, name);
}

/// Whether nothing is assigned in `e`.
pub open spec fn assigns_nothing(e: ExprView) -> bool
    decreases e,
{
    match e {
        ExprView::Literal(_) => true,
        ExprView::Ident(_) => true,
        ExprView::BinaryExpr { op, left, right } => assigns_nothing(*left) && assigns_nothing(
            *right,
        ),
        ExprView::VarDeclare { name, val } => assigns_nothing(*val),
        ExprView::VarAssign { .. } => false,
        ExprView::FnCall { name, args } => none_assigns(args),
        ExprView::IfExpr { condition, body, alt } => assigns_nothing(*condition) && none_assigns(
            body,
        ) && match alt {
            Some(a) => assigns_nothing(*a),
            None => true,
        },
        ExprView::Block(es) => none_assigns(es),
        ExprView::RetExpr(inner) => assigns_nothing(*inner),
        ExprView::Discard(inner) => assigns_nothing(*inner),
        ExprView::PosInfo(_, _, _) => true,
    }
}

/// Whether nothing is assigned in any expression of the run.
pub open spec fn none_assigns(es: Seq<ExprView>) -> bool
    decreases es,
{
    forall|i: int| 0 <= i < es.len() ==> assigns_nothing(#[trigger] es[i])
}

/// Whether the scope `after` binds every name that `before` binds, and to
/// the same kind if `exact`.
pub open spec fn scope_grown(before: ScopeView, after: ScopeView, exact: bool) -> bool {
    forall|name: Seq<char>| #[trigger]
        before.vars.contains_key(name) ==> after.vars.contains_key(name) && (exact
            ==> after.vars[name] == before.vars[name])
}

/// Whether the scope `after` binds the names that `before` binds and no
/// others, and to the same kinds if `exact`.
pub open spec fn scope_kept(before: ScopeView, after: ScopeView, exact: bool) -> bool {
    &&& forall|name: Seq<char>| #[trigger]
        before.vars.contains_key(name) == after.vars.contains_key(name)
    &&& exact ==> after.vars == before.vars
}

/// Whether `after` has the scopes of `before`, the outer ones with the
/// names they had and the current one with at least the names it had; and
/// every one of these names with the kind it had, if `exact`.
pub open spec fn bindings_kept(before: EnvView, after: EnvView, exact: bool) -> bool {
    &&& after.frames.len() == before.frames.len()
    &&& forall|i: int|
        0 <= i < before.frames.len() - 1 ==> scope_kept(
            #[trigger] before.frames[i],
            after.frames[i],
            exact,
        )
    &&& before.frames.len() >= 1 ==> scope_grown(before.current(), after.current(), exact)
}

/// `bindings_kept` is transitive.
proof fn lemma_bindings_kept_chain(a: EnvView, b: EnvView, c: EnvView, exact: bool)
    requires
        bindings_kept(a, b, exact),
        bindings_kept(b, c, exact),
    ensures
        bindings_kept(a, c, exact),
{
    assert forall|i: int| 0 <= i < a.frames.len() - 1 implies scope_kept(
        #[trigger] a.frames[i],
        c.frames[i],
        exact,
    ) by {
        assert(scope_kept(a.frames[i], b.frames[i], exact));
        assert(scope_kept(b.frames[i], c.frames[i], exact));
        if exact {
            assert(c.frames[i].vars == a.frames[i].vars);
        }
        assert forall|name: Seq<char>| #[trigger]
            a.frames[i].vars.contains_key(name) == c.frames[i].vars.contains_key(name) by {
            assert(a.frames[i].vars.contains_key(name) == b.frames[i].vars.contains_key(name));
        }
    }
    if a.frames.len() >= 1 {
        assert forall|name: Seq<char>| #[trigger]
            a.current().vars.contains_key(name) implies c.current().vars.contains_key(name) && (
        exact ==> c.current().vars[name] == a.current().vars[name]) by {
            assert(b.current().vars.contains_key(name));
        }
    }
}

/// A scope that is opened and closed again keeps the bindings that were
/// there, whatever was bound inside it.
proof fn lemma_scope_keeps_bindings(outer: EnvView, inner: EnvView, exact: bool)
    requires
        outer.depth() >= 1,
        bindings_kept(outer.child(), inner, exact),
    ensures
        bindings_kept(outer, inner.parent(), exact),
{
    let closed = inner.parent();
    assert forall|i: int| 0 <= i < outer.frames.len() implies scope_kept(
        outer.frames[i],
        #[trigger] closed.frames[i],
        exact,
    ) by {
        assert(scope_kept(outer.child().frames[i], inner.frames[i], exact));
    }
    assert(scope_kept(outer.current(), closed.current(), exact));
}

/// The frame law for variables. Typing an expression leaves the outer
/// scopes with the names they had and the current scope with at least the
/// names it had: a declaration binds in the current scope, and only an
/// assignment reaches an outer one, where it rebinds. Where nothing is
/// assigned in the expression, every one of these names keeps its kind.
pub proof fn lemma_analyz_keeps_bindings(st: AnalyzerView, e: ExprView)
    requires
        st.env.depth() >= 1,
    ensures
        bindings_kept(st.env, analyz_spec(st, e).0.env, assigns_nothing(e)),
    decreases e,
{
    let exact = assigns_nothing(e);
    lemma_analyz_keeps_functions(st, e);
    match e {
        ExprView::Literal(_) => {},
        ExprView::BinaryExpr { op, left, right } => {
            lemma_analyz_keeps_bindings(st, *left);
            lemma_analyz_keeps_functions(st, *left);
            let (st1, rl) = analyz_spec(st, *left);
            lemma_weaken(st.env, st1.env, assigns_nothing(*left), exact);
            if rl is Ok {
                lemma_analyz_keeps_bindings(st1, *right);
                let st2 = analyz_spec(st1, *right).0;
                lemma_weaken(st1.env, st2.env, assigns_nothing(*right), exact);
                lemma_bindings_kept_chain(st.env, st1.env, st2.env, exact);
            }
        },
        ExprView::Ident(_) => {},
        ExprView::VarDeclare { name, val } => {
            lemma_analyz_keeps_bindings(st, *val);
            lemma_analyz_keeps_functions(st, *val);
            let (st1, r) = analyz_spec(st, *val);
            if r is Ok {
                let st2 = declare(st1, name.val, r->Ok_0).0;
                assert(bindings_kept(st1.env, st2.env, exact));
                lemma_bindings_kept_chain(st.env, st1.env, st2.env, exact);
            }
        },
        ExprView::VarAssign { name, val } => {
            lemma_analyz_keeps_bindings(st, *val);
            lemma_analyz_keeps_functions(st, *val);
            let (st1, r) = analyz_spec(st, *val);
            lemma_weaken(st.env, st1.env, assigns_nothing(*val), false);
            if r is Ok {
                let st2 = assign(st1, name.val, r->Ok_0).0;
                lemma_innermost_var(st1.env.frames, name.val);
                assert(bindings_kept(st1.env, st2.env, false));
                lemma_bindings_kept_chain(st.env, st1.env, st2.env, false);
            }
        },
        ExprView::Discard(inner) => {
            lemma_analyz_keeps_bindings(st, *inner);
        },
        ExprView::PosInfo(_, _, _) => {},
        ExprView::RetExpr(inner) => {
            lemma_analyz_keeps_bindings(st, *inner);
        },
        ExprView::FnCall { name, args } => {
            let (st0, rc) = resolve_call(st, name, args.len());
            if rc is Ok {
                lemma_run_keeps_bindings(st0, args);
            }
        },
        ExprView::IfExpr { condition, body, alt } => {
            lemma_analyz_keeps_bindings(st, *condition);
            lemma_analyz_keeps_functions(st, *condition);
            let (st1, rc) = analyz_spec(st, *condition);
            lemma_weaken(st.env, st1.env, assigns_nothing(*condition), exact);
            if rc is Ok {
                let inner = st1.with_env(st1.env.child());
                lemma_run_keeps_bindings(inner, body);
                lemma_run_keeps_functions(inner, body);
                let (st2, rb) = analyz_all_spec(inner, body);
                lemma_weaken(inner.env, st2.env, none_assigns(body), exact);
                lemma_scope_keeps_bindings(st1.env, st2.env, exact);
                let st3 = st2.with_env(st2.env.parent());
                lemma_bindings_kept_chain(st.env, st1.env, st3.env, exact);
                if rb is Ok {
                    match alt {
                        Some(a) => {
                            lemma_analyz_keeps_bindings(st3, *a);
                            let st4 = analyz_spec(st3, *a).0;
                            lemma_weaken(st3.env, st4.env, assigns_nothing(*a), exact);
                            lemma_bindings_kept_chain(st.env, st3.env, st4.env, exact);
                        },
                        None => {},
                    }
                }
            }
        },
        ExprView::Block(es) => {
            lemma_run_keeps_bindings(st, es);
        },
    }
}

/// What holds of the bindings exactly holds of them loosely; and what is
/// known loosely is all that is asked where something is assigned.
proof fn lemma_weaken(a: EnvView, b: EnvView, known: bool, asked: bool)
    requires
        bindings_kept(a, b, known),
        asked ==> known,
    ensures
        bindings_kept(a, b, asked),
{
    assert forall|i: int| 0 <= i < a.frames.len() - 1 implies scope_kept(
        #[trigger] a.frames[i],
        b.frames[i],
        asked,
    ) by {
        assert(scope_kept(a.frames[i], b.frames[i], known));
    }
}

/// The frame law for variables, for a run of expressions.
pub proof fn lemma_run_keeps_bindings(st: AnalyzerView, es: Seq<ExprView>)
    requires
        st.env.depth() >= 1,
    ensures
        bindings_kept(st.env, analyz_all_spec(st, es).0.env, none_assigns(es)),
    decreases es,
{
    let exact = none_assigns(es);
    if es.len() > 0 {
        lemma_run_keeps_bindings(st, es.drop_last());
        lemma_run_keeps_functions(st, es.drop_last());
        let (st1, r) = analyz_all_spec(st, es.drop_last());
        assert(exact ==> none_assigns(es.drop_last())) by {
            if exact {
                assert forall|i: int| 0 <= i < es.drop_last().len() implies assigns_nothing(
                    #[trigger] es.drop_last()[i],
                ) by {
                    assert(assigns_nothing(es[i]));
                }
            }
        }
        lemma_weaken(st.env, st1.env, none_assigns(es.drop_last()), exact);
        if r is Ok {
            lemma_analyz_keeps_bindings(st1, es.last());
            let st2 = analyz_spec(st1, es.last()).0;
            assert(exact ==> assigns_nothing(es.last())) by {
                if exact {
                    assert(assigns_nothing(es[es.len() - 1]));
                }
            }
            lemma_weaken(st1.env, st2.env, assigns_nothing(es.last()), exact);
            lemma_bindings_kept_chain(st.env, st1.env, st2.env, exact);
        }
    }
}

/// Whether nothing in `e` can fail but the resolution of a call: `e` is made
/// of literals, calls, blocks, conditionals, returns, discards and position
/// markers alone.
pub open spec fn only_calls_fail(e: ExprView) -> bool
    decreases e,
{
    match e {
        ExprView::Literal(_) => true,
        ExprView::PosInfo(_, _, _) => true,
        ExprView::FnCall { name, args } => only_calls_fail_in(args),
        ExprView::IfExpr { condition, body, alt } => only_calls_fail(*condition)
            && only_calls_fail_in(body) && match alt {
            Some(a) => only_calls_fail(*a),
            None => true,
        },
        ExprView::Block(es) => only_calls_fail_in(es),
        ExprView::RetExpr(inner) => only_calls_fail(*inner),
        ExprView::Discard(inner) => only_calls_fail(*inner),
        _ => false,
    }
}

/// Whether nothing in the run can fail but the resolution of a call.
pub open spec fn only_calls_fail_in(es: Seq<ExprView>) -> bool
    decreases es,
{
    forall|i: int| 0 <= i < es.len() ==> only_calls_fail(#[trigger] es[i])
}

/// Whether every call in `e`, however deep, is under a name that `env`
/// resolves to a function of as many parameters as the call gives
/// arguments.
pub open spec fn calls_resolve(env: EnvView, e: ExprView) -> bool
    decreases e,
{
    match e {
        ExprView::Literal(_) => true,
        ExprView::Ident(_) => true,
        ExprView::PosInfo(_, _, _) => true,
        ExprView::BinaryExpr { op, left, right } => calls_resolve(env, *left) && calls_resolve(
            env,
            *right,
        ),
        ExprView::VarDeclare { name, val } => calls_resolve(env, *val),
        ExprView::VarAssign { name, val } => calls_resolve(env, *val),
        ExprView::FnCall { name, args } => env.get_function(name) is Some && env.get_function(
            name,
        )->Some_0.args.len() == args.len() && calls_resolve_in(env, args),
        ExprView::IfExpr { condition, body, alt } => calls_resolve(env, *condition)
            && calls_resolve_in(env, body) && match alt {
            Some(a) => calls_resolve(env, *a),
            None => true,
        },
        ExprView::Block(es) => calls_resolve_in(env, es),
        ExprView::RetExpr(inner) => calls_resolve(env, *inner),
        ExprView::Discard(inner) => calls_resolve(env, *inner),
    }
}

/// Whether every call in the run is under a name that `env` resolves to a
/// function of as many parameters as the call gives arguments.
pub open spec fn calls_resolve_in(env: EnvView, es: Seq<ExprView>) -> bool
    decreases es,
{
    forall|i: int| 0 <= i < es.len() ==> calls_resolve(env, #[trigger] es[i])
}

/// Calls that resolve in an environment resolve in every environment that
/// keeps its signatures.
pub proof fn lemma_calls_resolve_on(a: EnvView, b: EnvView, e: ExprView)
    requires
        keeps_signatures(a, b),
        calls_resolve(a, e),
    ensures
        calls_resolve(b, e),
    decreases e,
{
    match e {
        ExprView::BinaryExpr { op, left, right } => {
            lemma_calls_resolve_on(a, b, *left);
            lemma_calls_resolve_on(a, b, *right);
        },
        ExprView::VarDeclare { name, val } => {
            lemma_calls_resolve_on(a, b, *val);
        },
        ExprView::VarAssign { name, val } => {
            lemma_calls_resolve_on(a, b, *val);
        },
        ExprView::FnCall { name, args } => {
            assert(a.get_function(name) is Some);
            lemma_calls_resolve_in_on(a, b, args);
        },
        ExprView::IfExpr { condition, body, alt } => {
            lemma_calls_resolve_on(a, b, *condition);
            lemma_calls_resolve_in_on(a, b, body);
            match alt {
                Some(x) => {
                    lemma_calls_resolve_on(a, b, *x);
                },
                None => {},
            }
        },
        ExprView::Block(es) => {
            lemma_calls_resolve_in_on(a, b, es);
        },
        ExprView::RetExpr(inner) => {
            lemma_calls_resolve_on(a, b, *inner);
        },
        ExprView::Discard(inner) => {
            lemma_calls_resolve_on(a, b, *inner);
        },
        _ => {},
    }
}

/// Calls of a run that resolve in an environment resolve in every
/// environment that keeps its signatures.
pub proof fn lemma_calls_resolve_in_on(a: EnvView, b: EnvView, es: Seq<ExprView>)
    requires
        keeps_signatures(a, b),
        calls_resolve_in(a, es),
    ensures
        calls_resolve_in(b, es),
    decreases es,
{
    assert forall|i: int| 0 <= i < es.len() implies calls_resolve(b, #[trigger] es[i]) by {
        lemma_calls_resolve_on(a, b, es[i]);
    }
}

/// A scope that was just opened keeps every signature.
proof fn lemma_child_keeps_signatures(env: EnvView)
    ensures
        keeps_signatures(env, env.child()),
{
    assert forall|name: IdentView| #[trigger] env.get_function(name) is Some implies env.child(
    ).get_function(name) is Some && env.child().get_function(name)->Some_0.args
        == env.get_function(name)->Some_0.args by {
        lemma_scope_opens(env, name);
    }
}

/// Forward reference, for a call anywhere in an expression: an expression
/// in which nothing can fail but the resolution of a call is typed, if
/// every call in it, however deep, is under a name that the environment
/// resolves to a function of as many parameters as the call gives
/// arguments.
pub proof fn lemma_calls_are_typed(st: AnalyzerView, e: ExprView)
    requires
        st.env.depth() >= 1,
        only_calls_fail(e),
        calls_resolve(st.env, e),
    ensures
        analyz_spec(st, e).1 is Ok,
    decreases e,
{
    match e {
        ExprView::FnCall { name, args } => {
            lemma_calls_in_are_typed(st, args);
        },
        ExprView::IfExpr { condition, body, alt } => {
            lemma_calls_are_typed(st, *condition);
            lemma_analyz_keeps_functions(st, *condition);
            let (st1, rc) = analyz_spec(st, *condition);
            lemma_same_functions_keep(st.env, st1.env);
            lemma_child_keeps_signatures(st1.env);
            let inner = st1.with_env(st1.env.child());
            lemma_keeps_signatures_chain(st.env, st1.env, inner.env);
            lemma_calls_resolve_in_on(st.env, inner.env, body);
            lemma_calls_in_are_typed(inner, body);
            lemma_run_keeps_functions(inner, body);
            let (st2, rb) = analyz_all_spec(inner, body);
            lemma_scope_keeps_functions(st1.env, st2.env);
            let st3 = st2.with_env(st2.env.parent());
            match alt {
                Some(a) => {
                    lemma_same_functions_chain(st3.env, st1.env, st.env);
                    lemma_same_functions_keep(st.env, st3.env);
                    lemma_calls_resolve_on(st.env, st3.env, *a);
                    lemma_calls_are_typed(st3, *a);
                },
                None => {},
            }
        },
        ExprView::Block(es) => {
            lemma_calls_in_are_typed(st, es);
        },
        ExprView::RetExpr(inner) => {
            lemma_calls_are_typed(st, *inner);
        },
        ExprView::Discard(inner) => {
            lemma_calls_are_typed(st, *inner);
        },
        _ => {},
    }
}

/// `same_functions` reads the same from either side.
proof fn lemma_same_functions_turn(a: EnvView, b: EnvView)
    requires
        same_functions(a, b),
    ensures
        same_functions(b, a),
{
    assert forall|i: int| 0 <= i < b.frames.len() implies (#[trigger] b.frames[i]).funcs
        == a.frames[i].funcs by {
        assert(a.frames[i].funcs == b.frames[i].funcs);
    }
}

/// Forward reference, for calls anywhere in a run of expressions.
pub proof fn lemma_calls_in_are_typed(st: AnalyzerView, es: Seq<ExprView>)
    requires
        st.env.depth() >= 1,
        only_calls_fail_in(es),
        calls_resolve_in(st.env, es),
    ensures
        analyz_all_spec(st, es).1 is Ok,
    decreases es,
{
    if es.len() > 0 {
        let front = es.drop_last();
        assert forall|i: int| 0 <= i < front.len() implies only_calls_fail(
            #[trigger] front[i],
        ) && calls_resolve(st.env, front[i]) by {
            assert(only_calls_fail(es[i]) && calls_resolve(st.env, es[i]));
        }
        lemma_calls_in_are_typed(st, front);
        lemma_run_keeps_functions(st, front);
        let (st1, r) = analyz_all_spec(st, front);
        assert(only_calls_fail(es[es.len() - 1]) && calls_resolve(st.env, es[es.len() - 1]));
        lemma_same_functions_turn(st1.env, st.env);
        lemma_same_functions_keep(st.env, st1.env);
        lemma_calls_resolve_on(st.env, st1.env, es.last());
        lemma_calls_are_typed(st1, es.last());
    }
}

/// The functions before `n` are typed, if nothing in their bodies can
/// fail but the resolution of a call and every call resolves once all
/// functions are registered.
proof fn lemma_bodies_prefix(st: AnalyzerView, functions: Seq<FunctionView>, n: int)
    requires
        st.env.depth() >= 1,
        0 <= n <= functions.len(),
        forall|i: int|
            0 <= i < functions.len() ==> only_calls_fail_in((#[trigger] functions[i]).body)
                && calls_resolve_in(registered(st, functions).env, functions[i].body),
    ensures
        analyz_funcs_spec(registered(st, functions), functions.take(n)).1 is Ok,
    decreases n,
{
    let reg = registered(st, functions);
    let seeded = import_state(st, ConstType::Void, "writeln"@, writeln_params());
    st.env.lemma_depth_kept(
        Seq::empty(),
        arbitrary(),
        IdentView { tag: None, val: "writeln"@ },
        FnSigView { args: import_params(writeln_params()), ret: ConstType::Void },
    );
    lemma_register_all_depth(seeded.env, functions);
    if n > 0 {
        lemma_bodies_prefix(st, functions, n - 1);
        assert(functions.take(n).drop_last() =~= functions.take(n - 1));
        assert(functions.take(n).last() == functions[n - 1]);
        lemma_funcs_keep_signatures(reg, functions.take(n - 1));
        let (before, r) = analyz_funcs_spec(reg, functions.take(n - 1));
        let f = functions[n - 1];
        let opened = before.env.child();
        lemma_child_keeps_signatures(before.env);
        lemma_bind_params_keeps_functions(opened, f.args);
        let entry = before.with_env(bind_params(opened, f.args));
        lemma_same_functions_turn(entry.env, opened);
        lemma_same_functions_keep(opened, entry.env);
        lemma_keeps_signatures_chain(reg.env, before.env, opened);
        lemma_keeps_signatures_chain(reg.env, opened, entry.env);
        lemma_calls_resolve_in_on(reg.env, entry.env, f.body);
        lemma_calls_in_are_typed(entry, f.body);
    }
}

/// Forward reference, for a whole program: let nothing in the bodies of
/// the functions and in the top-level expressions be able to fail but the
/// resolution of a call, and let every call, however deep and wherever its
/// callee is declared, be under a name that resolves to a function of as
/// many parameters as it gives arguments once all functions are registered.
/// Then the analysis of the program succeeds.
pub proof fn lemma_forward_calls(
    st: AnalyzerView,
    exprs: Seq<ExprView>,
    functions: Seq<FunctionView>,
)
    requires
        st.env.depth() >= 1,
        forall|i: int|
            0 <= i < functions.len() ==> only_calls_fail_in((#[trigger] functions[i]).body)
                && calls_resolve_in(registered(st, functions).env, functions[i].body),
        only_calls_fail_in(exprs),
        calls_resolve_in(registered(st, functions).env, exprs),
    ensures
        analyz_prog_spec(st, exprs, functions).1 is Ok,
{
    let reg = registered(st, functions);
    let seeded = import_state(st, ConstType::Void, "writeln"@, writeln_params());
    st.env.lemma_depth_kept(
        Seq::empty(),
        arbitrary(),
        IdentView { tag: None, val: "writeln"@ },
        FnSigView { args: import_params(writeln_params()), ret: ConstType::Void },
    );
    lemma_register_all_depth(seeded.env, functions);
    lemma_bodies_prefix(st, functions, functions.len() as int);
    assert(functions.take(functions.len() as int) =~= functions);
    lemma_funcs_keep_signatures(reg, functions);
    let after = analyz_funcs_spec(reg, functions).0;
    lemma_calls_resolve_in_on(reg.env, after.env, exprs);
    lemma_calls_in_are_typed(after, exprs);
}

} // verus!
