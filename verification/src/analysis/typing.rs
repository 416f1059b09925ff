//! The typing rules, stated over the mathematical values of the trees.
//!
//! Every rule takes the analyzer's state and a piece of syntax and gives
//! the state afterwards together with the typed node, or the kind of the
//! failure. Analysis stops at the first failure.

use vstd::prelude::*;
use crate::source::{ConstType, ErrKind, IdentView};
use crate::parser::FunctionView;
use crate::parser::ast::ExprView;
use crate::text::decimal_text;
use crate::analysis::{
    AnalyzedExprView, AnalyzerView, TypedExprView, fn_type, grants, is_comparison,
};
use crate::analysis::env::{EnvView, FnSigView};
use crate::analysis::correct::correct_prog_spec;

verus! {

/// What a rule gives: the state afterwards and the typed node or failure.
pub type Typed = (AnalyzerView, Result<TypedExprView, ErrKind>);

/// What a rule over a run of syntax gives.
pub type TypedRun = (AnalyzerView, Result<Seq<TypedExprView>, ErrKind>);

/// The name a kind is printed under.
pub open spec fn kind_text(ty: ConstType) -> Seq<char> {
    match ty {
        ConstType::Int => "Int"@,
        ConstType::Float => "Float"@,
        ConstType::Str => "Str"@,
        ConstType::Bool => "Bool"@,
        ConstType::Void => "Void"@,
        ConstType::Dynamic => "Dynamic"@,
    }
}

/// The message for a name that no open scope binds.
pub open spec fn undeclared_variable_text(name: Seq<char>) -> Seq<char> {
    "undeclared variable "@ + name
}

/// The message for a name that the current scope binds already.
pub open spec fn redeclared_variable_text(name: Seq<char>) -> Seq<char> {
    "variable "@ + name + " is already declared"@
}

/// The message for a call of a function that was never declared.
pub open spec fn undeclared_function_text(name: Seq<char>) -> Seq<char> {
    "undeclared function "@ + name
}

/// The message for a call with the wrong number of arguments.
pub open spec fn arity_text(got: nat, expected: nat, name: Seq<char>) -> Seq<char> {
    "not enough arguments got "@ + decimal_text(got) + " arguments, expected "@ + decimal_text(
        expected,
    ) + " arguments for function "@ + name
}

/// The message for an operator that the operand's kind does not grant.
pub open spec fn operator_text(ty: ConstType, op: Seq<char>) -> Seq<char> {
    "one of possible types ["@ + kind_text(ty) + "] does not support operator "@ + op
        + ", use the do keyword to do it anyways"@
}

/// `expr` coerced to `ty`.
pub open spec fn coerced(ty: ConstType, expr: TypedExprView) -> TypedExprView {
    TypedExprView { expr: AnalyzedExprView::As(Box::new(expr)), ty }
}

/// The kind an identifier's annotation stands for.
pub open spec fn declared_ty(id: IdentView) -> ConstType {
    match id.tag {
        Some(ty) => ty,
        None => ConstType::Dynamic,
    }
}

/// The operands of a binary node after the coercion that their kinds call
/// for: the first row of the table that matches decides.
pub open spec fn coerce_operands(lhs: TypedExprView, rhs: TypedExprView) -> (
    TypedExprView,
    TypedExprView,
) {
    if lhs.ty == rhs.ty {
        (lhs, rhs)
    } else if lhs.ty == ConstType::Float && rhs.ty == ConstType::Int {
        (lhs, coerced(lhs.ty, rhs))
    } else if lhs.ty == ConstType::Int && rhs.ty == ConstType::Float {
        (coerced(rhs.ty, lhs), rhs)
    } else if lhs.ty == ConstType::Str {
        (lhs, coerced(lhs.ty, rhs))
    } else if rhs.ty == ConstType::Str {
        (coerced(rhs.ty, lhs), rhs)
    } else if lhs.ty == ConstType::Dynamic {
        (lhs, coerced(lhs.ty, rhs))
    } else if rhs.ty == ConstType::Dynamic {
        (coerced(rhs.ty, lhs), rhs)
    } else {
        (lhs, rhs)
    }
}

/// Whether the table of coercions has a row for operands of the kinds
/// `lhs` and `rhs`: they are the same kind, an integer and a float, or one
/// of them is a string or still to be settled.
pub open spec fn coercible(lhs: ConstType, rhs: ConstType) -> bool {
    ||| lhs == rhs
    ||| lhs == ConstType::Float && rhs == ConstType::Int
    ||| lhs == ConstType::Int && rhs == ConstType::Float
    ||| lhs == ConstType::Str
    ||| rhs == ConstType::Str
    ||| lhs == ConstType::Dynamic
    ||| rhs == ConstType::Dynamic
}

/// The kind that operands of the kinds `lhs` and `rhs` are brought to:
/// a float for an integer and a float, a string where one is a string,
/// `Dynamic` where one is still to be settled. Where the table has no row
/// for the pair, the left operand keeps its kind.
pub open spec fn joined_ty(lhs: ConstType, rhs: ConstType) -> ConstType {
    if lhs == rhs {
        lhs
    } else if lhs == ConstType::Float && rhs == ConstType::Int {
        ConstType::Float
    } else if lhs == ConstType::Int && rhs == ConstType::Float {
        ConstType::Float
    } else if lhs == ConstType::Str || rhs == ConstType::Str {
        ConstType::Str
    } else if lhs == ConstType::Dynamic || rhs == ConstType::Dynamic {
        ConstType::Dynamic
    } else {
        lhs
    }
}

/// The kind of a binary node: `Bool` for a comparison, else the kind of
/// its left operand after coercion.
pub open spec fn binary_ty(op: Seq<char>, lhs: ConstType) -> ConstType {
    if is_comparison(op) {
        ConstType::Bool
    } else {
        lhs
    }
}

/// The rule for a binary node whose operands are typed already.
pub open spec fn combine(st: AnalyzerView, op: Seq<char>, lhs: TypedExprView, rhs: TypedExprView)
    -> Typed {
    let (left, right) = coerce_operands(lhs, rhs);
    let ty = binary_ty(op, left.ty);
    if grants(left.ty, op) {
        (
            st,
            Ok(
                TypedExprView {
                    expr: AnalyzedExprView::BinaryExpr {
                        op,
                        left: Box::new(left),
                        right: Box::new(right),
                    },
                    ty,
                },
            ),
        )
    } else {
        (
            st.report(ErrKind::OperationNotGranted, operator_text(ty, op)),
            Err(ErrKind::OperationNotGranted),
        )
    }
}

/// The rule for an identifier.
pub open spec fn analyz_id_spec(st: AnalyzerView, id: IdentView) -> Typed {
    match st.env.get_ty(id.val) {
        Some(ty) => (st, Ok(TypedExprView { expr: AnalyzedExprView::Id(id.val), ty })),
        None => (
            st.report(ErrKind::UndeclaredVar, undeclared_variable_text(id.val)),
            Err(ErrKind::UndeclaredVar),
        ),
    }
}

/// The rule for a declaration whose value is typed already.
pub open spec fn declare(st: AnalyzerView, name: Seq<char>, val: TypedExprView) -> Typed {
    if st.env.has_local(name) {
        (
            st.report(ErrKind::VarAlreadyDeclared, redeclared_variable_text(name)),
            Err(ErrKind::VarAlreadyDeclared),
        )
    } else {
        (
            st.with_env(st.env.add(name, val.ty)),
            Ok(
                TypedExprView {
                    expr: AnalyzedExprView::VarDeclare { name, val: Box::new(val) },
                    ty: val.ty,
                },
            ),
        )
    }
}

/// The rule for an assignment whose value is typed already.
pub open spec fn assign(st: AnalyzerView, name: Seq<char>, val: TypedExprView) -> Typed {
    if st.env.has(name) {
        (
            st.with_env(st.env.modify(name, val.ty)),
            Ok(
                TypedExprView {
                    expr: AnalyzedExprView::VarAssign { name, val: Box::new(val) },
                    ty: val.ty,
                },
            ),
        )
    } else {
        (
            st.report(ErrKind::UndeclaredVar, undeclared_variable_text(name)),
            Err(ErrKind::UndeclaredVar),
        )
    }
}

/// Each argument of a call wrapped in a coercion to `Dynamic`, which the
/// second walk may retype.
pub open spec fn deferred_args(args: Seq<TypedExprView>) -> Seq<TypedExprView> {
    Seq::new(args.len(), |i: int| coerced(ConstType::Dynamic, args[i]))
}

/// The rule for the callee of a call with `given` arguments: the function
/// must be declared and take that many. Gives the kind the call has.
pub open spec fn resolve_call(st: AnalyzerView, name: IdentView, given: nat) -> (
    AnalyzerView,
    Result<ConstType, ErrKind>,
) {
    match st.env.get_function(name) {
        None => (
            st.report(ErrKind::UndeclaredVar, undeclared_function_text(name.val)),
            Err(ErrKind::UndeclaredVar),
        ),
        Some(sig) => {
            if sig.args.len() != given {
                (
                    st.report(
                        ErrKind::UndeclaredVar,
                        arity_text(given, sig.args.len(), name.val),
                    ),
                    Err(ErrKind::UndeclaredVar),
                )
            } else {
                (st, Ok(sig.ret))
            }
        },
    }
}

/// The node of a call of `name` of kind `ty` over typed arguments.
pub open spec fn call_node(name: Seq<char>, args: Seq<TypedExprView>, ty: ConstType)
    -> TypedExprView {
    TypedExprView { expr: AnalyzedExprView::FnCall { name, args: deferred_args(args) }, ty }
}

/// The node of a conditional over its typed parts. Its kind is that of
/// the body.
pub open spec fn if_node(
    cond: TypedExprView,
    body: Seq<TypedExprView>,
    alt: Option<TypedExprView>,
) -> TypedExprView {
    TypedExprView {
        expr: AnalyzedExprView::If {
            cond: Box::new(cond),
            body,
            alt: match alt {
                Some(a) => Some(Box::new(a)),
                None => None,
            },
        },
        ty: fn_type(body),
    }
}

/// The rule for one expression.
pub open spec fn analyz_spec(st: AnalyzerView, e: ExprView) -> Typed
    decreases e,
{
    match e {
        ExprView::Literal(l) => (
            st,
            Ok(TypedExprView { expr: AnalyzedExprView::Literal(l), ty: l.get_ty() }),
        ),
        ExprView::BinaryExpr { op, left, right } => {
            let (st1, rl) = analyz_spec(st, *left);
            match rl {
                Err(k) => (st1, Err(k)),
                Ok(lhs) => {
                    let (st2, rr) = analyz_spec(st1, *right);
                    match rr {
                        Err(k) => (st2, Err(k)),
                        Ok(rhs) => combine(st2, op, lhs, rhs),
                    }
                },
            }
        },
        ExprView::Ident(id) => analyz_id_spec(st, id),
        ExprView::VarDeclare { name, val } => {
            let (st1, r) = analyz_spec(st, *val);
            match r {
                Err(k) => (st1, Err(k)),
                Ok(t) => declare(st1, name.val, t),
            }
        },
        ExprView::VarAssign { name, val } => {
            let (st1, r) = analyz_spec(st, *val);
            match r {
                Err(k) => (st1, Err(k)),
                Ok(t) => assign(st1, name.val, t),
            }
        },
        ExprView::Discard(inner) => {
            let (st1, r) = analyz_spec(st, *inner);
            match r {
                Ok(t) => (
                    st1,
                    Ok(
                        TypedExprView {
                            expr: AnalyzedExprView::Discard(Box::new(t)),
                            ty: ConstType::Void,
                        },
                    ),
                ),
                Err(k) => (st1, Err(k)),
            }
        },
        ExprView::PosInfo(text, line, column) => (
            st.at(line, column),
            Ok(
                TypedExprView {
                    expr: AnalyzedExprView::Debug(text, line, column),
                    ty: ConstType::Void,
                },
            ),
        ),
        ExprView::RetExpr(inner) => {
            let (st1, r) = analyz_spec(st, *inner);
            match r {
                Ok(t) => (
                    st1,
                    Ok(TypedExprView { expr: AnalyzedExprView::RetExpr(Box::new(t)), ty: t.ty }),
                ),
                Err(k) => (st1, Err(k)),
            }
        },
        ExprView::FnCall { name, args } => {
            let (st0, rc) = resolve_call(st, name, args.len());
            match rc {
                Err(k) => (st0, Err(k)),
                Ok(ty) => {
                    let (st1, r) = analyz_all_spec(st0, args);
                    match r {
                        Ok(ts) => (st1, Ok(call_node(name.val, ts, ty))),
                        Err(k) => (st1, Err(k)),
                    }
                },
            }
        },
        ExprView::IfExpr { condition, body, alt } => {
            let (st1, rc) = analyz_spec(st, *condition);
            match rc {
                Err(k) => (st1, Err(k)),
                Ok(cond) => {
                    let (st2, rb) = analyz_all_spec(st1.with_env(st1.env.child()), body);
                    let st3 = st2.with_env(st2.env.parent());
                    match rb {
                        Err(k) => (st3, Err(k)),
                        Ok(ts) => {
                            match alt {
                                None => (st3, Ok(if_node(cond, ts, None))),
                                Some(a) => {
                                    let (st4, ra) = analyz_spec(st3, *a);
                                    match ra {
                                        Err(k) => (st4, Err(k)),
                                        Ok(ta) => (st4, Ok(if_node(cond, ts, Some(ta)))),
                                    }
                                },
                            }
                        },
                    }
                },
            }
        },
        ExprView::Block(es) => {
            let (st1, r) = analyz_all_spec(st, es);
            match r {
                Ok(ts) => (
                    st1,
                    Ok(TypedExprView { expr: AnalyzedExprView::Block(ts), ty: fn_type(ts) }),
                ),
                Err(k) => (st1, Err(k)),
            }
        },
    }
}

/// The rule for a run of expressions: each in turn, in the state the one
/// before left.
pub open spec fn analyz_all_spec(st: AnalyzerView, es: Seq<ExprView>) -> TypedRun
    decreases es,
{
    if es.len() == 0 {
        (st, Ok(Seq::empty()))
    } else {
        let (st1, r) = analyz_all_spec(st, es.drop_last());
        match r {
            Err(k) => (st1, Err(k)),
            Ok(ts) => {
                let (st2, r2) = analyz_spec(st1, es.last());
                match r2 {
                    Err(k) => (st2, Err(k)),
                    Ok(t) => (st2, Ok(ts.push(t))),
                }
            },
        }
    }
}

/// The rule for a binary expression: the left operand, then the right,
/// then coercion and the operator's grant.
pub open spec fn analyz_binary_expr_spec(
    st: AnalyzerView,
    left: ExprView,
    right: ExprView,
    op: Seq<char>,
) -> Typed {
    analyz_spec(st, ExprView::BinaryExpr { op, left: Box::new(left), right: Box::new(right) })
}

/// The rule for a declaration: the value first, then the binding.
pub open spec fn analyz_var_declare_spec(st: AnalyzerView, name: IdentView, val: ExprView)
    -> Typed {
    analyz_spec(st, ExprView::VarDeclare { name, val: Box::new(val) })
}

/// The rule for an assignment: the value first, then the rebinding.
pub open spec fn analyz_var_assign_spec(st: AnalyzerView, name: IdentView, val: ExprView) -> Typed {
    analyz_spec(st, ExprView::VarAssign { name, val: Box::new(val) })
}

/// `env` with each parameter bound, in order, to the kind its annotation
/// stands for.
pub open spec fn bind_params(env: EnvView, args: Seq<IdentView>) -> EnvView
    decreases args.len(),
{
    if args.len() == 0 {
        env
    } else {
        bind_params(env, args.drop_last()).add(args.last().val, declared_ty(args.last()))
    }
}

/// The node of a function over its typed body. It returns what its body
/// yields.
pub open spec fn function_node(
    name: Seq<char>,
    args: Seq<IdentView>,
    body: Seq<TypedExprView>,
) -> TypedExprView {
    TypedExprView {
        expr: AnalyzedExprView::Func { ret: fn_type(body), name, args, body },
        ty: fn_type(body),
    }
}

/// The rule for a function: its body is typed in a scope of its own that
/// binds the parameters; the scope is closed again, and the kind the body
/// yields becomes the function's return type.
pub open spec fn analyz_func_spec(st: AnalyzerView, f: FunctionView) -> Typed {
    let (st1, r) = analyz_all_spec(st.with_env(bind_params(st.env.child(), f.args)), f.body);
    let st2 = st1.with_env(st1.env.parent());
    match r {
        Err(k) => (st2, Err(k)),
        Ok(body) => (
            st2.with_env(st2.env.settle_function(f.name, f.args, fn_type(body))),
            Ok(function_node(f.name.val, f.args, body)),
        ),
    }
}

/// The rule for a run of functions: each in turn, in the state the one
/// before left.
pub open spec fn analyz_funcs_spec(st: AnalyzerView, fs: Seq<FunctionView>) -> TypedRun
    decreases fs.len(),
{
    if fs.len() == 0 {
        (st, Ok(Seq::empty()))
    } else {
        let (st1, r) = analyz_funcs_spec(st, fs.drop_last());
        match r {
            Err(k) => (st1, Err(k)),
            Ok(ts) => {
                let (st2, r2) = analyz_func_spec(st1, fs.last());
                match r2 {
                    Err(k) => (st2, Err(k)),
                    Ok(t) => (st2, Ok(ts.push(t))),
                }
            },
        }
    }
}

/// `env` with the signature of every function of `fs` filed in the
/// current scope, each with a return type still to be settled.
pub open spec fn register_all(env: EnvView, fs: Seq<FunctionView>) -> EnvView
    decreases fs.len(),
{
    if fs.len() == 0 {
        env
    } else {
        register_all(env, fs.drop_last()).push_function(
            fs.last().name,
            FnSigView { args: fs.last().args, ret: ConstType::Dynamic },
        )
    }
}

/// The parameters of an imported function as identifiers.
pub open spec fn import_params(args: Seq<(ConstType, Seq<char>)>) -> Seq<IdentView> {
    Seq::new(args.len(), |i: int| IdentView { tag: Some(args[i].0), val: args[i].1 })
}

/// The kinds of the parameters of an imported function.
pub open spec fn import_kinds(args: Seq<(ConstType, Seq<char>)>) -> Seq<ConstType> {
    Seq::new(args.len(), |i: int| args[i].0)
}

/// The state after importing `name` from `module`: its signature is filed
/// in the current scope.
pub open spec fn import_state(
    st: AnalyzerView,
    ty: ConstType,
    name: Seq<char>,
    args: Seq<(ConstType, Seq<char>)>,
) -> AnalyzerView {
    st.with_env(
        st.env.push_function(
            IdentView { tag: None, val: name },
            FnSigView { args: import_params(args), ret: ty },
        ),
    )
}

/// The node that an import leaves in the program.
pub open spec fn import_node(
    ty: ConstType,
    module: Seq<char>,
    name: Seq<char>,
    args: Seq<(ConstType, Seq<char>)>,
) -> TypedExprView {
    TypedExprView {
        expr: AnalyzedExprView::Import { module, name, args: import_kinds(args) },
        ty,
    }
}

/// The parameters of the one intrinsic, `writeln`: a single value of any
/// kind.
pub open spec fn writeln_params() -> Seq<(ConstType, Seq<char>)> {
    seq![(ConstType::Dynamic, "x"@)]
}

/// The first walk over a program, from the state `st`: `writeln` is
/// imported from `std`, every function is registered before any body is
/// typed, then the functions and after them the top-level expressions are
/// typed in order.
pub open spec fn first_walk(st: AnalyzerView, exprs: Seq<ExprView>, functions: Seq<FunctionView>)
    -> TypedRun {
    let seeded = import_state(st, ConstType::Void, "writeln"@, writeln_params());
    let head = seq![import_node(ConstType::Void, "std"@, "writeln"@, writeln_params())];
    let (st1, rf) = analyz_funcs_spec(
        seeded.with_env(register_all(seeded.env, functions)),
        functions,
    );
    match rf {
        Err(k) => (st1, Err(k)),
        Ok(fs) => {
            let (st2, re) = analyz_all_spec(st1, exprs);
            match re {
                Err(k) => (st2, Err(k)),
                Ok(es) => (st2, Ok(head + fs + es)),
            }
        },
    }
}

/// The analysis of a program from the state `st`: the first walk, then
/// the correction of what it produced.
pub open spec fn analyz_prog_spec(
    st: AnalyzerView,
    exprs: Seq<ExprView>,
    functions: Seq<FunctionView>,
) -> TypedRun {
    let (st1, r) = first_walk(st, exprs, functions);
    match r {
        Err(k) => (st1, Err(k)),
        Ok(prog) => (st1, Ok(correct_prog_spec(prog))),
    }
}

} // verus!
