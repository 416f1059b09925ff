//! The first walk: from the untyped tree to the typed one.

use vstd::prelude::*;
use vstd::string::*;
use crate::source::{ATErr, ConstType, ErrKind, Ident, IdentView};
use crate::parser::{Function, FunctionView, functions_view, idents_view};
use crate::parser::ast::{Expr, ExprView, exprs_view};
use crate::text::decimal;
use crate::analysis::{
    AnalyzedExpr, Analyzer, AnalyzerView, TypedExpr, TypedExprView, comparison, diagnostics_view,
    get_fn_type, reversed, supports_op, typed_views,
};
use crate::analysis::correct::correct_prog;
use crate::analysis::env::{Env, duplicate_idents};
use crate::analysis::laws::scopes::{
    lemma_analyz_keeps_functions, lemma_func_keeps_depth, lemma_run_keeps_functions,
};
use crate::analysis::typing::{
    analyz_all_spec, analyz_binary_expr_spec, analyz_func_spec, analyz_funcs_spec, analyz_id_spec,
    analyz_prog_spec, analyz_spec, analyz_var_assign_spec, analyz_var_declare_spec, assign,
    bind_params, call_node, coerced, combine, declare, deferred_args, if_node, import_kinds,
    import_node, import_params, import_state, kind_text, register_all, resolve_call,
    writeln_params,
};

verus! {

/// What an analysis step handed back, as the rules state it.
pub open spec fn outcome(r: Result<TypedExpr, ErrKind>) -> Result<TypedExprView, ErrKind> {
    match r {
        Ok(t) => Ok(t@),
        Err(k) => Err(k),
    }
}

/// What an analysis of a run of syntax handed back, as the rules state it.
pub open spec fn run_outcome(r: Result<Vec<TypedExpr>, ErrKind>) -> Result<
    Seq<TypedExprView>,
    ErrKind,
> {
    match r {
        Ok(ts) => Ok(typed_views(ts@)),
        Err(k) => Err(k),
    }
}

/// A failure in a prefix of a run is the failure of the whole run.
proof fn lemma_run_stops(st: AnalyzerView, es: Seq<ExprView>, i: int)
    requires
        0 <= i <= es.len(),
        analyz_all_spec(st, es.take(i)).1 is Err,
    ensures
        analyz_all_spec(st, es) == analyz_all_spec(st, es.take(i)),
    decreases es.len(),
{
    if i == es.len() {
        assert(es.take(i) =~= es);
    } else {
        assert(es.drop_last().take(i) =~= es.take(i));
        lemma_run_stops(st, es.drop_last(), i);
    }
}

/// A failure in a prefix of a run of functions is the failure of the whole
/// run.
proof fn lemma_funcs_stop(st: AnalyzerView, fs: Seq<FunctionView>, i: int)
    requires
        0 <= i <= fs.len(),
        analyz_funcs_spec(st, fs.take(i)).1 is Err,
    ensures
        analyz_funcs_spec(st, fs) == analyz_funcs_spec(st, fs.take(i)),
    decreases fs.len(),
{
    if i == fs.len() {
        assert(fs.take(i) =~= fs);
    } else {
        assert(fs.drop_last().take(i) =~= fs.take(i));
        lemma_funcs_stop(st, fs.drop_last(), i);
    }
}

/// The parameters of an import as the rules see them.
pub open spec fn pairs_view(args: Seq<(ConstType, String)>) -> Seq<(ConstType, Seq<char>)> {
    Seq::new(args.len(), |i: int| (args[i].0, args[i].1@))
}

/// `expr` coerced to `ty`.
#[inline]
pub fn ty_as(ty: &ConstType, expr: TypedExpr) -> (r: TypedExpr)
    ensures
        r@ == coerced(*ty, expr@),
{
    TypedExpr { expr: AnalyzedExpr::As(Box::new(expr)), ty: *ty }
}

/// The name a kind is printed under.
fn kind_name(ty: ConstType) -> (s: &'static str)
    ensures
        s@ == kind_text(ty),
{
    match ty {
        ConstType::Int => "Int",
        ConstType::Float => "Float",
        ConstType::Str => "Str",
        ConstType::Bool => "Bool",
        ConstType::Void => "Void",
        ConstType::Dynamic => "Dynamic",
    }
}

impl Analyzer {
    /// A fresh analyzer: an empty root scope, at the start of the source,
    /// nothing reported.
    pub fn new() -> (a: Analyzer)
        ensures
            a@ == AnalyzerView::fresh(),
    {
        let a = Analyzer { env: Env::new(), line: 0, column: 0, diagnostics: Vec::new() };
        assert(diagnostics_view(a.diagnostics@) =~= Seq::empty());
        a
    }

    /// Reports a failure at the position last seen.
    pub fn err(&mut self, kind: ErrKind, msg: String)
        ensures
            final(self)@ == old(self)@.report(kind, msg@),
    {
        let err = ATErr { kind, msg, line: self.line, column: self.column };
        self.diagnostics.push(err);
        assert(diagnostics_view(self.diagnostics@) =~= diagnostics_view(
            old(self).diagnostics@,
        ).push(err@));
    }

    /// Imports the function `name` from `module`: files its signature in
    /// the current scope and leaves an import node at the end of `body`.
    #[inline]
    pub fn import(
        &mut self,
        body: &mut Vec<TypedExpr>,
        ty: ConstType,
        module: &str,
        name: &str,
        args: Vec<(ConstType, String)>,
    )
        ensures
            final(self)@ == import_state(old(self)@, ty, name@, pairs_view(args@)),
            typed_views(final(body)@) == typed_views(old(body)@).push(
                import_node(ty, module@, name@, pairs_view(args@)),
            ),
    {
        let mut params: Vec<Ident> = Vec::new();
        let mut kinds: Vec<ConstType> = Vec::new();
        let mut i: usize = 0;
        while i < args.len()
            invariant
                i <= args.len(),
                params.len() == i,
                kinds.len() == i,
                forall|j: int|
                    0 <= j < i ==> params[j]@ == (IdentView {
                        tag: Some(args[j].0),
                        val: args[j].1@,
                    }),
                forall|j: int| 0 <= j < i ==> kinds[j] == args[j].0,
            decreases args.len() - i,
        {
            params.push(Ident { tag: Some(args[i].0), val: args[i].1.clone() });
            kinds.push(args[i].0);
            i = i + 1;
        }
        assert(idents_view(params@) =~= import_params(pairs_view(args@)));
        assert(kinds@ =~= import_kinds(pairs_view(args@)));
        self.env.push_function(Ident { tag: None, val: String::from_str(name) }, params, ty);
        let ghost before = body@;
        body.push(
            TypedExpr {
                expr: AnalyzedExpr::Import {
                    module: String::from_str(module),
                    name: String::from_str(name),
                    args: kinds,
                },
                ty,
            },
        );
        assert(typed_views(body@) =~= typed_views(before).push(
            import_node(ty, module@, name@, pairs_view(args@)),
        ));
    }

    /// Types the identifier `id`.
    pub fn analyz_id(&mut self, id: Ident) -> (r: Result<TypedExpr, ErrKind>)
        ensures
            (final(self)@, outcome(r)) == analyz_id_spec(old(self)@, id@),
    {
        match self.env.get_ty(&id.val) {
            Some(ty) => Ok(TypedExpr { expr: AnalyzedExpr::Id(id.val), ty }),
            None => {
                let mut msg = String::from_str("undeclared variable ");
                msg.append(id.val.as_str());
                self.err(ErrKind::UndeclaredVar, msg);
                Err(ErrKind::UndeclaredVar)
            },
        }
    }

    /// Binds `name` to the kind of the typed value `val` in the current
    /// scope, unless that scope binds it already.
    fn declare(&mut self, name: String, val: TypedExpr) -> (r: Result<TypedExpr, ErrKind>)
        ensures
            (final(self)@, outcome(r)) == declare(old(self)@, name@, val@),
    {
        if self.env.has_local(&name) {
            let mut msg = String::from_str("variable ");
            msg.append(name.as_str());
            msg.append(" is already declared");
            self.err(ErrKind::VarAlreadyDeclared, msg);
            return Err(ErrKind::VarAlreadyDeclared);
        }
        let ty = val.ty;
        self.env.add(&name, ty);
        Ok(TypedExpr { expr: AnalyzedExpr::VarDeclare { name, val: Box::new(val) }, ty })
    }

    /// Rebinds `name` to the kind of the typed value `val`, if any open
    /// scope binds it.
    fn assign(&mut self, name: String, val: TypedExpr) -> (r: Result<TypedExpr, ErrKind>)
        ensures
            (final(self)@, outcome(r)) == assign(old(self)@, name@, val@),
    {
        if !self.env.has(&name) {
            let mut msg = String::from_str("undeclared variable ");
            msg.append(name.as_str());
            self.err(ErrKind::UndeclaredVar, msg);
            return Err(ErrKind::UndeclaredVar);
        }
        let ty = val.ty;
        self.env.modify(&name, ty);
        Ok(TypedExpr { expr: AnalyzedExpr::VarAssign { name, val: Box::new(val) }, ty })
    }

    /// Coerces two typed operands to each other and types the node of `op`
    /// over them, if the left operand grants `op`.
    fn combine(&mut self, op: String, lhs: TypedExpr, rhs: TypedExpr) -> (r: Result<
        TypedExpr,
        ErrKind,
    >)
        ensures
            (final(self)@, outcome(r)) == combine(old(self)@, op@, lhs@, rhs@),
    {
        let mut lhs = lhs;
        let mut rhs = rhs;
        let lt = lhs.ty;
        let rt = rhs.ty;
        if lt != rt {
            if lt == ConstType::Float && rt == ConstType::Int {
                rhs = ty_as(&lt, rhs);
            } else if lt == ConstType::Int && rt == ConstType::Float {
                lhs = ty_as(&rt, lhs);
            } else if lt == ConstType::Str {
                rhs = ty_as(&lt, rhs);
            } else if rt == ConstType::Str {
                lhs = ty_as(&rt, lhs);
            } else if lt == ConstType::Dynamic {
                rhs = ty_as(&lt, rhs);
            } else if rt == ConstType::Dynamic {
                lhs = ty_as(&rt, lhs);
            }
        }
        let ty = if comparison(&op) {
            ConstType::Bool
        } else {
            lhs.ty
        };
        if !supports_op(&lhs.ty, &op) {
            let mut msg = String::from_str("one of possible types [");
            msg.append(kind_name(ty));
            msg.append("] does not support operator ");
            msg.append(op.as_str());
            msg.append(", use the do keyword to do it anyways");
            self.err(ErrKind::OperationNotGranted, msg);
            return Err(ErrKind::OperationNotGranted);
        }
        Ok(
            TypedExpr {
                expr: AnalyzedExpr::BinaryExpr { op, left: Box::new(lhs), right: Box::new(rhs) },
                ty,
            },
        )
    }

    /// Looks up the callee of a call with `given` arguments and gives the
    /// kind the call has.
    fn resolve_call(&mut self, name: &Ident, given: usize) -> (r: Result<ConstType, ErrKind>)
        ensures
            (final(self)@, r) == resolve_call(old(self)@, name@, given as nat),
    {
        let (expected, ty) = match self.env.get_function(name) {
            Some(sig) => (sig.args.len(), sig.ret),
            None => {
                let mut msg = String::from_str("undeclared function ");
                msg.append(name.val.as_str());
                self.err(ErrKind::UndeclaredVar, msg);
                return Err(ErrKind::UndeclaredVar);
            },
        };
        if expected != given {
            let mut msg = String::from_str("not enough arguments got ");
            msg.append(decimal(given as u64).as_str());
            msg.append(" arguments, expected ");
            msg.append(decimal(expected as u64).as_str());
            msg.append(" arguments for function ");
            msg.append(name.val.as_str());
            self.err(ErrKind::UndeclaredVar, msg);
            return Err(ErrKind::UndeclaredVar);
        }
        Ok(ty)
    }

    /// Types a run of expressions, each in the state the one before left,
    /// and stops at the first failure.
    pub fn analyz_all(&mut self, exprs: Vec<Expr>) -> (r: Result<Vec<TypedExpr>, ErrKind>)
        ensures
            (final(self)@, run_outcome(r)) == analyz_all_spec(old(self)@, exprs_view(exprs@)),
            final(self)@.env.depth() == old(self)@.env.depth(),
        decreases exprs, 0nat,
    {
        proof {
            self.env.lemma_rooted();
            lemma_run_keeps_functions(self@, exprs_view(exprs@));
        }
        let ghost all = exprs@;
        let ghost views = exprs_view(all);
        let mut stack = reversed(exprs);
        let mut typed: Vec<TypedExpr> = Vec::new();
        assert(views.take(0) =~= Seq::empty());
        assert(typed_views(typed@) =~= Seq::empty());
        while stack.len() > 0
            invariant
                all == exprs@,
                views == exprs_view(all),
                old(self)@.env.depth() >= 1,
                stack.len() <= all.len(),
                forall|j: int| 0 <= j < stack.len() ==> stack[j] == all[all.len() - 1 - j],
                analyz_all_spec(old(self)@, views.take(all.len() - stack.len())) == (
                    self@,
                    Ok::<Seq<TypedExprView>, ErrKind>(typed_views(typed@)),
                ),
            decreases stack.len(),
        {
            let ghost i = all.len() - stack.len();
            let ghost before = self@;
            let ghost done = typed@;
            let expr = stack.pop().unwrap();
            assert(expr == all[i]);
            assert(views.take(i + 1).drop_last() =~= views.take(i));
            assert(views.take(i + 1).last() == expr@);
            match self.analyz(expr) {
                Ok(t) => {
                    typed.push(t);
                    assert(typed_views(typed@) =~= typed_views(done).push(t@));
                },
                Err(k) => {
                    proof {
                        lemma_run_stops(old(self)@, views, i + 1);
                        lemma_run_keeps_functions(old(self)@, views);
                    }
                    return Err(k);
                },
            }
        }
        assert(views.take(all.len() as int) =~= views);
        Ok(typed)
    }

    /// Types a call: the callee is looked up first, then each argument is
    /// typed in turn.
    fn analyz_call(&mut self, name: Ident, params: Vec<Expr>) -> (r: Result<TypedExpr, ErrKind>)
        ensures
            (final(self)@, outcome(r)) == analyz_spec(
                old(self)@,
                ExprView::FnCall { name: name@, args: exprs_view(params@) },
            ),
        decreases params, 1nat,
    {
        let ty = match self.resolve_call(&name, params.len()) {
            Ok(ty) => ty,
            Err(k) => {
                return Err(k);
            },
        };
        match self.analyz_all(params) {
            Ok(typed) => Ok(call_of(name.val, typed, ty)),
            Err(k) => Err(k),
        }
    }

    /// Types a conditional: the condition, the body in a scope of its own,
    /// then the alternative in the scope of the conditional.
    fn analyz_if(
        &mut self,
        condition: Expr,
        body: Vec<Expr>,
        alt: Option<Box<Expr>>,
        Ghost(whole): Ghost<Expr>,
    ) -> (r: Result<TypedExpr, ErrKind>)
        requires
            whole == (Expr::IfExpr { condition: Box::new(condition), body, alt }),
        ensures
            (final(self)@, outcome(r)) == analyz_spec(old(self)@, whole@),
        decreases whole, 1nat,
    {
        let cond = match self.analyz(condition) {
            Ok(t) => t,
            Err(k) => {
                return Err(k);
            },
        };
        self.env.child();
        let analyzed = self.analyz_all(body);
        self.env.parent();
        let analyzed_body = match analyzed {
            Ok(ts) => ts,
            Err(k) => {
                return Err(k);
            },
        };
        match alt {
            None => Ok(conditional(cond, analyzed_body, None)),
            Some(a) => {
                match self.analyz(*a) {
                    Ok(t) => Ok(conditional(cond, analyzed_body, Some(t))),
                    Err(k) => Err(k),
                }
            },
        }
    }

    /// Types one expression.
    pub fn analyz(&mut self, expr: Expr) -> (r: Result<TypedExpr, ErrKind>)
        ensures
            (final(self)@, outcome(r)) == analyz_spec(old(self)@, expr@),
            final(self)@.env.depth() == old(self)@.env.depth(),
        decreases expr, 2nat,
    {
        proof {
            self.env.lemma_rooted();
            lemma_analyz_keeps_functions(self@, expr@);
        }
        match expr {
            Expr::Literal(literal) => {
                let ty = literal.get_ty();
                Ok(TypedExpr { expr: AnalyzedExpr::Literal(literal), ty })
            },
            Expr::BinaryExpr { op, left, right } => {
                let lhs = match self.analyz(*left) {
                    Ok(t) => t,
                    Err(k) => {
                        return Err(k);
                    },
                };
                let rhs = match self.analyz(*right) {
                    Ok(t) => t,
                    Err(k) => {
                        return Err(k);
                    },
                };
                self.combine(op, lhs, rhs)
            },
            Expr::Ident(id) => self.analyz_id(id),
            Expr::VarDeclare { name, val } => {
                match self.analyz(*val) {
                    Ok(t) => self.declare(name.val, t),
                    Err(k) => Err(k),
                }
            },
            Expr::VarAssign { name, val } => {
                match self.analyz(*val) {
                    Ok(t) => self.assign(name.val, t),
                    Err(k) => Err(k),
                }
            },
            Expr::Discard(inner) => {
                match self.analyz(*inner) {
                    Ok(t) => Ok(
                        TypedExpr {
                            expr: AnalyzedExpr::Discard(Box::new(t)),
                            ty: ConstType::Void,
                        },
                    ),
                    Err(k) => Err(k),
                }
            },
            Expr::PosInfo(text, line, column) => {
                self.line = line;
                self.column = column;
                Ok(
                    TypedExpr {
                        expr: AnalyzedExpr::Debug(text, line, column),
                        ty: ConstType::Void,
                    },
                )
            },
            Expr::RetExpr(inner) => {
                match self.analyz(*inner) {
                    Ok(t) => {
                        let ty = t.ty;
                        Ok(TypedExpr { expr: AnalyzedExpr::RetExpr(Box::new(t)), ty })
                    },
                    Err(k) => Err(k),
                }
            },
            Expr::FnCall { name, args: params } => self.analyz_call(name, params),
            Expr::IfExpr { condition, body, alt } => self.analyz_if(
                *condition,
                body,
                alt,
                Ghost(expr),
            ),
            Expr::Block(block) => {
                match self.analyz_all(block) {
                    Ok(ts) => {
                        let ty = get_fn_type(&ts);
                        Ok(TypedExpr { expr: AnalyzedExpr::Block(ts), ty })
                    },
                    Err(k) => Err(k),
                }
            },
        }
    }

    /// Types a function: its body is typed in a scope of its own that binds
    /// the parameters, and the kind the body yields becomes the function's
    /// return type. The scope is closed again whether or not the body
    /// could be typed.
    pub fn analyz_func(&mut self, func: Function) -> (r: Result<TypedExpr, ErrKind>)
        ensures
            (final(self)@, outcome(r)) == analyz_func_spec(old(self)@, func@),
            final(self)@.env.depth() == old(self)@.env.depth(),
    {
        proof {
            self.env.lemma_rooted();
            lemma_func_keeps_depth(self@, func@);
        }
        self.env.child();
        let args = func.args;
        let ghost opened = self.env@;
        let mut i: usize = 0;
        while i < args.len()
            invariant
                i <= args.len(),
                self.env@ == bind_params(opened, idents_view(args@).take(i as int)),
                self.line == old(self).line,
                self.column == old(self).column,
                self.diagnostics == old(self).diagnostics,
            decreases args.len() - i,
        {
            assert(idents_view(args@).take(i + 1).drop_last() =~= idents_view(args@).take(
                i as int,
            ));
            let ty = match args[i].tag {
                Some(ty) => ty,
                None => ConstType::Dynamic,
            };
            self.env.add(&args[i].val, ty);
            i = i + 1;
        }
        assert(idents_view(args@).take(args.len() as int) =~= idents_view(args@));
        let analyzed = self.analyz_all(func.body);
        self.env.parent();
        let body = match analyzed {
            Ok(ts) => ts,
            Err(k) => {
                return Err(k);
            },
        };
        let ty = get_fn_type(&body);
        self.env.settle_function(&func.name, &args, ty);
        Ok(TypedExpr { expr: AnalyzedExpr::Func { ret: ty, name: func.name.val, args, body }, ty })
    }

    /// Types a run of functions, each in the state the one before left, and
    /// stops at the first failure.
    fn analyz_funcs(&mut self, functions: Vec<Function>) -> (r: Result<Vec<TypedExpr>, ErrKind>)
        ensures
            (final(self)@, run_outcome(r)) == analyz_funcs_spec(
                old(self)@,
                functions_view(functions@),
            ),
    {
        let ghost all = functions@;
        let ghost views = functions_view(all);
        let mut stack = reversed(functions);
        let mut typed: Vec<TypedExpr> = Vec::new();
        assert(views.take(0) =~= Seq::empty());
        assert(typed_views(typed@) =~= Seq::empty());
        while stack.len() > 0
            invariant
                all == functions@,
                views == functions_view(all),
                stack.len() <= all.len(),
                forall|j: int| 0 <= j < stack.len() ==> stack[j] == all[all.len() - 1 - j],
                analyz_funcs_spec(old(self)@, views.take(all.len() - stack.len())) == (
                    self@,
                    Ok::<Seq<TypedExprView>, ErrKind>(typed_views(typed@)),
                ),
            decreases stack.len(),
        {
            let ghost i = all.len() - stack.len();
            let ghost done = typed@;
            let func = stack.pop().unwrap();
            assert(views.take(i + 1).drop_last() =~= views.take(i));
            assert(views.take(i + 1).last() == func@);
            match self.analyz_func(func) {
                Ok(t) => {
                    typed.push(t);
                    assert(typed_views(typed@) =~= typed_views(done).push(t@));
                },
                Err(k) => {
                    proof {
                        lemma_funcs_stop(old(self)@, views, i + 1);
                    }
                    return Err(k);
                },
            }
        }
        assert(views.take(all.len() as int) =~= views);
        Ok(typed)
    }

    /// Analyzes a program from the state this analyzer is in: `writeln` is
    /// imported, every function is registered before any body is typed, the
    /// functions and then the top-level expressions are typed in order, and
    /// the second walk settles the calls that were left open.
    pub fn run(&mut self, exprs: Vec<Expr>, functions: Vec<Function>) -> (r: Result<
        Vec<TypedExpr>,
        ErrKind,
    >)
        ensures
            (final(self)@, run_outcome(r)) == analyz_prog_spec(
                old(self)@,
                exprs_view(exprs@),
                functions_view(functions@),
            ),
    {
        let mut analyzed_prog: Vec<TypedExpr> = Vec::new();
        assert(typed_views(analyzed_prog@) =~= Seq::empty());
        let mut params: Vec<(ConstType, String)> = Vec::new();
        params.push((ConstType::Dynamic, String::from_str("x")));
        assert(pairs_view(params@) =~= writeln_params());
        self.import(&mut analyzed_prog, ConstType::Void, "std", "writeln", params);
        let ghost head = typed_views(analyzed_prog@);
        assert(head =~= seq![
            import_node(ConstType::Void, "std"@, "writeln"@, writeln_params()),
        ]);

        let ghost seeded = self@;
        let ghost views = functions_view(functions@);
        let mut i: usize = 0;
        assert(views.take(0) =~= Seq::empty());
        while i < functions.len()
            invariant
                i <= functions.len(),
                views == functions_view(functions@),
                self@ == seeded.with_env(register_all(seeded.env, views.take(i as int))),
            decreases functions.len() - i,
        {
            assert(views.take(i + 1).drop_last() =~= views.take(i as int));
            self.env.push_function(
                functions[i].name.duplicate(),
                duplicate_idents(&functions[i].args),
                ConstType::Dynamic,
            );
            i = i + 1;
        }
        assert(views.take(functions.len() as int) =~= views);

        let mut typed_functions = match self.analyz_funcs(functions) {
            Ok(ts) => ts,
            Err(k) => {
                return Err(k);
            },
        };
        let mut typed_exprs = match self.analyz_all(exprs) {
            Ok(ts) => ts,
            Err(k) => {
                return Err(k);
            },
        };
        let ghost fs = typed_views(typed_functions@);
        let ghost es = typed_views(typed_exprs@);
        analyzed_prog.append(&mut typed_functions);
        analyzed_prog.append(&mut typed_exprs);
        assert(typed_views(analyzed_prog@) =~= head + fs + es);
        Ok(correct_prog(analyzed_prog))
    }

    /// Analyzes a program with a fresh analyzer.
    pub fn analyz_prog(exprs: Vec<Expr>, functions: Vec<Function>) -> (r: Result<
        Vec<TypedExpr>,
        ErrKind,
    >)
        ensures
            run_outcome(r) == analyz_prog_spec(
                AnalyzerView::fresh(),
                exprs_view(exprs@),
                functions_view(functions@),
            ).1,
    {
        let mut analyzer = Analyzer::new();
        analyzer.run(exprs, functions)
    }

    /// Types a binary expression: the left operand, then the right, then
    /// coercion and the operator's grant.
    pub fn analyz_binary_expr(&mut self, left: Expr, right: Expr, op: String) -> (r: Result<
        TypedExpr,
        ErrKind,
    >)
        ensures
            (final(self)@, outcome(r)) == analyz_binary_expr_spec(old(self)@, left@, right@, op@),
    {
        let lhs = match self.analyz(left) {
            Ok(t) => t,
            Err(k) => {
                return Err(k);
            },
        };
        let rhs = match self.analyz(right) {
            Ok(t) => t,
            Err(k) => {
                return Err(k);
            },
        };
        self.combine(op, lhs, rhs)
    }

    /// Types a declaration: the value first, then the binding.
    pub fn analyz_var_declare(&mut self, name: Ident, val: Expr) -> (r: Result<TypedExpr, ErrKind>)
        ensures
            (final(self)@, outcome(r)) == analyz_var_declare_spec(old(self)@, name@, val@),
    {
        match self.analyz(val) {
            Ok(t) => self.declare(name.val, t),
            Err(k) => Err(k),
        }
    }

    /// Types an assignment: the value first, then the rebinding.
    pub fn analyz_var_assign(&mut self, name: Ident, val: Expr) -> (r: Result<TypedExpr, ErrKind>)
        ensures
            (final(self)@, outcome(r)) == analyz_var_assign_spec(old(self)@, name@, val@),
    {
        match self.analyz(val) {
            Ok(t) => self.assign(name.val, t),
            Err(k) => Err(k),
        }
    }
}

/// The node of a call of `name` of kind `ty` over typed arguments.
fn call_of(name: String, args: Vec<TypedExpr>, ty: ConstType) -> (r: TypedExpr)
    ensures
        r@ == call_node(name@, typed_views(args@), ty),
{
    let args = defer(args);
    TypedExpr { expr: AnalyzedExpr::FnCall { name, args }, ty }
}

/// The node of a conditional over its typed parts.
fn conditional(cond: TypedExpr, body: Vec<TypedExpr>, alt: Option<TypedExpr>) -> (r: TypedExpr)
    ensures
        r@ == if_node(
            cond@,
            typed_views(body@),
            match alt {
                Some(a) => Some(a@),
                None => None,
            },
        ),
{
    let ty = get_fn_type(&body);
    let alt = match alt {
        Some(a) => Some(Box::new(a)),
        None => None,
    };
    TypedExpr { expr: AnalyzedExpr::If { cond: Box::new(cond), body, alt }, ty }
}

/// Wraps each argument of a call in a coercion to `Dynamic`.
fn defer(args: Vec<TypedExpr>) -> (r: Vec<TypedExpr>)
    ensures
        typed_views(r@) == deferred_args(typed_views(args@)),
{
    let ghost all = args@;
    let mut stack = reversed(args);
    let mut r: Vec<TypedExpr> = Vec::new();
    while stack.len() > 0
        invariant
            stack.len() + r.len() == all.len(),
            forall|j: int| 0 <= j < stack.len() ==> stack[j] == all[all.len() - 1 - j],
            forall|j: int| 0 <= j < r.len() ==> r[j]@ == coerced(ConstType::Dynamic, all[j]@),
        decreases stack.len(),
    {
        let t = stack.pop().unwrap();
        r.push(ty_as(&ConstType::Dynamic, t));
    }
    assert(typed_views(r@) =~= deferred_args(typed_views(all)));
    r
}

} // verus!
