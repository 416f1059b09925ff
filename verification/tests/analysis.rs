use covalent::analysis::analysis::ty_as;
use covalent::analysis::correct::correct_prog;
use covalent::analysis::{get_fn_type, supports_op, AnalyzedExpr, Analyzer, TypedExpr};
use covalent::parser::ast::{Expr, Literal};
use covalent::parser::Function;
use covalent::source::{ConstType, ErrKind, Ident};

fn id(name: &str) -> Ident {
    Ident { tag: None, val: name.to_string() }
}

fn tagged(name: &str, ty: ConstType) -> Ident {
    Ident { tag: Some(ty), val: name.to_string() }
}

fn lit_int(n: i32) -> Expr {
    Expr::Literal(Literal::Int(n))
}

fn lit_float(x: f32) -> Expr {
    Expr::Literal(Literal::Float(x.to_bits()))
}

fn lit_str(s: &str) -> Expr {
    Expr::Literal(Literal::Str(s.to_string()))
}

fn lit_bool(b: bool) -> Expr {
    Expr::Literal(Literal::Bool(b))
}

fn typed(expr: AnalyzedExpr, ty: ConstType) -> TypedExpr {
    TypedExpr { expr, ty }
}

fn typed_int(n: i32) -> TypedExpr {
    typed(AnalyzedExpr::Literal(Literal::Int(n)), ConstType::Int)
}

fn typed_float(x: f32) -> TypedExpr {
    typed(AnalyzedExpr::Literal(Literal::Float(x.to_bits())), ConstType::Float)
}

fn typed_str(s: &str) -> TypedExpr {
    typed(AnalyzedExpr::Literal(Literal::Str(s.to_string())), ConstType::Str)
}

fn cast(ty: ConstType, inner: TypedExpr) -> TypedExpr {
    typed(AnalyzedExpr::As(Box::new(inner)), ty)
}

fn binary(op: &str, left: Expr, right: Expr) -> Expr {
    Expr::BinaryExpr { op: op.to_string(), left: Box::new(left), right: Box::new(right) }
}

fn typed_binary(op: &str, left: TypedExpr, right: TypedExpr, ty: ConstType) -> TypedExpr {
    typed(
        AnalyzedExpr::BinaryExpr {
            op: op.to_string(),
            left: Box::new(left),
            right: Box::new(right),
        },
        ty,
    )
}

fn declare(name: &str, val: Expr) -> Expr {
    Expr::VarDeclare { name: id(name), val: Box::new(val) }
}

fn assign(name: &str, val: Expr) -> Expr {
    Expr::VarAssign { name: id(name), val: Box::new(val) }
}

fn var(name: &str) -> Expr {
    Expr::Ident(id(name))
}

fn call(name: &str, args: Vec<Expr>) -> Expr {
    Expr::FnCall { name: id(name), args }
}

fn function(name: &str, args: Vec<Ident>, body: Vec<Expr>) -> Function {
    Function { name: id(name), args, body }
}

fn writeln_import() -> TypedExpr {
    typed(
        AnalyzedExpr::Import {
            module: "std".to_string(),
            name: "writeln".to_string(),
            args: vec![ConstType::Dynamic],
        },
        ConstType::Void,
    )
}

/// Every node of a typed tree, the root first.
fn nodes(t: &TypedExpr) -> Vec<&TypedExpr> {
    let mut all = vec![t];
    let below: Vec<&TypedExpr> = match &t.expr {
        AnalyzedExpr::BinaryExpr { left, right, .. } => vec![&**left, &**right],
        AnalyzedExpr::VarDeclare { val, .. } | AnalyzedExpr::VarAssign { val, .. } => {
            vec![&**val]
        }
        AnalyzedExpr::FnCall { args, .. } => args.iter().collect(),
        AnalyzedExpr::If { cond, body, alt } => {
            let mut v = vec![&**cond];
            v.extend(body.iter());
            v.extend(alt.iter().map(|a| &**a));
            v
        }
        AnalyzedExpr::Block(ts) => ts.iter().collect(),
        AnalyzedExpr::RetExpr(e) | AnalyzedExpr::Discard(e) | AnalyzedExpr::As(e) => vec![&**e],
        AnalyzedExpr::Func { body, .. } => body.iter().collect(),
        _ => vec![],
    };
    for child in below {
        all.extend(nodes(child));
    }
    all
}

#[test]
fn declare_int_plus_float_coerces_left() {
    let prog =
        Analyzer::analyz_prog(vec![declare("x", binary("+", lit_int(1), lit_float(2.0)))], vec![])
            .unwrap();
    let sum = typed_binary(
        "+",
        cast(ConstType::Float, typed_int(1)),
        typed_float(2.0),
        ConstType::Float,
    );
    let expected = typed(
        AnalyzedExpr::VarDeclare { name: "x".to_string(), val: Box::new(sum) },
        ConstType::Float,
    );
    assert_eq!(prog, vec![writeln_import(), expected]);
}

#[test]
fn declare_str_plus_int_coerces_right() {
    let prog =
        Analyzer::analyz_prog(vec![declare("s", binary("+", lit_str("a"), lit_int(1)))], vec![])
            .unwrap();
    let sum =
        typed_binary("+", typed_str("a"), cast(ConstType::Str, typed_int(1)), ConstType::Str);
    let expected = typed(
        AnalyzedExpr::VarDeclare { name: "s".to_string(), val: Box::new(sum) },
        ConstType::Str,
    );
    assert_eq!(prog, vec![writeln_import(), expected]);
}

#[test]
fn undeclared_identifier_is_refused() {
    let r = Analyzer::analyz_prog(vec![declare("x", var("y"))], vec![]);
    assert_eq!(r, Err(ErrKind::UndeclaredVar));
}

#[test]
fn second_declaration_is_refused() {
    let r = Analyzer::analyz_prog(
        vec![declare("x", lit_int(1)), declare("x", lit_int(2))],
        vec![],
    );
    assert_eq!(r, Err(ErrKind::VarAlreadyDeclared));
}

#[test]
fn forward_call_is_settled() {
    let f = function("f", vec![], vec![call("g", vec![])]);
    let g = function("g", vec![], vec![lit_int(42)]);
    let prog = Analyzer::analyz_prog(vec![], vec![f, g]).unwrap();
    let expected_f = typed(
        AnalyzedExpr::Func {
            ret: ConstType::Dynamic,
            name: "f".to_string(),
            args: vec![],
            body: vec![typed(
                AnalyzedExpr::FnCall { name: "g".to_string(), args: vec![] },
                ConstType::Int,
            )],
        },
        ConstType::Dynamic,
    );
    let expected_g = typed(
        AnalyzedExpr::Func {
            ret: ConstType::Int,
            name: "g".to_string(),
            args: vec![],
            body: vec![typed_int(42)],
        },
        ConstType::Int,
    );
    assert_eq!(prog, vec![writeln_import(), expected_f, expected_g]);
}

#[test]
fn forward_call_is_open_after_the_first_walk() {
    let mut analyzer = Analyzer::new();
    analyzer.env.push_function(id("g"), vec![], ConstType::Dynamic);
    let f = function("f", vec![], vec![call("g", vec![])]);
    match analyzer.analyz_func(f).unwrap().expr {
        AnalyzedExpr::Func { body, ret, .. } => {
            assert_eq!(body[0].ty, ConstType::Dynamic);
            assert_eq!(ret, ConstType::Dynamic);
        }
        other => panic!("not a function: {:?}", other),
    }
}

#[test]
fn writeln_takes_any_value() {
    let prog = Analyzer::analyz_prog(vec![call("writeln", vec![lit_float(1.5)])], vec![]).unwrap();
    let expected = typed(
        AnalyzedExpr::FnCall {
            name: "writeln".to_string(),
            args: vec![cast(ConstType::Dynamic, typed_float(1.5))],
        },
        ConstType::Void,
    );
    assert_eq!(prog, vec![writeln_import(), expected]);
}

#[test]
fn only_open_calls_stay_dynamic() {
    let g = function("g", vec![tagged("n", ConstType::Int)], vec![var("n")]);
    let f = function("f", vec![], vec![call("g", vec![lit_int(1)])]);
    let exprs = vec![
        declare("a", call("g", vec![lit_float(2.0)])),
        binary("+", var("a"), lit_int(1)),
        call("f", vec![]),
    ];
    let prog = Analyzer::analyz_prog(exprs, vec![f, g]).unwrap();
    for top in &prog {
        for node in nodes(top) {
            if node.ty == ConstType::Dynamic {
                match &node.expr {
                    AnalyzedExpr::FnCall { name, .. } => assert_eq!(name, "f"),
                    AnalyzedExpr::Func { name, .. } => assert_eq!(name, "f"),
                    other => panic!("left open: {:?}", other),
                }
            }
        }
    }
}

#[test]
fn an_untyped_parameter_stays_dynamic() {
    let f = function("f", vec![id("x")], vec![var("x")]);
    let prog = Analyzer::analyz_prog(vec![], vec![f]).unwrap();
    match &prog[1].expr {
        AnalyzedExpr::Func { body, ret, .. } => {
            assert_eq!(body[0], typed(AnalyzedExpr::Id("x".to_string()), ConstType::Dynamic));
            assert_eq!(*ret, ConstType::Dynamic);
        }
        other => panic!("not a function: {:?}", other),
    }
}

#[test]
fn operands_agree_after_coercion() {
    let kinds = [
        (lit_int(1), ConstType::Int),
        (lit_float(1.0), ConstType::Float),
        (lit_str("s"), ConstType::Str),
        (lit_bool(true), ConstType::Bool),
    ];
    for (left, lt) in &kinds {
        for (right, rt) in &kinds {
            let mut analyzer = Analyzer::new();
            let r = analyzer.analyz_binary_expr(
                clone_expr(left),
                clone_expr(right),
                "==".to_string(),
            );
            let node = r.unwrap();
            assert_eq!(node.ty, ConstType::Bool);
            match node.expr {
                AnalyzedExpr::BinaryExpr { left, right, .. } => {
                    let row = lt == rt
                        || *lt == ConstType::Str
                        || *rt == ConstType::Str
                        || (*lt != ConstType::Bool && *rt != ConstType::Bool);
                    assert_eq!(left.ty == right.ty, row, "{:?} {:?}", lt, rt);
                }
                other => panic!("not a binary node: {:?}", other),
            }
        }
    }
}

fn clone_expr(e: &Expr) -> Expr {
    match e {
        Expr::Literal(Literal::Int(n)) => lit_int(*n),
        Expr::Literal(Literal::Float(bits)) => Expr::Literal(Literal::Float(*bits)),
        Expr::Literal(Literal::Str(s)) => lit_str(s),
        Expr::Literal(Literal::Bool(b)) => lit_bool(*b),
        other => panic!("not a literal: {:?}", other),
    }
}

#[test]
fn an_integer_and_a_boolean_are_not_coerced() {
    let mut analyzer = Analyzer::new();
    let node =
        analyzer.analyz_binary_expr(lit_int(1), lit_bool(true), "==".to_string()).unwrap();
    let expected = typed_binary(
        "==",
        typed_int(1),
        typed(AnalyzedExpr::Literal(Literal::Bool(true)), ConstType::Bool),
        ConstType::Bool,
    );
    assert_eq!(node, expected);
}

#[test]
fn float_and_int_coerce_the_right_operand() {
    let mut analyzer = Analyzer::new();
    let node = analyzer.analyz_binary_expr(lit_float(2.0), lit_int(1), "*".to_string()).unwrap();
    let expected = typed_binary(
        "*",
        typed_float(2.0),
        cast(ConstType::Float, typed_int(1)),
        ConstType::Float,
    );
    assert_eq!(node, expected);
}

#[test]
fn a_string_on_the_right_coerces_the_left_operand() {
    let mut analyzer = Analyzer::new();
    let node = analyzer.analyz_binary_expr(lit_int(1), lit_str("a"), "+".to_string()).unwrap();
    let expected =
        typed_binary("+", cast(ConstType::Str, typed_int(1)), typed_str("a"), ConstType::Str);
    assert_eq!(node, expected);
}

#[test]
fn a_dynamic_operand_coerces_the_other() {
    let mut analyzer = Analyzer::new();
    analyzer.env.add(&"d".to_string(), ConstType::Dynamic);
    let node = analyzer.analyz_binary_expr(var("d"), lit_int(1), "%".to_string()).unwrap();
    let expected = typed_binary(
        "%",
        typed(AnalyzedExpr::Id("d".to_string()), ConstType::Dynamic),
        cast(ConstType::Dynamic, typed_int(1)),
        ConstType::Dynamic,
    );
    assert_eq!(node, expected);
    let node = analyzer.analyz_binary_expr(lit_int(1), var("d"), "-".to_string()).unwrap();
    let expected = typed_binary(
        "-",
        cast(ConstType::Dynamic, typed_int(1)),
        typed(AnalyzedExpr::Id("d".to_string()), ConstType::Dynamic),
        ConstType::Dynamic,
    );
    assert_eq!(node, expected);
}

#[test]
fn the_operator_table() {
    let comparisons = ["==", "<", ">", "<=", ">="];
    let arithmetic = ["+", "-", "*", "/"];
    for op in comparisons {
        let op = op.to_string();
        assert!(supports_op(&ConstType::Int, &op));
        assert!(supports_op(&ConstType::Float, &op));
        assert!(supports_op(&ConstType::Str, &op));
        assert!(supports_op(&ConstType::Bool, &op));
        assert!(supports_op(&ConstType::Dynamic, &op));
        assert!(!supports_op(&ConstType::Void, &op));
    }
    for op in arithmetic {
        let op = op.to_string();
        assert!(supports_op(&ConstType::Int, &op));
        assert!(supports_op(&ConstType::Float, &op));
        assert_eq!(supports_op(&ConstType::Str, &op), op == "+");
        assert!(!supports_op(&ConstType::Bool, &op));
        assert!(supports_op(&ConstType::Dynamic, &op));
        assert!(!supports_op(&ConstType::Void, &op));
    }
    let other = "%".to_string();
    assert!(!supports_op(&ConstType::Int, &other));
    assert!(!supports_op(&ConstType::Str, &other));
    assert!(supports_op(&ConstType::Dynamic, &other));
}

#[test]
fn an_operator_that_is_not_granted_is_refused() {
    let cases = vec![
        (lit_bool(true), lit_bool(false), "+"),
        (lit_str("a"), lit_str("b"), "-"),
        (lit_str("a"), lit_int(1), "*"),
        (lit_int(1), lit_int(2), "%"),
        (lit_bool(true), lit_int(1), "/"),
        (Expr::Discard(Box::new(lit_int(1))), lit_int(1), "=="),
    ];
    for (left, right, op) in cases {
        let mut analyzer = Analyzer::new();
        let r = analyzer.analyz_binary_expr(left, right, op.to_string());
        assert_eq!(r, Err(ErrKind::OperationNotGranted), "{}", op);
        assert_eq!(analyzer.diagnostics.len(), 1);
        assert_eq!(analyzer.diagnostics[0].kind, ErrKind::OperationNotGranted);
    }
}

#[test]
fn the_refusal_names_the_kind_and_the_operator() {
    let mut analyzer = Analyzer::new();
    let r = analyzer.analyz_binary_expr(lit_bool(true), lit_bool(false), "+".to_string());
    assert_eq!(r, Err(ErrKind::OperationNotGranted));
    assert_eq!(
        analyzer.diagnostics[0].msg,
        "one of possible types [Bool] does not support operator +, use the do keyword to do it anyways"
    );
}

#[test]
fn a_function_leaves_the_scope_depth_as_it_was() {
    let mut analyzer = Analyzer::new();
    analyzer.env.child();
    let before = analyzer.env.depth();
    let body = vec![
        declare("y", lit_int(1)),
        Expr::IfExpr {
            condition: Box::new(lit_bool(true)),
            body: vec![declare("z", var("y"))],
            alt: None,
        },
    ];
    let typed = analyzer.analyz_func(function("f", vec![id("x")], body));
    assert!(typed.is_ok());
    assert_eq!(analyzer.env.depth(), before);
    let failing = function("h", vec![], vec![declare("y", lit_int(1)), var("nowhere")]);
    assert_eq!(analyzer.analyz_func(failing), Err(ErrKind::UndeclaredVar));
    assert_eq!(analyzer.env.depth(), before);
    assert!(!analyzer.env.has(&"y".to_string()));
}

#[test]
fn a_failing_conditional_closes_its_scope() {
    let mut analyzer = Analyzer::new();
    let e = Expr::IfExpr {
        condition: Box::new(lit_bool(true)),
        body: vec![declare("z", lit_int(1)), var("nowhere")],
        alt: None,
    };
    assert_eq!(analyzer.analyz(e), Err(ErrKind::UndeclaredVar));
    assert_eq!(analyzer.env.depth(), 1);
    assert!(!analyzer.env.has(&"z".to_string()));
}

#[test]
fn a_function_returns_what_its_body_yields() {
    let mut analyzer = Analyzer::new();
    let f = function(
        "f",
        vec![tagged("a", ConstType::Float), id("b")],
        vec![declare("c", var("a")), var("c")],
    );
    let node = analyzer.analyz_func(f).unwrap();
    let expected = typed(
        AnalyzedExpr::Func {
            ret: ConstType::Float,
            name: "f".to_string(),
            args: vec![tagged("a", ConstType::Float), id("b")],
            body: vec![
                typed(
                    AnalyzedExpr::VarDeclare {
                        name: "c".to_string(),
                        val: Box::new(typed(AnalyzedExpr::Id("a".to_string()), ConstType::Float)),
                    },
                    ConstType::Float,
                ),
                typed(AnalyzedExpr::Id("c".to_string()), ConstType::Float),
            ],
        },
        ConstType::Float,
    );
    assert_eq!(node, expected);
    let sig = analyzer.env.get_function(&id("f")).unwrap();
    assert_eq!(sig.ret, ConstType::Float);
    assert_eq!(sig.args.len(), 2);
    assert!(!analyzer.env.has(&"a".to_string()));
}

#[test]
fn an_empty_function_returns_void() {
    let mut analyzer = Analyzer::new();
    analyzer.env.push_function(id("f"), vec![], ConstType::Dynamic);
    let node = analyzer.analyz_func(function("f", vec![], vec![])).unwrap();
    assert_eq!(node.ty, ConstType::Void);
    assert_eq!(analyzer.env.get_function(&id("f")).unwrap().ret, ConstType::Void);
}

#[test]
fn a_call_after_its_callee_has_the_return_type_at_once() {
    let mut analyzer = Analyzer::new();
    analyzer.env.push_function(id("g"), vec![], ConstType::Dynamic);
    analyzer.analyz_func(function("g", vec![], vec![lit_str("s")])).unwrap();
    let node = analyzer.analyz(call("g", vec![])).unwrap();
    assert_eq!(node.ty, ConstType::Str);
}

#[test]
fn a_recursive_call_is_allowed() {
    let f = function("f", vec![id("n")], vec![call("f", vec![var("n")])]);
    let prog = Analyzer::analyz_prog(vec![], vec![f]).unwrap();
    assert_eq!(prog.len(), 2);
}

#[test]
fn a_call_of_an_unknown_function_is_refused() {
    let mut analyzer = Analyzer::new();
    let r = analyzer.analyz(call("nowhere", vec![]));
    assert_eq!(r, Err(ErrKind::UndeclaredVar));
    assert_eq!(analyzer.diagnostics[0].msg, "undeclared function nowhere");
}

#[test]
fn a_call_with_the_wrong_number_of_arguments_is_refused() {
    let g = function("g", vec![], vec![lit_int(1)]);
    let r = Analyzer::analyz_prog(vec![call("g", vec![lit_int(1), lit_int(2)])], vec![g]);
    assert_eq!(r, Err(ErrKind::UndeclaredVar));
    let mut analyzer = Analyzer::new();
    let params: Vec<Ident> = (0..12).map(|i| id(&format!("p{}", i))).collect();
    analyzer.env.push_function(id("wide"), params, ConstType::Void);
    let r = analyzer.analyz(call("wide", vec![lit_int(1), lit_int(2)]));
    assert_eq!(r, Err(ErrKind::UndeclaredVar));
    assert_eq!(
        analyzer.diagnostics[0].msg,
        "not enough arguments got 2 arguments, expected 12 arguments for function wide"
    );
}

#[test]
fn a_failing_argument_fails_the_call() {
    let r = Analyzer::analyz_prog(vec![call("writeln", vec![var("nowhere")])], vec![]);
    assert_eq!(r, Err(ErrKind::UndeclaredVar));
}

#[test]
fn the_name_of_a_function_is_its_whole_identifier() {
    let mut analyzer = Analyzer::new();
    analyzer.env.push_function(tagged("g", ConstType::Int), vec![], ConstType::Int);
    assert!(analyzer.env.get_function(&id("g")).is_none());
    assert!(analyzer.env.get_function(&tagged("g", ConstType::Int)).is_some());
    assert_eq!(analyzer.analyz(call("g", vec![])), Err(ErrKind::UndeclaredVar));
}

#[test]
fn an_assignment_needs_a_declaration() {
    let mut analyzer = Analyzer::new();
    let r = analyzer.analyz_var_assign(id("x"), lit_int(1));
    assert_eq!(r, Err(ErrKind::UndeclaredVar));
    assert_eq!(analyzer.diagnostics.len(), 1);
    assert_eq!(analyzer.diagnostics[0].msg, "undeclared variable x");
}

#[test]
fn an_assignment_rebinds_the_kind() {
    let mut analyzer = Analyzer::new();
    analyzer.analyz_var_declare(id("x"), lit_int(1)).unwrap();
    let node = analyzer.analyz_var_assign(id("x"), lit_str("now a string")).unwrap();
    assert_eq!(node.ty, ConstType::Str);
    assert_eq!(analyzer.env.get_ty(&"x".to_string()), Some(ConstType::Str));
    assert_eq!(analyzer.analyz_id(id("x")).unwrap().ty, ConstType::Str);
}

#[test]
fn an_assignment_in_a_body_reaches_the_outer_binding() {
    let mut analyzer = Analyzer::new();
    analyzer.analyz(declare("x", lit_int(1))).unwrap();
    let e = Expr::IfExpr {
        condition: Box::new(lit_bool(true)),
        body: vec![assign("x", lit_float(1.0))],
        alt: None,
    };
    analyzer.analyz(e).unwrap();
    assert_eq!(analyzer.env.get_ty(&"x".to_string()), Some(ConstType::Float));
}

#[test]
fn a_declaration_may_hide_an_outer_one() {
    let mut analyzer = Analyzer::new();
    analyzer.analyz(declare("x", lit_int(1))).unwrap();
    let e = Expr::IfExpr {
        condition: Box::new(lit_bool(true)),
        body: vec![declare("x", lit_str("inner")), var("x")],
        alt: Some(Box::new(var("x"))),
    };
    let node = analyzer.analyz(e).unwrap();
    assert_eq!(node.ty, ConstType::Str);
    match node.expr {
        AnalyzedExpr::If { alt, .. } => assert_eq!(alt.unwrap().ty, ConstType::Int),
        other => panic!("not a conditional: {:?}", other),
    }
    assert_eq!(analyzer.env.get_ty(&"x".to_string()), Some(ConstType::Int));
}

#[test]
fn a_declaration_twice_in_one_scope_reports_once() {
    let mut analyzer = Analyzer::new();
    analyzer.analyz_var_declare(id("x"), lit_int(1)).unwrap();
    let r = analyzer.analyz_var_declare(id("x"), lit_int(2));
    assert_eq!(r, Err(ErrKind::VarAlreadyDeclared));
    assert_eq!(analyzer.diagnostics.len(), 1);
    assert_eq!(analyzer.diagnostics[0].kind, ErrKind::VarAlreadyDeclared);
    assert_eq!(analyzer.diagnostics[0].msg, "variable x is already declared");
}

#[test]
fn a_conditional_has_the_kind_of_its_body() {
    let mut analyzer = Analyzer::new();
    let e = Expr::IfExpr {
        condition: Box::new(binary("<", lit_int(1), lit_int(2))),
        body: vec![lit_int(1), lit_float(2.0)],
        alt: Some(Box::new(lit_str("else"))),
    };
    let node = analyzer.analyz(e).unwrap();
    let expected = typed(
        AnalyzedExpr::If {
            cond: Box::new(typed_binary("<", typed_int(1), typed_int(2), ConstType::Bool)),
            body: vec![typed_int(1), typed_float(2.0)],
            alt: Some(Box::new(typed_str("else"))),
        },
        ConstType::Float,
    );
    assert_eq!(node, expected);
    let empty =
        Expr::IfExpr { condition: Box::new(lit_bool(true)), body: vec![], alt: None };
    assert_eq!(analyzer.analyz(empty).unwrap().ty, ConstType::Void);
}

#[test]
fn a_block_has_the_kind_of_its_last_expression() {
    let mut analyzer = Analyzer::new();
    let node = analyzer.analyz(Expr::Block(vec![declare("x", lit_int(1)), var("x")])).unwrap();
    assert_eq!(node.ty, ConstType::Int);
    assert!(analyzer.env.has(&"x".to_string()));
    assert_eq!(analyzer.analyz(Expr::Block(vec![])).unwrap().ty, ConstType::Void);
}

#[test]
fn discard_and_return() {
    let mut analyzer = Analyzer::new();
    let node = analyzer.analyz(Expr::Discard(Box::new(lit_int(1)))).unwrap();
    assert_eq!(node, typed(AnalyzedExpr::Discard(Box::new(typed_int(1))), ConstType::Void));
    let node = analyzer.analyz(Expr::RetExpr(Box::new(lit_str("s")))).unwrap();
    assert_eq!(node, typed(AnalyzedExpr::RetExpr(Box::new(typed_str("s"))), ConstType::Str));
}

#[test]
fn literals_have_their_kind() {
    assert_eq!(Literal::Int(1).get_ty(), ConstType::Int);
    assert_eq!(Literal::Float(0).get_ty(), ConstType::Float);
    assert_eq!(Literal::Str(String::new()).get_ty(), ConstType::Str);
    assert_eq!(Literal::Bool(false).get_ty(), ConstType::Bool);
}

#[test]
fn a_position_marker_moves_the_analyzer() {
    let mut analyzer = Analyzer::new();
    let node = analyzer.analyz(Expr::PosInfo("main.cova".to_string(), 4, 9)).unwrap();
    assert_eq!(
        node,
        typed(AnalyzedExpr::Debug("main.cova".to_string(), 4, 9), ConstType::Void)
    );
    assert_eq!((analyzer.line, analyzer.column), (4, 9));
    assert_eq!(analyzer.analyz(var("nowhere")), Err(ErrKind::UndeclaredVar));
    assert_eq!(analyzer.diagnostics.len(), 1);
    assert_eq!(analyzer.diagnostics[0].kind, ErrKind::UndeclaredVar);
    assert_eq!((analyzer.diagnostics[0].line, analyzer.diagnostics[0].column), (4, 9));
}

#[test]
fn err_records_the_position() {
    let mut analyzer = Analyzer::new();
    analyzer.line = 2;
    analyzer.column = 5;
    analyzer.err(ErrKind::CannotConvertRight, "no".to_string());
    analyzer.err(ErrKind::UndeclaredVar, "gone".to_string());
    assert_eq!(analyzer.diagnostics.len(), 2);
    assert_eq!(analyzer.diagnostics[0].kind, ErrKind::CannotConvertRight);
    assert_eq!(analyzer.diagnostics[0].msg, "no");
    assert_eq!(analyzer.diagnostics[0].line, 2);
    assert_eq!(analyzer.diagnostics[0].column, 5);
    assert_eq!(analyzer.diagnostics[1].msg, "gone");
}

#[test]
fn a_fresh_analyzer_stands_at_the_start() {
    let analyzer = Analyzer::new();
    assert_eq!((analyzer.line, analyzer.column), (0, 0));
    assert!(analyzer.diagnostics.is_empty());
    assert_eq!(analyzer.env.depth(), 1);
}

#[test]
fn run_keeps_the_diagnostics() {
    let mut analyzer = Analyzer::new();
    let exprs = vec![Expr::PosInfo("f".to_string(), 1, 2), var("nowhere")];
    assert_eq!(analyzer.run(exprs, vec![]), Err(ErrKind::UndeclaredVar));
    assert_eq!(analyzer.diagnostics.len(), 1);
    assert_eq!(analyzer.diagnostics[0].line, 1);
    assert!(analyzer.env.get_function(&id("writeln")).is_some());
}

#[test]
fn import_files_the_function_and_leaves_a_node() {
    let mut analyzer = Analyzer::new();
    let mut body = vec![typed_int(0)];
    analyzer.import(
        &mut body,
        ConstType::Int,
        "math",
        "max",
        vec![(ConstType::Int, "a".to_string()), (ConstType::Float, "b".to_string())],
    );
    assert_eq!(body.len(), 2);
    assert_eq!(
        body[1],
        typed(
            AnalyzedExpr::Import {
                module: "math".to_string(),
                name: "max".to_string(),
                args: vec![ConstType::Int, ConstType::Float],
            },
            ConstType::Int,
        )
    );
    let sig = analyzer.env.get_function(&id("max")).unwrap();
    assert_eq!(sig.ret, ConstType::Int);
    assert_eq!(sig.args, vec![tagged("a", ConstType::Int), tagged("b", ConstType::Float)]);
}

#[test]
fn ty_as_wraps_its_operand() {
    assert_eq!(ty_as(&ConstType::Str, typed_int(1)), cast(ConstType::Str, typed_int(1)));
}

#[test]
fn get_fn_type_reads_the_last_node() {
    assert_eq!(get_fn_type(&vec![]), ConstType::Void);
    assert_eq!(get_fn_type(&vec![typed_int(1), typed_str("s")]), ConstType::Str);
}

#[test]
fn correction_drops_a_coercion_that_is_not_needed() {
    let g = function("g", vec![tagged("n", ConstType::Int)], vec![var("n")]);
    let prog = Analyzer::analyz_prog(vec![call("g", vec![lit_int(1)])], vec![g]).unwrap();
    let expected = typed(
        AnalyzedExpr::FnCall { name: "g".to_string(), args: vec![typed_int(1)] },
        ConstType::Int,
    );
    assert_eq!(prog[2], expected);
}

#[test]
fn correction_retypes_a_coercion_to_the_parameter() {
    let g = function("g", vec![tagged("n", ConstType::Int)], vec![var("n")]);
    let prog = Analyzer::analyz_prog(vec![call("g", vec![lit_float(1.5)])], vec![g]).unwrap();
    let expected = typed(
        AnalyzedExpr::FnCall {
            name: "g".to_string(),
            args: vec![cast(ConstType::Int, typed_float(1.5))],
        },
        ConstType::Int,
    );
    assert_eq!(prog[2], expected);
}

#[test]
fn correction_keeps_what_it_cannot_settle() {
    let call_of_unknown = typed(
        AnalyzedExpr::FnCall {
            name: "elsewhere".to_string(),
            args: vec![cast(ConstType::Dynamic, typed_int(1))],
        },
        ConstType::Dynamic,
    );
    let open = typed(
        AnalyzedExpr::Func {
            ret: ConstType::Dynamic,
            name: "open".to_string(),
            args: vec![id("x")],
            body: vec![],
        },
        ConstType::Dynamic,
    );
    let call_of_open = typed(
        AnalyzedExpr::FnCall {
            name: "open".to_string(),
            args: vec![cast(ConstType::Dynamic, typed_int(1))],
        },
        ConstType::Dynamic,
    );
    let prog = correct_prog(vec![
        typed(AnalyzedExpr::Block(vec![call_of_unknown]), ConstType::Dynamic),
        open,
        call_of_open,
    ]);
    match &prog[0].expr {
        AnalyzedExpr::Block(ts) => {
            assert_eq!(ts[0].ty, ConstType::Dynamic);
            match &ts[0].expr {
                AnalyzedExpr::FnCall { args, .. } => assert_eq!(args[0].ty, ConstType::Dynamic),
                other => panic!("not a call: {:?}", other),
            }
        }
        other => panic!("not a block: {:?}", other),
    }
    assert_eq!(prog[0].ty, ConstType::Dynamic);
    assert_eq!(prog[2].ty, ConstType::Dynamic);
}

#[test]
fn correction_takes_the_later_of_two_declarations() {
    let first = typed(
        AnalyzedExpr::Func {
            ret: ConstType::Int,
            name: "f".to_string(),
            args: vec![],
            body: vec![typed_int(1)],
        },
        ConstType::Int,
    );
    let second = typed(
        AnalyzedExpr::Func {
            ret: ConstType::Str,
            name: "f".to_string(),
            args: vec![],
            body: vec![typed_str("s")],
        },
        ConstType::Str,
    );
    let site = typed(
        AnalyzedExpr::FnCall { name: "f".to_string(), args: vec![] },
        ConstType::Dynamic,
    );
    let prog = correct_prog(vec![first, site, second]);
    assert_eq!(prog[1].ty, ConstType::Str);
}

#[test]
fn correction_reaches_calls_below_other_nodes() {
    let f = function(
        "f",
        vec![],
        vec![Expr::IfExpr {
            condition: Box::new(lit_bool(true)),
            body: vec![Expr::RetExpr(Box::new(call("g", vec![])))],
            alt: Some(Box::new(Expr::Discard(Box::new(call("g", vec![]))))),
        }],
    );
    let g = function("g", vec![], vec![lit_bool(true)]);
    let prog = Analyzer::analyz_prog(vec![], vec![f, g]).unwrap();
    let calls: Vec<&TypedExpr> = nodes(&prog[1])
        .into_iter()
        .filter(|n| matches!(n.expr, AnalyzedExpr::FnCall { .. }))
        .collect();
    assert_eq!(calls.len(), 2);
    for site in calls {
        assert_eq!(site.ty, ConstType::Bool);
    }
}

#[test]
fn functions_come_before_expressions() {
    let g = function("g", vec![], vec![lit_int(1)]);
    let prog = Analyzer::analyz_prog(vec![lit_str("top")], vec![g]).unwrap();
    assert_eq!(prog.len(), 3);
    assert_eq!(prog[0], writeln_import());
    assert!(matches!(prog[1].expr, AnalyzedExpr::Func { .. }));
    assert_eq!(prog[2], typed_str("top"));
}

#[test]
fn an_empty_program_holds_the_import_alone() {
    assert_eq!(Analyzer::analyz_prog(vec![], vec![]), Ok(vec![writeln_import()]));
}
