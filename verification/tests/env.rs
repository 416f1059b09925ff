use covalent::analysis::env::{duplicate_idents, Env};
use covalent::source::{ConstType, Ident};
use covalent::text::decimal;

fn name(s: &str) -> String {
    s.to_string()
}

fn ident(s: &str) -> Ident {
    Ident { tag: None, val: s.to_string() }
}

#[test]
fn a_fresh_environment_binds_nothing() {
    let env = Env::new();
    assert_eq!(env.depth(), 1);
    assert!(!env.has(&name("x")));
    assert!(!env.has_local(&name("x")));
    assert_eq!(env.get_ty(&name("x")), None);
    assert!(env.get_function(&ident("f")).is_none());
}

#[test]
fn add_binds_in_the_current_scope() {
    let mut env = Env::new();
    env.add(&name("x"), ConstType::Int);
    assert!(env.has(&name("x")));
    assert!(env.has_local(&name("x")));
    assert_eq!(env.get_ty(&name("x")), Some(ConstType::Int));
    env.add(&name("x"), ConstType::Str);
    assert_eq!(env.get_ty(&name("x")), Some(ConstType::Str));
    assert!(!env.has(&name("y")));
}

#[test]
fn an_inner_binding_hides_the_outer_one() {
    let mut env = Env::new();
    env.add(&name("x"), ConstType::Int);
    env.child();
    assert_eq!(env.depth(), 2);
    assert!(env.has(&name("x")));
    assert!(!env.has_local(&name("x")));
    env.add(&name("x"), ConstType::Bool);
    assert!(env.has_local(&name("x")));
    assert_eq!(env.get_ty(&name("x")), Some(ConstType::Bool));
    assert!(env.parent());
    assert_eq!(env.depth(), 1);
    assert_eq!(env.get_ty(&name("x")), Some(ConstType::Int));
}

#[test]
fn modify_rebinds_where_the_name_is_bound() {
    let mut env = Env::new();
    env.add(&name("x"), ConstType::Int);
    env.child();
    env.child();
    env.modify(&name("x"), ConstType::Float);
    assert!(!env.has_local(&name("x")));
    assert_eq!(env.get_ty(&name("x")), Some(ConstType::Float));
    env.modify(&name("y"), ConstType::Str);
    assert!(env.has_local(&name("y")));
    env.parent();
    assert!(!env.has(&name("y")));
    env.parent();
    assert_eq!(env.get_ty(&name("x")), Some(ConstType::Float));
}

#[test]
fn the_root_scope_stays_open() {
    let mut env = Env::new();
    env.add(&name("x"), ConstType::Int);
    assert!(!env.parent());
    assert_eq!(env.depth(), 1);
    assert!(env.has(&name("x")));
}

#[test]
fn functions_are_found_from_inner_scopes() {
    let mut env = Env::new();
    env.push_function(ident("f"), vec![ident("a"), ident("b")], ConstType::Dynamic);
    env.child();
    {
        let sig = env.get_function(&ident("f")).unwrap();
        assert_eq!(sig.args.len(), 2);
        assert_eq!(sig.ret, ConstType::Dynamic);
        assert_eq!(sig.name, ident("f"));
    }
    env.push_function(ident("f"), vec![], ConstType::Int);
    assert_eq!(env.get_function(&ident("f")).unwrap().args.len(), 0);
    env.parent();
    assert_eq!(env.get_function(&ident("f")).unwrap().args.len(), 2);
    assert!(env.get_function(&ident("g")).is_none());
}

#[test]
fn settling_keeps_the_parameters() {
    let mut env = Env::new();
    env.push_function(ident("f"), vec![ident("a")], ConstType::Dynamic);
    env.child();
    env.settle_function(&ident("f"), &vec![], ConstType::Bool);
    env.parent();
    let sig = env.get_function(&ident("f")).unwrap();
    assert_eq!(sig.ret, ConstType::Bool);
    assert_eq!(sig.args, vec![ident("a")]);
}

#[test]
fn settling_an_unknown_function_files_it() {
    let mut env = Env::new();
    env.settle_function(&ident("g"), &vec![ident("p"), ident("q")], ConstType::Str);
    let sig = env.get_function(&ident("g")).unwrap();
    assert_eq!(sig.ret, ConstType::Str);
    assert_eq!(sig.args.len(), 2);
}

#[test]
fn variables_and_functions_do_not_mix() {
    let mut env = Env::new();
    env.push_function(ident("f"), vec![], ConstType::Int);
    assert!(!env.has(&name("f")));
    env.add(&name("g"), ConstType::Int);
    assert!(env.get_function(&ident("g")).is_none());
}

#[test]
fn identifiers_are_copied_whole() {
    let ids = vec![Ident { tag: Some(ConstType::Int), val: name("a") }, ident("b")];
    assert_eq!(duplicate_idents(&ids), ids);
    assert_eq!(ids[0].duplicate(), ids[0]);
    assert!(ids[0].same(&ids[0]));
    assert!(!ids[0].same(&ident("a")));
    assert!(!ids[1].same(&ident("a")));
}

#[test]
fn numbers_are_written_in_decimal() {
    assert_eq!(decimal(0), "0");
    assert_eq!(decimal(7), "7");
    assert_eq!(decimal(10), "10");
    assert_eq!(decimal(1234567890), "1234567890");
    assert_eq!(decimal(u64::MAX), "18446744073709551615");
}
