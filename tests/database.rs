//! The store: memo of diagnostics, sharing, and invalidation on change.
use std::sync::Arc;

use checked_ast::ast::{
    Body, Clause, ElpMetadata, EqwalizerNowarnFunction, Expr, ExternalForm, FunDecl, Id, Location, Module, RemoteCall,
    RemoteId, AST,
};
use checked_ast::database::Database;
use checked_ast::diagnostic::Severity;
use checked_ast::modules::ModuleEntry;
use checked_ast::passes::{compute_eqwalizer_stats, escape_hatches, undefined_function, PassId};

fn s(t: &str) -> String {
    t.to_string()
}

fn at(start: u32, length: u32) -> Location {
    Location { start, length }
}

fn call(module: &str, name: &str, arity: u32, start: u32) -> Expr {
    Expr::RemoteCall(RemoteCall {
        location: at(start, 4),
        id: RemoteId { module: s(module), name: s(name), arity },
        args: vec![],
    })
}

fn module(name: &str, calls: Vec<Expr>) -> AST {
    vec![
        ExternalForm::Module(Module { location: at(0, 8), name: s(name) }),
        ExternalForm::FunDecl(FunDecl {
            location: at(10, 30),
            id: Id { name: s("f"), arity: 0 },
            clauses: vec![Clause { location: at(10, 30), pats: vec![], guards: vec![], body: Body { exprs: calls } }],
        }),
    ]
}

fn cast(start: u32) -> Expr {
    call("eqwalizer", "dynamic_cast", 1, start)
}

#[test]
fn second_request_shares_the_first_result_without_computing() {
    let mut db = Database::new();
    db.set_module(1, s("m"), module("m", vec![cast(12)]));
    assert_eq!(db.computation_count(), 0);
    let first = db.get_diagnostics(1, &s("m"));
    let second = db.get_diagnostics(1, &s("m"));
    assert!(Arc::ptr_eq(&first, &second));
    assert_eq!(db.computation_count(), 1);
    assert_eq!(first.len(), 1);
}

#[test]
fn change_to_the_module_is_seen_and_computed_once() {
    let mut db = Database::new();
    db.set_module(1, s("m"), module("m", vec![cast(12)]));
    let before = db.get_diagnostics(1, &s("m"));
    assert_eq!(before.len(), 1);
    db.set_module(1, s("m"), module("m", vec![cast(12), cast(20)]));
    let after = db.get_diagnostics(1, &s("m"));
    let again = db.get_diagnostics(1, &s("m"));
    assert_eq!(after.len(), 2);
    assert_eq!(after[1].location, at(20, 4));
    assert!(Arc::ptr_eq(&after, &again));
    assert!(!Arc::ptr_eq(&before, &after));
    assert_eq!(db.computation_count(), 2);
}

#[test]
fn two_callers_before_any_result_cause_one_computation() {
    let mut db = Database::new();
    db.set_module(1, s("m"), module("m", vec![]));
    let a = db.get_diagnostics(1, &s("m"));
    let b = db.get_diagnostics(1, &s("m"));
    assert!(Arc::ptr_eq(&a, &b));
    assert_eq!(db.computation_count(), 1);
    assert!(a.is_empty());
}

#[test]
fn change_to_another_module_of_the_project_keeps_the_memo() {
    let mut db = Database::new();
    db.set_module(1, s("m"), module("m", vec![cast(12)]));
    db.set_module(1, s("m2"), module("m2", vec![]));
    let first = db.get_diagnostics(1, &s("m"));
    db.set_module(1, s("m2"), module("m2", vec![cast(30)]));
    let again = db.get_diagnostics(1, &s("m"));
    assert!(Arc::ptr_eq(&first, &again));
    assert_eq!(db.computation_count(), 1);
    assert_eq!(db.get_diagnostics(1, &s("m2")).len(), 1);
    assert_eq!(db.computation_count(), 2);
}

#[test]
fn change_in_one_project_keeps_the_memo_of_another() {
    let mut db = Database::new();
    db.set_module(1, s("m"), module("m", vec![]));
    db.set_module(2, s("m"), module("m", vec![cast(12)]));
    let one = db.get_diagnostics(1, &s("m"));
    let two = db.get_diagnostics(2, &s("m"));
    assert_eq!(db.computation_count(), 2);
    db.set_module(1, s("m"), module("m", vec![cast(14)]));
    let two_again = db.get_diagnostics(2, &s("m"));
    assert!(Arc::ptr_eq(&two, &two_again));
    assert_eq!(db.computation_count(), 2);
    let one_again = db.get_diagnostics(1, &s("m"));
    assert!(!Arc::ptr_eq(&one, &one_again));
    assert_eq!(one_again.len(), 1);
    assert_eq!(db.computation_count(), 3);
}

#[test]
fn lookups_of_modules() {
    let mut db = Database::new();
    assert!(!db.has_module(1, &s("m")));
    assert!(db.get_ast(1, &s("m")).is_none());
    db.set_module(1, s("m"), module("m", vec![]));
    assert!(db.has_module(1, &s("m")));
    assert!(!db.has_module(2, &s("m")));
    assert_eq!(db.get_ast(1, &s("m")), Some(&module("m", vec![])));
}

#[test]
fn escape_hatches_in_form_order_then_casts() {
    let mut ast = module("m", vec![call("eqwalizer", "dynamic_cast", 1, 33), call("eqwalizer", "dynamic_cast", 2, 40)]);
    ast.push(ExternalForm::EqwalizerNowarnFunction(EqwalizerNowarnFunction {
        location: at(50, 9),
        id: Id { name: s("f"), arity: 0 },
    }));
    ast.push(ExternalForm::ElpMetadata(ElpMetadata { location: at(0, 0), fixmes: vec![at(70, 3), at(80, 3)] }));
    let mut db = Database::new();
    db.set_module(1, s("m"), ast);
    let found = db.run_pass(PassId::EscapeHatches, 1, &s("m"));
    let codes: Vec<&str> = found.iter().map(|d| d.code.as_str()).collect();
    assert_eq!(codes, vec!["eqwalizer_nowarn", "eqwalizer_fixme", "eqwalizer_fixme", "eqwalizer_dynamic_cast"]);
    let places: Vec<u32> = found.iter().map(|d| d.location.start).collect();
    assert_eq!(places, vec![50, 70, 80, 33]);
    assert!(found.iter().all(|d| d.severity == Severity::Information));
}

#[test]
fn memo_holds_the_escape_hatches_only() {
    let mut ast = module("m", vec![cast(33), call("nope", "g", 2, 40)]);
    ast.push(ExternalForm::EqwalizerNowarnFunction(EqwalizerNowarnFunction {
        location: at(50, 9),
        id: Id { name: s("f"), arity: 0 },
    }));
    let mut db = Database::new();
    db.set_module(1, s("m"), ast);
    let kept = db.get_diagnostics(1, &s("m"));
    let codes: Vec<&str> = kept.iter().map(|d| d.code.as_str()).collect();
    assert_eq!(codes, vec!["eqwalizer_nowarn", "eqwalizer_dynamic_cast"]);
    assert_eq!(*kept, db.run_pass(PassId::EscapeHatches, 1, &s("m")));
    let undefined = db.run_pass(PassId::UndefinedFunction, 1, &s("m"));
    assert_eq!(undefined.len(), 2);
    assert_eq!(undefined[0].message, s("Function 'eqwalizer:dynamic_cast/1' is undefined."));
    assert_eq!(undefined[1].message, s("Function 'nope:g/2' is undefined."));
}

#[test]
fn stats_of_a_module_list_without_the_store() {
    let modules = vec![
        ModuleEntry { project: 1, name: s("m"), ast: module("m", vec![call("dep", "f", 0, 12)]) },
        ModuleEntry { project: 1, name: s("dep"), ast: module("dep", vec![]) },
    ];
    let stats = compute_eqwalizer_stats(&modules, 1, &s("m"));
    assert!(stats.is_empty());
    let lone_cast = vec![ModuleEntry { project: 1, name: s("m"), ast: module("m", vec![cast(5)]) }];
    assert_eq!(compute_eqwalizer_stats(&lone_cast, 1, &s("m")).len(), 1);
    let mut found = vec![];
    undefined_function(&modules, &mut found, 1, &s("dep"));
    escape_hatches(&modules, &mut found, 1, &s("dep"));
    assert!(found.is_empty());
    let lonely = vec![ModuleEntry { project: 1, name: s("m"), ast: module("m", vec![call("dep", "f", 0, 12)]) }];
    let mut found = vec![];
    undefined_function(&lonely, &mut found, 1, &s("m"));
    assert_eq!(found.len(), 1);
    assert!(compute_eqwalizer_stats(&lonely, 1, &s("m")).is_empty());
    assert_eq!(found[0].message, s("Function 'dep:f/0' is undefined."));
}
