//! The undefined-function pass on modules built as the parser would build them.
use checked_ast::ast::{
    AtomLit, Body, Clause, CompileExportAll, DynCall, Expr, ExternalForm, FunDecl, Id, Lambda, LocalCall, Location,
    Module, RemoteCall, RemoteId, AST,
};
use checked_ast::database::Database;
use checked_ast::diagnostic::{Diagnostic, Severity};
use checked_ast::passes::PassId;

fn s(t: &str) -> String {
    t.to_string()
}

fn at(start: u32, length: u32) -> Location {
    Location { start, length }
}

fn module_form(name: &str) -> ExternalForm {
    ExternalForm::Module(Module { location: at(0, 10), name: s(name) })
}

fn fun(name: &str, start: u32, body: Vec<Expr>) -> ExternalForm {
    ExternalForm::FunDecl(FunDecl {
        location: at(start, 10),
        id: Id { name: s(name), arity: 0 },
        clauses: vec![Clause { location: at(start, 10), pats: vec![], guards: vec![], body: Body { exprs: body } }],
    })
}

fn ok_atom(start: u32) -> Expr {
    Expr::AtomLit(AtomLit { location: at(start, 2), s: s("ok") })
}

fn local_call(name: &str, start: u32, length: u32) -> Expr {
    Expr::LocalCall(LocalCall { location: at(start, length), id: Id { name: s(name), arity: 0 }, args: vec![] })
}

fn remote_call(module: &str, name: &str, start: u32, length: u32) -> Expr {
    Expr::RemoteCall(RemoteCall {
        location: at(start, length),
        id: RemoteId { module: s(module), name: s(name), arity: 0 },
        args: vec![],
    })
}

/// `-module(Name). -compile(export_all). exists() -> ok.`
fn dependency(name: &str) -> AST {
    vec![
        module_form(name),
        ExternalForm::CompileExportAll(CompileExportAll { location: at(12, 20) }),
        fun("exists", 40, vec![ok_atom(52)]),
    ]
}

fn warnings(db: &Database, module: &str) -> Vec<Diagnostic> {
    db.run_pass(PassId::UndefinedFunction, 1, &s(module))
}

#[test]
fn test_local() {
    // main() -> exists(), not_exists().   exists() -> ok.
    let mut db = Database::new();
    db.set_module(
        1,
        s("main"),
        vec![
            module_form("main"),
            fun("main", 17, vec![local_call("exists", 31, 8), local_call("not_exists", 45, 12)]),
            fun("exists", 60, vec![ok_atom(72)]),
        ],
    );
    assert_eq!(warnings(&db, "main"), vec![]);
}

#[test]
fn test_remote() {
    let mut db = Database::new();
    db.set_module(
        1,
        s("main"),
        vec![
            module_form("main"),
            fun("main", 17, vec![remote_call("dependency", "exists", 33, 19), remote_call("dependency", "not_exists", 58, 23)]),
            fun("exists", 84, vec![ok_atom(96)]),
        ],
    );
    db.set_module(1, s("dependency"), dependency("dependency"));
    let found = warnings(&db, "main");
    assert_eq!(
        found,
        vec![Diagnostic {
            code: s("W0017"),
            message: s("Function 'dependency:not_exists/0' is undefined."),
            severity: Severity::Warning,
            location: at(58, 23),
        }]
    );
    assert_eq!(warnings(&db, "dependency"), vec![]);
}

#[test]
fn test_in_macro() {
    // ?MY_MACRO() expands to (fun() -> dep:exists(), dep:not_exists() end)();
    // every node of the expansion carries the span of the macro call.
    let call_site = at(97, 11);
    let lambda = Expr::Lambda(Lambda {
        location: call_site,
        clauses: vec![Clause {
            location: call_site,
            pats: vec![],
            guards: vec![],
            body: Body { exprs: vec![remote_call("dep", "exists", 97, 11), remote_call("dep", "not_exists", 97, 11)] },
        }],
        name: None,
    });
    let macro_call = Expr::DynCall(DynCall { location: call_site, f: Box::new(lambda), args: vec![] });
    let mut db = Database::new();
    db.set_module(
        1,
        s("main"),
        vec![module_form("main"), fun("main", 80, vec![macro_call]), fun("exists", 112, vec![ok_atom(124)])],
    );
    db.set_module(1, s("dep"), dependency("dep"));
    assert_eq!(
        warnings(&db, "main"),
        vec![Diagnostic {
            code: s("W0017"),
            message: s("Function 'dep:not_exists/0' is undefined."),
            severity: Severity::Warning,
            location: call_site,
        }]
    );
}

#[test]
fn test_ignore_fix() {
    // The fix writes `% elp:ignore W0017 (undefined_function)` above the call:
    // the finding it works from carries that code and the call's span.
    let mut db = Database::new();
    db.set_module(
        1,
        s("main"),
        vec![
            module_form("main"),
            fun("main", 16, vec![remote_call("dep", "exists", 28, 12), remote_call("dep", "not_exists", 45, 16)]),
            fun("exists", 64, vec![ok_atom(76)]),
        ],
    );
    db.set_module(1, s("dep"), dependency("dep"));
    let found = warnings(&db, "main");
    assert_eq!(found.len(), 1);
    assert_eq!(found[0].code, s("W0017"));
    assert_eq!(found[0].location, at(45, 16));
    assert_eq!(found[0].message, s("Function 'dep:not_exists/0' is undefined."));
}

#[test]
fn single_undefined_remote_call_gives_one_finding_at_its_span() {
    let mut db = Database::new();
    db.set_module(1, s("m"), vec![module_form("m"), fun("f", 20, vec![remote_call("nowhere", "g", 33, 11)])]);
    let found = warnings(&db, "m");
    assert_eq!(found.len(), 1);
    assert_eq!(found[0].location, at(33, 11));
    assert_eq!(found[0].severity, Severity::Warning);
    assert_eq!(found[0].message, s("Function 'nowhere:g/0' is undefined."));
}

#[test]
fn arity_is_written_in_decimal() {
    let call = Expr::RemoteCall(RemoteCall {
        location: at(5, 9),
        id: RemoteId { module: s("lists"), name: s("zip"), arity: 1207 },
        args: vec![],
    });
    let mut db = Database::new();
    db.set_module(1, s("m"), vec![module_form("m"), fun("f", 20, vec![call])]);
    let found = warnings(&db, "m");
    assert_eq!(found[0].message, s("Function 'lists:zip/1207' is undefined."));
}

#[test]
fn modules_of_other_projects_do_not_define_functions() {
    let mut db = Database::new();
    db.set_module(1, s("main"), vec![module_form("main"), fun("main", 17, vec![remote_call("dep", "exists", 30, 12)])]);
    db.set_module(2, s("dep"), dependency("dep"));
    assert_eq!(warnings(&db, "main").len(), 1);
    db.set_module(1, s("dep"), dependency("dep"));
    assert_eq!(warnings(&db, "main").len(), 0);
}
