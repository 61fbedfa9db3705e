//! Passes that replace nodes or fail, and an identity walk over a list comprehension.
use checked_ast::ast::{
    AtomLit, BinOp, BinaryElem, Body, Clause, Cons, Expr, ExternalForm, Filter, FunDecl, Guard, Id, IntLit,
    LComprehension, LGenerate, Location, Module, NilLit, Pat, PatBinaryElem, PatVar, Qualifier, RecordField, Test,
    TestRecordField, Tuple, Var,
};
use checked_ast::transformer::{transform_ast, visit_expr, walk_expr, Identity, Rewrite, Transformer};

fn at(start: u32) -> Location {
    Location { start, length: 1 }
}

fn int_lit(start: u32, v: i64) -> Expr {
    Expr::IntLit(IntLit { location: at(start), value: Some(v) })
}

fn atom(start: u32, a: &str) -> Expr {
    Expr::AtomLit(AtomLit { location: at(start), s: a.to_string() })
}

fn var(start: u32) -> Expr {
    Expr::Var(Var { location: at(start), name: "X".to_string() })
}

fn list(start: u32, items: Vec<i64>) -> Expr {
    let mut e = Expr::NilLit(NilLit { location: at(start + 100) });
    for (k, v) in items.into_iter().enumerate().rev() {
        e = Expr::Cons(Cons { location: at(start + k as u32), h: Box::new(int_lit(start + 50 + k as u32, v)), t: Box::new(e) });
    }
    e
}

/// `[X || X <- [1,2,3], X > 1]`
fn comprehension() -> Expr {
    Expr::LComprehension(LComprehension {
        location: at(0),
        template: Box::new(var(1)),
        qualifiers: vec![
            Qualifier::LGenerate(LGenerate {
                pat: Pat::PatVar(PatVar { location: at(6), name: "X".to_string() }),
                expr: list(10, vec![1, 2, 3]),
            }),
            Qualifier::Filter(Filter {
                expr: Expr::BinOp(BinOp {
                    location: at(20),
                    op: ">".to_string(),
                    arg_1: Box::new(var(20)),
                    arg_2: Box::new(int_lit(24, 1)),
                }),
            }),
        ],
    })
}

fn elements(mut e: &Expr) -> Vec<i64> {
    let mut out = vec![];
    while let Expr::Cons(c) = e {
        if let Expr::IntLit(i) = &*c.h {
            out.push(i.value.unwrap());
        }
        e = &c.t;
    }
    out
}

#[test]
fn identity_keeps_list_comprehension() {
    let got: Result<Expr, ()> = visit_expr(&Identity, comprehension());
    let got = got.unwrap();
    assert_eq!(got, comprehension());
    match &got {
        Expr::LComprehension(c) => {
            assert_eq!(c.qualifiers.len(), 2);
            match &c.qualifiers[0] {
                Qualifier::LGenerate(g) => assert_eq!(elements(&g.expr), vec![1, 2, 3]),
                _ => panic!("generator expected first"),
            }
            assert!(matches!(c.qualifiers[1], Qualifier::Filter(_)));
        },
        _ => panic!("comprehension expected"),
    }
}

/// Adds one to every integer literal; fails on the atom `boom`.
struct Bump;

impl Transformer<String> for Bump {
    fn transform_expr(&self, node: Expr) -> Result<Rewrite<Expr>, String> {
        match node {
            Expr::IntLit(i) => Ok(Rewrite::Replace(Expr::IntLit(IntLit {
                location: i.location,
                value: i.value.map(|v| v + 1),
            }))),
            Expr::AtomLit(ref a) if a.s == "boom" => Err(format!("boom at {}", a.location.start)),
            other => Ok(Rewrite::Walk(other)),
        }
    }
    fn transform_pat(&self, node: Pat) -> Result<Rewrite<Pat>, String> {
        Ok(Rewrite::Walk(node))
    }
    fn transform_test(&self, node: Test) -> Result<Rewrite<Test>, String> {
        Ok(Rewrite::Walk(node))
    }
    fn transform_form(&self, node: ExternalForm) -> Result<Rewrite<ExternalForm>, String> {
        Ok(Rewrite::Walk(node))
    }
    fn transform_clause(&self, node: Clause) -> Result<Rewrite<Clause>, String> {
        Ok(Rewrite::Walk(node))
    }
    fn transform_body(&self, node: Body) -> Result<Rewrite<Body>, String> {
        Ok(Rewrite::Walk(node))
    }
    fn transform_guard(&self, node: Guard) -> Result<Rewrite<Guard>, String> {
        Ok(Rewrite::Walk(node))
    }
    fn transform_qualifier(&self, node: Qualifier) -> Result<Rewrite<Qualifier>, String> {
        Ok(Rewrite::Walk(node))
    }
    fn transform_binary_elem(&self, node: BinaryElem) -> Result<Rewrite<BinaryElem>, String> {
        Ok(Rewrite::Walk(node))
    }
    fn transform_pat_binary_elem(&self, node: PatBinaryElem) -> Result<Rewrite<PatBinaryElem>, String> {
        Ok(Rewrite::Walk(node))
    }
    fn transform_record_field(&self, node: RecordField) -> Result<Rewrite<RecordField>, String> {
        Ok(Rewrite::Walk(node))
    }
    fn transform_test_record_field(&self, node: TestRecordField) -> Result<Rewrite<TestRecordField>, String> {
        Ok(Rewrite::Walk(node))
    }
}

/// Swaps the two arguments of every `-` operator, reusing the sub-trees.
struct Swap;

impl Transformer<()> for Swap {
    fn transform_expr(&self, node: Expr) -> Result<Rewrite<Expr>, ()> {
        match node {
            Expr::BinOp(o) if o.op == "-" => Ok(Rewrite::Replace(Expr::BinOp(BinOp {
                location: o.location,
                op: o.op,
                arg_1: o.arg_2,
                arg_2: o.arg_1,
            }))),
            other => Ok(Rewrite::Walk(other)),
        }
    }
    fn transform_pat(&self, node: Pat) -> Result<Rewrite<Pat>, ()> {
        Ok(Rewrite::Walk(node))
    }
    fn transform_test(&self, node: Test) -> Result<Rewrite<Test>, ()> {
        Ok(Rewrite::Walk(node))
    }
    fn transform_form(&self, node: ExternalForm) -> Result<Rewrite<ExternalForm>, ()> {
        Ok(Rewrite::Walk(node))
    }
    fn transform_clause(&self, node: Clause) -> Result<Rewrite<Clause>, ()> {
        Ok(Rewrite::Walk(node))
    }
    fn transform_body(&self, node: Body) -> Result<Rewrite<Body>, ()> {
        Ok(Rewrite::Walk(node))
    }
    fn transform_guard(&self, node: Guard) -> Result<Rewrite<Guard>, ()> {
        Ok(Rewrite::Walk(node))
    }
    fn transform_qualifier(&self, node: Qualifier) -> Result<Rewrite<Qualifier>, ()> {
        Ok(Rewrite::Walk(node))
    }
    fn transform_binary_elem(&self, node: BinaryElem) -> Result<Rewrite<BinaryElem>, ()> {
        Ok(Rewrite::Walk(node))
    }
    fn transform_pat_binary_elem(&self, node: PatBinaryElem) -> Result<Rewrite<PatBinaryElem>, ()> {
        Ok(Rewrite::Walk(node))
    }
    fn transform_record_field(&self, node: RecordField) -> Result<Rewrite<RecordField>, ()> {
        Ok(Rewrite::Walk(node))
    }
    fn transform_test_record_field(&self, node: TestRecordField) -> Result<Rewrite<TestRecordField>, ()> {
        Ok(Rewrite::Walk(node))
    }
}

fn minus(a: Expr, b: Expr) -> Expr {
    Expr::BinOp(BinOp { location: at(70), op: "-".to_string(), arg_1: Box::new(a), arg_2: Box::new(b) })
}

#[test]
fn replacement_reuses_the_parts_of_the_node() {
    let got = visit_expr(&Swap, tuple(vec![minus(var(1), int_lit(2, 5)), atom(3, "x")]));
    assert_eq!(got, Ok(tuple(vec![minus(int_lit(2, 5), var(1)), atom(3, "x")])));
}

fn tuple(elems: Vec<Expr>) -> Expr {
    Expr::Tuple(Tuple { location: at(500), elems })
}

#[test]
fn replacing_pass_keeps_length_and_order() {
    let got = visit_expr(&Bump, tuple(vec![int_lit(1, 1), int_lit(2, 2), atom(3, "ok"), int_lit(4, 3)]));
    assert_eq!(got, Ok(tuple(vec![int_lit(1, 2), int_lit(2, 3), atom(3, "ok"), int_lit(4, 4)])));
}

#[test]
fn replacing_pass_reaches_every_cell_of_a_long_list() {
    let items: Vec<i64> = (0..2000).collect();
    let bumped: Vec<i64> = (1..2001).collect();
    let got = visit_expr(&Bump, list(0, items)).unwrap();
    assert_eq!(elements(&got), bumped);
    assert_eq!(got, list(0, (1..2001).collect()));
}

#[test]
fn failure_in_one_element_fails_the_whole_node() {
    let got = visit_expr(&Bump, tuple(vec![int_lit(1, 1), atom(7, "boom"), atom(9, "boom")]));
    assert_eq!(got, Err("boom at 7".to_string()));
}

#[test]
fn failure_deep_inside_fails_the_comprehension() {
    let deep = Expr::LComprehension(LComprehension {
        location: at(0),
        template: Box::new(var(1)),
        qualifiers: vec![Qualifier::Filter(Filter { expr: tuple(vec![int_lit(2, 0), atom(31, "boom")]) })],
    });
    assert_eq!(walk_expr(&Bump, deep), Err("boom at 31".to_string()));
}

#[test]
fn failure_in_a_cons_tail_fails_the_list() {
    let l = Expr::Cons(Cons { location: at(1), h: Box::new(int_lit(2, 5)), t: Box::new(atom(44, "boom")) });
    assert_eq!(visit_expr(&Bump, l), Err("boom at 44".to_string()));
}

fn module(body: Vec<Expr>) -> Vec<ExternalForm> {
    vec![
        ExternalForm::Module(Module { location: at(0), name: "m".to_string() }),
        ExternalForm::FunDecl(FunDecl {
            location: at(20),
            id: Id { name: "f".to_string(), arity: 0 },
            clauses: vec![Clause { location: at(20), pats: vec![], guards: vec![], body: Body { exprs: body } }],
        }),
    ]
}

#[test]
fn whole_module_is_transformed_form_by_form() {
    assert_eq!(transform_ast(&Bump, module(vec![int_lit(30, 41)])), Ok(module(vec![int_lit(30, 42)])));
    assert_eq!(transform_ast(&Bump, module(vec![atom(30, "boom")])), Err("boom at 30".to_string()));
    let same: Result<Vec<ExternalForm>, ()> = transform_ast(&Identity, module(vec![atom(30, "boom")]));
    assert_eq!(same, Ok(module(vec![atom(30, "boom")])));
}

#[test]
fn empty_nodes_come_back_empty() {
    assert_eq!(visit_expr(&Bump, tuple(vec![])), Ok(tuple(vec![])));
    assert_eq!(transform_ast(&Bump, vec![]), Ok(vec![]));
    let no_body = module(vec![]);
    assert_eq!(transform_ast(&Bump, module(vec![])), Ok(no_body));
}

#[test]
fn walk_leaves_the_root_to_the_caller_and_visit_asks_the_pass() {
    assert_eq!(walk_expr(&Bump, int_lit(3, 9)), Ok(int_lit(3, 9)));
    assert_eq!(visit_expr(&Bump, int_lit(3, 9)), Ok(int_lit(3, 10)));
    assert_eq!(walk_expr(&Bump, atom(5, "boom")), Ok(atom(5, "boom")));
    assert_eq!(visit_expr(&Bump, atom(5, "boom")), Err("boom at 5".to_string()));
}
