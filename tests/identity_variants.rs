//! Every variant of every category goes through the identity pass unchanged.
use checked_ast::ast::AtomLit;
use checked_ast::ast::BComprehension;
use checked_ast::ast::BGenerate;
use checked_ast::ast::Behaviour;
use checked_ast::ast::BinOp;
use checked_ast::ast::Binary;
use checked_ast::ast::BinaryElem;
use checked_ast::ast::Block;
use checked_ast::ast::Body;
use checked_ast::ast::Case;
use checked_ast::ast::Catch;
use checked_ast::ast::Clause;
use checked_ast::ast::CompileExportAll;
use checked_ast::ast::Cons;
use checked_ast::ast::DynCall;
use checked_ast::ast::DynRemoteFun;
use checked_ast::ast::DynRemoteFunArity;
use checked_ast::ast::ElpMetadata;
use checked_ast::ast::EqwalizerNowarnFunction;
use checked_ast::ast::EqwalizerUnlimitedRefinement;
use checked_ast::ast::Export;
use checked_ast::ast::ExportType;
use checked_ast::ast::Expr;
use checked_ast::ast::ExternalCallback;
use checked_ast::ast::ExternalForm;
use checked_ast::ast::ExternalFunSpec;
use checked_ast::ast::ExternalOpaqueDecl;
use checked_ast::ast::ExternalOptionalCallbacks;
use checked_ast::ast::ExternalRecDecl;
use checked_ast::ast::ExternalRecField;
use checked_ast::ast::ExternalTypeDecl;
use checked_ast::ast::File;
use checked_ast::ast::Filter;
use checked_ast::ast::FloatLit;
use checked_ast::ast::FunDecl;
use checked_ast::ast::Guard;
use checked_ast::ast::Id;
use checked_ast::ast::If;
use checked_ast::ast::Import;
use checked_ast::ast::IntLit;
use checked_ast::ast::LComprehension;
use checked_ast::ast::LGenerate;
use checked_ast::ast::Lambda;
use checked_ast::ast::LocalCall;
use checked_ast::ast::LocalFun;
use checked_ast::ast::Location;
use checked_ast::ast::MComprehension;
use checked_ast::ast::MGenerate;
use checked_ast::ast::MapCreate;
use checked_ast::ast::MapUpdate;
use checked_ast::ast::Match;
use checked_ast::ast::Maybe;
use checked_ast::ast::MaybeElse;
use checked_ast::ast::MaybeMatch;
use checked_ast::ast::Module;
use checked_ast::ast::NilLit;
use checked_ast::ast::Pat;
use checked_ast::ast::PatAtom;
use checked_ast::ast::PatBinOp;
use checked_ast::ast::PatBinary;
use checked_ast::ast::PatBinaryElem;
use checked_ast::ast::PatCons;
use checked_ast::ast::PatInt;
use checked_ast::ast::PatMap;
use checked_ast::ast::PatMatch;
use checked_ast::ast::PatNil;
use checked_ast::ast::PatNumber;
use checked_ast::ast::PatRecord;
use checked_ast::ast::PatRecordFieldNamed;
use checked_ast::ast::PatRecordIndex;
use checked_ast::ast::PatString;
use checked_ast::ast::PatTuple;
use checked_ast::ast::PatUnOp;
use checked_ast::ast::PatVar;
use checked_ast::ast::PatWild;
use checked_ast::ast::Qualifier;
use checked_ast::ast::Receive;
use checked_ast::ast::ReceiveWithTimeout;
use checked_ast::ast::RecordCreate;
use checked_ast::ast::RecordField;
use checked_ast::ast::RecordFieldGen;
use checked_ast::ast::RecordFieldNamed;
use checked_ast::ast::RecordIndex;
use checked_ast::ast::RecordSelect;
use checked_ast::ast::RecordUpdate;
use checked_ast::ast::RemoteCall;
use checked_ast::ast::RemoteFun;
use checked_ast::ast::RemoteId;
use checked_ast::ast::StringLit;
use checked_ast::ast::Test;
use checked_ast::ast::TestAtom;
use checked_ast::ast::TestBinOp;
use checked_ast::ast::TestBinaryLit;
use checked_ast::ast::TestCall;
use checked_ast::ast::TestCons;
use checked_ast::ast::TestMapCreate;
use checked_ast::ast::TestMapUpdate;
use checked_ast::ast::TestNil;
use checked_ast::ast::TestNumber;
use checked_ast::ast::TestRecordCreate;
use checked_ast::ast::TestRecordField;
use checked_ast::ast::TestRecordFieldGen;
use checked_ast::ast::TestRecordFieldNamed;
use checked_ast::ast::TestRecordIndex;
use checked_ast::ast::TestRecordSelect;
use checked_ast::ast::TestString;
use checked_ast::ast::TestTuple;
use checked_ast::ast::TestUnOp;
use checked_ast::ast::TestVar;
use checked_ast::ast::TryCatchExpr;
use checked_ast::ast::TryOfCatchExpr;
use checked_ast::ast::Tuple;
use checked_ast::ast::TypingAttribute;
use checked_ast::ast::UnOp;
use checked_ast::ast::Var;
use checked_ast::transformer::visit_binary_elem;
use checked_ast::transformer::visit_body;
use checked_ast::transformer::visit_clause;
use checked_ast::transformer::visit_expr;
use checked_ast::transformer::visit_form;
use checked_ast::transformer::visit_guard;
use checked_ast::transformer::visit_pat;
use checked_ast::transformer::visit_pat_binary_elem;
use checked_ast::transformer::visit_qualifier;
use checked_ast::transformer::visit_record_field;
use checked_ast::transformer::visit_test;
use checked_ast::transformer::visit_test_record_field;
use checked_ast::transformer::walk_binary_elem;
use checked_ast::transformer::walk_body;
use checked_ast::transformer::walk_clause;
use checked_ast::transformer::walk_expr;
use checked_ast::transformer::walk_form;
use checked_ast::transformer::walk_guard;
use checked_ast::transformer::walk_pat;
use checked_ast::transformer::walk_pat_binary_elem;
use checked_ast::transformer::walk_qualifier;
use checked_ast::transformer::walk_record_field;
use checked_ast::transformer::walk_test;
use checked_ast::transformer::walk_test_record_field;
use checked_ast::transformer::Identity;

fn loc(n: u32) -> Location {
    Location { start: n * 10, length: 5 }
}

fn s(t: &str) -> String {
    t.to_string()
}

fn atom(n: u32) -> Expr {
    Expr::AtomLit(AtomLit { location: loc(n), s: s("a") })
}

fn pat_var(n: u32) -> Pat {
    Pat::PatVar(PatVar { location: loc(n), name: s("X") })
}

fn test_atom(n: u32) -> Test {
    Test::TestAtom(TestAtom { location: loc(n), s: s("t") })
}

fn expressions() -> Vec<Expr> {
    vec![
        Expr::Var(Var { location: loc(1), name: s("n") }),
        Expr::AtomLit(AtomLit { location: loc(1), s: s("n") }),
        Expr::IntLit(IntLit { location: loc(1), value: Some(7) }),
        Expr::FloatLit(FloatLit { location: loc(1) }),
        Expr::Block(Block { location: loc(1), body: Body { exprs: vec![atom(2), atom(3)] } }),
        Expr::Match(Match { location: loc(1), pat: pat_var(2), expr: Box::new(atom(3)) }),
        Expr::Tuple(Tuple { location: loc(1), elems: vec![atom(2), atom(3)] }),
        Expr::StringLit(StringLit { location: loc(1), empty: false }),
        Expr::NilLit(NilLit { location: loc(1) }),
        Expr::Cons(Cons { location: loc(1), h: Box::new(atom(2)), t: Box::new(atom(3)) }),
        Expr::Case(Case {
            location: loc(1),
            expr: Box::new(atom(2)),
            clauses: vec![Clause { location: loc(3), pats: vec![pat_var(4), pat_var(5)], guards: vec![Guard { tests: vec![test_atom(6), test_atom(7)] }, Guard { tests: vec![test_atom(8), test_atom(9)] }], body: Body { exprs: vec![atom(10), atom(11)] } }, Clause { location: loc(12), pats: vec![pat_var(13), pat_var(14)], guards: vec![Guard { tests: vec![test_atom(15), test_atom(16)] }, Guard { tests: vec![test_atom(17), test_atom(18)] }], body: Body { exprs: vec![atom(19), atom(20)] } }],
        }),
        Expr::If(If {
            location: loc(1),
            clauses: vec![Clause { location: loc(2), pats: vec![pat_var(3), pat_var(4)], guards: vec![Guard { tests: vec![test_atom(5), test_atom(6)] }, Guard { tests: vec![test_atom(7), test_atom(8)] }], body: Body { exprs: vec![atom(9), atom(10)] } }, Clause { location: loc(11), pats: vec![pat_var(12), pat_var(13)], guards: vec![Guard { tests: vec![test_atom(14), test_atom(15)] }, Guard { tests: vec![test_atom(16), test_atom(17)] }], body: Body { exprs: vec![atom(18), atom(19)] } }],
        }),
        Expr::LocalCall(LocalCall {
            location: loc(1),
            id: Id { name: s("f"), arity: 1 },
            args: vec![atom(2), atom(3)],
        }),
        Expr::DynCall(DynCall { location: loc(1), f: Box::new(atom(2)), args: vec![atom(3), atom(4)] }),
        Expr::RemoteCall(RemoteCall {
            location: loc(1),
            id: RemoteId { module: s("m"), name: s("f"), arity: 1 },
            args: vec![atom(2), atom(3)],
        }),
        Expr::LocalFun(LocalFun { location: loc(1), id: Id { name: s("f"), arity: 1 } }),
        Expr::RemoteFun(RemoteFun { location: loc(1), id: RemoteId { module: s("m"), name: s("f"), arity: 1 } }),
        Expr::DynRemoteFun(DynRemoteFun { location: loc(1), module: Box::new(atom(2)), name: Box::new(atom(3)) }),
        Expr::DynRemoteFunArity(DynRemoteFunArity {
            location: loc(1),
            module: Box::new(atom(2)),
            name: Box::new(atom(3)),
            arity: Box::new(atom(4)),
        }),
        Expr::Lambda(Lambda {
            location: loc(1),
            clauses: vec![Clause { location: loc(2), pats: vec![pat_var(3), pat_var(4)], guards: vec![Guard { tests: vec![test_atom(5), test_atom(6)] }, Guard { tests: vec![test_atom(7), test_atom(8)] }], body: Body { exprs: vec![atom(9), atom(10)] } }, Clause { location: loc(11), pats: vec![pat_var(12), pat_var(13)], guards: vec![Guard { tests: vec![test_atom(14), test_atom(15)] }, Guard { tests: vec![test_atom(16), test_atom(17)] }], body: Body { exprs: vec![atom(18), atom(19)] } }],
            name: Some(s("f")),
        }),
        Expr::UnOp(UnOp { location: loc(1), op: s("n"), arg: Box::new(atom(2)) }),
        Expr::BinOp(BinOp { location: loc(1), op: s("n"), arg_1: Box::new(atom(2)), arg_2: Box::new(atom(3)) }),
        Expr::LComprehension(LComprehension {
            location: loc(1),
            template: Box::new(atom(2)),
            qualifiers: vec![Qualifier::Filter(Filter { expr: atom(3) }), Qualifier::Filter(Filter { expr: atom(4) })],
        }),
        Expr::BComprehension(BComprehension {
            location: loc(1),
            template: Box::new(atom(2)),
            qualifiers: vec![Qualifier::Filter(Filter { expr: atom(3) }), Qualifier::Filter(Filter { expr: atom(4) })],
        }),
        Expr::MComprehension(MComprehension {
            location: loc(1),
            k_template: Box::new(atom(2)),
            v_template: Box::new(atom(3)),
            qualifiers: vec![Qualifier::Filter(Filter { expr: atom(4) }), Qualifier::Filter(Filter { expr: atom(5) })],
        }),
        Expr::Binary(Binary {
            location: loc(1),
            elems: vec![BinaryElem { location: loc(2), expr: atom(3), size: Some(atom(4)), specifier: s("n") }, BinaryElem { location: loc(5), expr: atom(6), size: Some(atom(7)), specifier: s("n") }],
        }),
        Expr::Catch(Catch { location: loc(1), expr: Box::new(atom(2)) }),
        Expr::TryCatchExpr(TryCatchExpr {
            location: loc(1),
            try_body: Body { exprs: vec![atom(2), atom(3)] },
            catch_clauses: vec![Clause { location: loc(4), pats: vec![pat_var(5), pat_var(6)], guards: vec![Guard { tests: vec![test_atom(7), test_atom(8)] }, Guard { tests: vec![test_atom(9), test_atom(10)] }], body: Body { exprs: vec![atom(11), atom(12)] } }, Clause { location: loc(13), pats: vec![pat_var(14), pat_var(15)], guards: vec![Guard { tests: vec![test_atom(16), test_atom(17)] }, Guard { tests: vec![test_atom(18), test_atom(19)] }], body: Body { exprs: vec![atom(20), atom(21)] } }],
            after_body: Some(Body { exprs: vec![atom(22), atom(23)] }),
        }),
        Expr::TryOfCatchExpr(TryOfCatchExpr {
            location: loc(1),
            try_body: Body { exprs: vec![atom(2), atom(3)] },
            try_clauses: vec![Clause { location: loc(4), pats: vec![pat_var(5), pat_var(6)], guards: vec![Guard { tests: vec![test_atom(7), test_atom(8)] }, Guard { tests: vec![test_atom(9), test_atom(10)] }], body: Body { exprs: vec![atom(11), atom(12)] } }, Clause { location: loc(13), pats: vec![pat_var(14), pat_var(15)], guards: vec![Guard { tests: vec![test_atom(16), test_atom(17)] }, Guard { tests: vec![test_atom(18), test_atom(19)] }], body: Body { exprs: vec![atom(20), atom(21)] } }],
            catch_clauses: vec![Clause { location: loc(22), pats: vec![pat_var(23), pat_var(24)], guards: vec![Guard { tests: vec![test_atom(25), test_atom(26)] }, Guard { tests: vec![test_atom(27), test_atom(28)] }], body: Body { exprs: vec![atom(29), atom(30)] } }, Clause { location: loc(31), pats: vec![pat_var(32), pat_var(33)], guards: vec![Guard { tests: vec![test_atom(34), test_atom(35)] }, Guard { tests: vec![test_atom(36), test_atom(37)] }], body: Body { exprs: vec![atom(38), atom(39)] } }],
            after_body: Some(Body { exprs: vec![atom(40), atom(41)] }),
        }),
        Expr::Receive(Receive {
            location: loc(1),
            clauses: vec![Clause { location: loc(2), pats: vec![pat_var(3), pat_var(4)], guards: vec![Guard { tests: vec![test_atom(5), test_atom(6)] }, Guard { tests: vec![test_atom(7), test_atom(8)] }], body: Body { exprs: vec![atom(9), atom(10)] } }, Clause { location: loc(11), pats: vec![pat_var(12), pat_var(13)], guards: vec![Guard { tests: vec![test_atom(14), test_atom(15)] }, Guard { tests: vec![test_atom(16), test_atom(17)] }], body: Body { exprs: vec![atom(18), atom(19)] } }],
        }),
        Expr::ReceiveWithTimeout(ReceiveWithTimeout {
            location: loc(1),
            clauses: vec![Clause { location: loc(2), pats: vec![pat_var(3), pat_var(4)], guards: vec![Guard { tests: vec![test_atom(5), test_atom(6)] }, Guard { tests: vec![test_atom(7), test_atom(8)] }], body: Body { exprs: vec![atom(9), atom(10)] } }, Clause { location: loc(11), pats: vec![pat_var(12), pat_var(13)], guards: vec![Guard { tests: vec![test_atom(14), test_atom(15)] }, Guard { tests: vec![test_atom(16), test_atom(17)] }], body: Body { exprs: vec![atom(18), atom(19)] } }],
            timeout: Box::new(atom(20)),
            timeout_body: Body { exprs: vec![atom(21), atom(22)] },
        }),
        Expr::RecordCreate(RecordCreate {
            location: loc(1),
            rec_name: s("n"),
            fields: vec![RecordField::RecordFieldGen(RecordFieldGen { value: atom(2) }), RecordField::RecordFieldGen(RecordFieldGen { value: atom(3) })],
        }),
        Expr::RecordUpdate(RecordUpdate {
            location: loc(1),
            rec_name: s("n"),
            expr: Box::new(atom(2)),
            fields: vec![RecordFieldNamed { name: s("n"), value: atom(3) }, RecordFieldNamed { name: s("n"), value: atom(4) }],
        }),
        Expr::RecordSelect(RecordSelect {
            location: loc(1),
            rec_name: s("n"),
            field_name: s("n"),
            expr: Box::new(atom(2)),
        }),
        Expr::RecordIndex(RecordIndex { location: loc(1), rec_name: s("n"), field_name: s("n") }),
        Expr::MapCreate(MapCreate { location: loc(1), kvs: vec![(atom(2), atom(3)), (atom(4), atom(5))] }),
        Expr::MapUpdate(MapUpdate {
            location: loc(1),
            map: Box::new(atom(2)),
            kvs: vec![(atom(3), atom(4)), (atom(5), atom(6))],
        }),
        Expr::Maybe(Maybe { location: loc(1), body: Body { exprs: vec![atom(2), atom(3)] } }),
        Expr::MaybeElse(MaybeElse {
            location: loc(1),
            body: Body { exprs: vec![atom(2), atom(3)] },
            else_clauses: vec![Clause { location: loc(4), pats: vec![pat_var(5), pat_var(6)], guards: vec![Guard { tests: vec![test_atom(7), test_atom(8)] }, Guard { tests: vec![test_atom(9), test_atom(10)] }], body: Body { exprs: vec![atom(11), atom(12)] } }, Clause { location: loc(13), pats: vec![pat_var(14), pat_var(15)], guards: vec![Guard { tests: vec![test_atom(16), test_atom(17)] }, Guard { tests: vec![test_atom(18), test_atom(19)] }], body: Body { exprs: vec![atom(20), atom(21)] } }],
        }),
        Expr::MaybeMatch(MaybeMatch { location: loc(1), pat: pat_var(2), arg: Box::new(atom(3)) }),
    ]
}

/// Names the variant, so that a new variant breaks this file until it has a fixture.
fn expressions_variant(n: &Expr) -> &'static str {
    match n {
        Expr::Var(_) => "Var",
        Expr::AtomLit(_) => "AtomLit",
        Expr::IntLit(_) => "IntLit",
        Expr::FloatLit(_) => "FloatLit",
        Expr::Block(_) => "Block",
        Expr::Match(_) => "Match",
        Expr::Tuple(_) => "Tuple",
        Expr::StringLit(_) => "StringLit",
        Expr::NilLit(_) => "NilLit",
        Expr::Cons(_) => "Cons",
        Expr::Case(_) => "Case",
        Expr::If(_) => "If",
        Expr::LocalCall(_) => "LocalCall",
        Expr::DynCall(_) => "DynCall",
        Expr::RemoteCall(_) => "RemoteCall",
        Expr::LocalFun(_) => "LocalFun",
        Expr::RemoteFun(_) => "RemoteFun",
        Expr::DynRemoteFun(_) => "DynRemoteFun",
        Expr::DynRemoteFunArity(_) => "DynRemoteFunArity",
        Expr::Lambda(_) => "Lambda",
        Expr::UnOp(_) => "UnOp",
        Expr::BinOp(_) => "BinOp",
        Expr::LComprehension(_) => "LComprehension",
        Expr::BComprehension(_) => "BComprehension",
        Expr::MComprehension(_) => "MComprehension",
        Expr::Binary(_) => "Binary",
        Expr::Catch(_) => "Catch",
        Expr::TryCatchExpr(_) => "TryCatchExpr",
        Expr::TryOfCatchExpr(_) => "TryOfCatchExpr",
        Expr::Receive(_) => "Receive",
        Expr::ReceiveWithTimeout(_) => "ReceiveWithTimeout",
        Expr::RecordCreate(_) => "RecordCreate",
        Expr::RecordUpdate(_) => "RecordUpdate",
        Expr::RecordSelect(_) => "RecordSelect",
        Expr::RecordIndex(_) => "RecordIndex",
        Expr::MapCreate(_) => "MapCreate",
        Expr::MapUpdate(_) => "MapUpdate",
        Expr::Maybe(_) => "Maybe",
        Expr::MaybeElse(_) => "MaybeElse",
        Expr::MaybeMatch(_) => "MaybeMatch",
    }
}

#[test]
fn identity_keeps_every_variant_of_expressions() {
    let inputs = expressions();
    let expected = expressions();
    assert_eq!(inputs.len(), 40);
    for (input, want) in inputs.into_iter().zip(expected.into_iter()) {
        let name = expressions_variant(&input);
        let got: Result<Expr, ()> = visit_expr(&Identity, input);
        assert_eq!(got, Ok(want), "variant {}", name);
    }
}

#[test]
fn structural_walk_keeps_every_variant_of_expressions() {
    for (input, want) in expressions().into_iter().zip(expressions().into_iter()) {
        let got: Result<Expr, ()> = walk_expr(&Identity, input);
        assert_eq!(got, Ok(want));
    }
}

fn patterns() -> Vec<Pat> {
    vec![
        Pat::PatWild(PatWild { location: loc(1) }),
        Pat::PatMatch(PatMatch { location: loc(1), pat: Box::new(pat_var(2)), arg: Box::new(pat_var(3)) }),
        Pat::PatTuple(PatTuple { location: loc(1), elems: vec![pat_var(2), pat_var(3)] }),
        Pat::PatString(PatString { location: loc(1) }),
        Pat::PatNil(PatNil { location: loc(1) }),
        Pat::PatCons(PatCons { location: loc(1), h: Box::new(pat_var(2)), t: Box::new(pat_var(3)) }),
        Pat::PatInt(PatInt { location: loc(1) }),
        Pat::PatNumber(PatNumber { location: loc(1) }),
        Pat::PatAtom(PatAtom { location: loc(1), s: s("n") }),
        Pat::PatVar(PatVar { location: loc(1), name: s("n") }),
        Pat::PatRecord(PatRecord {
            location: loc(1),
            rec_name: s("n"),
            fields: vec![PatRecordFieldNamed { name: s("n"), pat: pat_var(2) }, PatRecordFieldNamed { name: s("n"), pat: pat_var(3) }],
            gen_pat: Some(Box::new(pat_var(4))),
        }),
        Pat::PatRecordIndex(PatRecordIndex { location: loc(1), rec_name: s("n"), field_name: s("n") }),
        Pat::PatUnOp(PatUnOp { location: loc(1), op: s("n"), arg: Box::new(pat_var(2)) }),
        Pat::PatBinOp(PatBinOp {
            location: loc(1),
            op: s("n"),
            arg_1: Box::new(pat_var(2)),
            arg_2: Box::new(pat_var(3)),
        }),
        Pat::PatBinary(PatBinary {
            location: loc(1),
            elems: vec![PatBinaryElem { location: loc(2), pat: pat_var(3), size: Some(atom(4)), specifier: s("n") }, PatBinaryElem { location: loc(5), pat: pat_var(6), size: Some(atom(7)), specifier: s("n") }],
        }),
        Pat::PatMap(PatMap {
            location: loc(1),
            kvs: vec![(test_atom(2), pat_var(3)), (test_atom(4), pat_var(5))],
        }),
    ]
}

/// Names the variant, so that a new variant breaks this file until it has a fixture.
fn patterns_variant(n: &Pat) -> &'static str {
    match n {
        Pat::PatWild(_) => "PatWild",
        Pat::PatMatch(_) => "PatMatch",
        Pat::PatTuple(_) => "PatTuple",
        Pat::PatString(_) => "PatString",
        Pat::PatNil(_) => "PatNil",
        Pat::PatCons(_) => "PatCons",
        Pat::PatInt(_) => "PatInt",
        Pat::PatNumber(_) => "PatNumber",
        Pat::PatAtom(_) => "PatAtom",
        Pat::PatVar(_) => "PatVar",
        Pat::PatRecord(_) => "PatRecord",
        Pat::PatRecordIndex(_) => "PatRecordIndex",
        Pat::PatUnOp(_) => "PatUnOp",
        Pat::PatBinOp(_) => "PatBinOp",
        Pat::PatBinary(_) => "PatBinary",
        Pat::PatMap(_) => "PatMap",
    }
}

#[test]
fn identity_keeps_every_variant_of_patterns() {
    let inputs = patterns();
    let expected = patterns();
    assert_eq!(inputs.len(), 16);
    for (input, want) in inputs.into_iter().zip(expected.into_iter()) {
        let name = patterns_variant(&input);
        let got: Result<Pat, ()> = visit_pat(&Identity, input);
        assert_eq!(got, Ok(want), "variant {}", name);
    }
}

#[test]
fn structural_walk_keeps_every_variant_of_patterns() {
    for (input, want) in patterns().into_iter().zip(patterns().into_iter()) {
        let got: Result<Pat, ()> = walk_pat(&Identity, input);
        assert_eq!(got, Ok(want));
    }
}

fn guard_tests() -> Vec<Test> {
    vec![
        Test::TestVar(TestVar { location: loc(1), name: s("n") }),
        Test::TestAtom(TestAtom { location: loc(1), s: s("n") }),
        Test::TestNumber(TestNumber { location: loc(1), lit: Some(7) }),
        Test::TestTuple(TestTuple { location: loc(1), elems: vec![test_atom(2), test_atom(3)] }),
        Test::TestString(TestString { location: loc(1) }),
        Test::TestNil(TestNil { location: loc(1) }),
        Test::TestCons(TestCons { location: loc(1), h: Box::new(test_atom(2)), t: Box::new(test_atom(3)) }),
        Test::TestCall(TestCall {
            location: loc(1),
            id: RemoteId { module: s("m"), name: s("f"), arity: 1 },
            args: vec![test_atom(2), test_atom(3)],
        }),
        Test::TestRecordCreate(TestRecordCreate {
            location: loc(1),
            rec_name: s("n"),
            fields: vec![TestRecordField::TestRecordFieldGen(TestRecordFieldGen { value: test_atom(2) }), TestRecordField::TestRecordFieldGen(TestRecordFieldGen { value: test_atom(3) })],
        }),
        Test::TestRecordSelect(TestRecordSelect {
            location: loc(1),
            rec: Box::new(test_atom(2)),
            rec_name: s("n"),
            field_name: s("n"),
        }),
        Test::TestRecordIndex(TestRecordIndex { location: loc(1), rec_name: s("n"), field_name: s("n") }),
        Test::TestMapCreate(TestMapCreate {
            location: loc(1),
            kvs: vec![(test_atom(2), test_atom(3)), (test_atom(4), test_atom(5))],
        }),
        Test::TestMapUpdate(TestMapUpdate {
            location: loc(1),
            map: Box::new(test_atom(2)),
            kvs: vec![(test_atom(3), test_atom(4)), (test_atom(5), test_atom(6))],
        }),
        Test::TestUnOp(TestUnOp { location: loc(1), op: s("n"), arg: Box::new(test_atom(2)) }),
        Test::TestBinOp(TestBinOp {
            location: loc(1),
            op: s("n"),
            arg_1: Box::new(test_atom(2)),
            arg_2: Box::new(test_atom(3)),
        }),
        Test::TestBinaryLit(TestBinaryLit { location: loc(1) }),
    ]
}

/// Names the variant, so that a new variant breaks this file until it has a fixture.
fn guard_tests_variant(n: &Test) -> &'static str {
    match n {
        Test::TestVar(_) => "TestVar",
        Test::TestAtom(_) => "TestAtom",
        Test::TestNumber(_) => "TestNumber",
        Test::TestTuple(_) => "TestTuple",
        Test::TestString(_) => "TestString",
        Test::TestNil(_) => "TestNil",
        Test::TestCons(_) => "TestCons",
        Test::TestCall(_) => "TestCall",
        Test::TestRecordCreate(_) => "TestRecordCreate",
        Test::TestRecordSelect(_) => "TestRecordSelect",
        Test::TestRecordIndex(_) => "TestRecordIndex",
        Test::TestMapCreate(_) => "TestMapCreate",
        Test::TestMapUpdate(_) => "TestMapUpdate",
        Test::TestUnOp(_) => "TestUnOp",
        Test::TestBinOp(_) => "TestBinOp",
        Test::TestBinaryLit(_) => "TestBinaryLit",
    }
}

#[test]
fn identity_keeps_every_variant_of_guard_tests() {
    let inputs = guard_tests();
    let expected = guard_tests();
    assert_eq!(inputs.len(), 16);
    for (input, want) in inputs.into_iter().zip(expected.into_iter()) {
        let name = guard_tests_variant(&input);
        let got: Result<Test, ()> = visit_test(&Identity, input);
        assert_eq!(got, Ok(want), "variant {}", name);
    }
}

#[test]
fn structural_walk_keeps_every_variant_of_guard_tests() {
    for (input, want) in guard_tests().into_iter().zip(guard_tests().into_iter()) {
        let got: Result<Test, ()> = walk_test(&Identity, input);
        assert_eq!(got, Ok(want));
    }
}

fn forms() -> Vec<ExternalForm> {
    vec![
        ExternalForm::Module(Module { location: loc(1), name: s("n") }),
        ExternalForm::CompileExportAll(CompileExportAll { location: loc(1) }),
        ExternalForm::Export(Export { location: loc(1), funs: vec![Id { name: s("g"), arity: 0 }] }),
        ExternalForm::Import(Import { location: loc(1), module: s("n"), funs: vec![Id { name: s("g"), arity: 0 }] }),
        ExternalForm::ExportType(ExportType { location: loc(1), types: vec![Id { name: s("g"), arity: 0 }] }),
        ExternalForm::FunDecl(FunDecl {
            location: loc(1),
            id: Id { name: s("f"), arity: 1 },
            clauses: vec![Clause { location: loc(2), pats: vec![pat_var(3), pat_var(4)], guards: vec![Guard { tests: vec![test_atom(5), test_atom(6)] }, Guard { tests: vec![test_atom(7), test_atom(8)] }], body: Body { exprs: vec![atom(9), atom(10)] } }, Clause { location: loc(11), pats: vec![pat_var(12), pat_var(13)], guards: vec![Guard { tests: vec![test_atom(14), test_atom(15)] }, Guard { tests: vec![test_atom(16), test_atom(17)] }], body: Body { exprs: vec![atom(18), atom(19)] } }],
        }),
        ExternalForm::File(File { location: loc(1), file: s("n"), start: 3 }),
        ExternalForm::ElpMetadata(ElpMetadata { location: loc(1), fixmes: vec![loc(2)] }),
        ExternalForm::Behaviour(Behaviour { location: loc(1), name: s("n") }),
        ExternalForm::EqwalizerNowarnFunction(EqwalizerNowarnFunction { location: loc(1), id: Id { name: s("f"), arity: 1 } }),
        ExternalForm::EqwalizerUnlimitedRefinement(EqwalizerUnlimitedRefinement { location: loc(1), id: Id { name: s("f"), arity: 1 } }),
        ExternalForm::TypingAttribute(TypingAttribute { location: loc(1), names: vec![s("p")] }),
        ExternalForm::ExternalTypeDecl(ExternalTypeDecl {
            location: loc(1),
            id: Id { name: s("f"), arity: 1 },
            params: vec![s("p")],
        }),
        ExternalForm::ExternalOpaqueDecl(ExternalOpaqueDecl {
            location: loc(1),
            id: Id { name: s("f"), arity: 1 },
            params: vec![s("p")],
        }),
        ExternalForm::ExternalFunSpec(ExternalFunSpec { location: loc(1), id: Id { name: s("f"), arity: 1 } }),
        ExternalForm::ExternalCallback(ExternalCallback { location: loc(1), id: Id { name: s("f"), arity: 1 } }),
        ExternalForm::ExternalOptionalCallbacks(ExternalOptionalCallbacks { location: loc(1), ids: vec![Id { name: s("g"), arity: 0 }] }),
        ExternalForm::ExternalRecDecl(ExternalRecDecl {
            location: loc(1),
            name: s("n"),
            file: Some(s("f")),
            fields: vec![ExternalRecField { name: s("n"), default_value: Some(atom(2)) }, ExternalRecField { name: s("n"), default_value: Some(atom(3)) }],
        }),
    ]
}

/// Names the variant, so that a new variant breaks this file until it has a fixture.
fn forms_variant(n: &ExternalForm) -> &'static str {
    match n {
        ExternalForm::Module(_) => "Module",
        ExternalForm::CompileExportAll(_) => "CompileExportAll",
        ExternalForm::Export(_) => "Export",
        ExternalForm::Import(_) => "Import",
        ExternalForm::ExportType(_) => "ExportType",
        ExternalForm::FunDecl(_) => "FunDecl",
        ExternalForm::File(_) => "File",
        ExternalForm::ElpMetadata(_) => "ElpMetadata",
        ExternalForm::Behaviour(_) => "Behaviour",
        ExternalForm::EqwalizerNowarnFunction(_) => "EqwalizerNowarnFunction",
        ExternalForm::EqwalizerUnlimitedRefinement(_) => "EqwalizerUnlimitedRefinement",
        ExternalForm::TypingAttribute(_) => "TypingAttribute",
        ExternalForm::ExternalTypeDecl(_) => "ExternalTypeDecl",
        ExternalForm::ExternalOpaqueDecl(_) => "ExternalOpaqueDecl",
        ExternalForm::ExternalFunSpec(_) => "ExternalFunSpec",
        ExternalForm::ExternalCallback(_) => "ExternalCallback",
        ExternalForm::ExternalOptionalCallbacks(_) => "ExternalOptionalCallbacks",
        ExternalForm::ExternalRecDecl(_) => "ExternalRecDecl",
    }
}

#[test]
fn identity_keeps_every_variant_of_forms() {
    let inputs = forms();
    let expected = forms();
    assert_eq!(inputs.len(), 18);
    for (input, want) in inputs.into_iter().zip(expected.into_iter()) {
        let name = forms_variant(&input);
        let got: Result<ExternalForm, ()> = visit_form(&Identity, input);
        assert_eq!(got, Ok(want), "variant {}", name);
    }
}

#[test]
fn structural_walk_keeps_every_variant_of_forms() {
    for (input, want) in forms().into_iter().zip(forms().into_iter()) {
        let got: Result<ExternalForm, ()> = walk_form(&Identity, input);
        assert_eq!(got, Ok(want));
    }
}

fn qualifiers() -> Vec<Qualifier> {
    vec![
        Qualifier::LGenerate(LGenerate { pat: pat_var(1), expr: atom(2) }),
        Qualifier::BGenerate(BGenerate { pat: pat_var(1), expr: atom(2) }),
        Qualifier::MGenerate(MGenerate { k_pat: pat_var(1), v_pat: pat_var(2), expr: atom(3) }),
        Qualifier::Filter(Filter { expr: atom(1) }),
    ]
}

/// Names the variant, so that a new variant breaks this file until it has a fixture.
fn qualifiers_variant(n: &Qualifier) -> &'static str {
    match n {
        Qualifier::LGenerate(_) => "LGenerate",
        Qualifier::BGenerate(_) => "BGenerate",
        Qualifier::MGenerate(_) => "MGenerate",
        Qualifier::Filter(_) => "Filter",
    }
}

#[test]
fn identity_keeps_every_variant_of_qualifiers() {
    let inputs = qualifiers();
    let expected = qualifiers();
    assert_eq!(inputs.len(), 4);
    for (input, want) in inputs.into_iter().zip(expected.into_iter()) {
        let name = qualifiers_variant(&input);
        let got: Result<Qualifier, ()> = visit_qualifier(&Identity, input);
        assert_eq!(got, Ok(want), "variant {}", name);
    }
}

#[test]
fn structural_walk_keeps_every_variant_of_qualifiers() {
    for (input, want) in qualifiers().into_iter().zip(qualifiers().into_iter()) {
        let got: Result<Qualifier, ()> = walk_qualifier(&Identity, input);
        assert_eq!(got, Ok(want));
    }
}

fn record_fields() -> Vec<RecordField> {
    vec![
        RecordField::RecordFieldGen(RecordFieldGen { value: atom(1) }),
        RecordField::RecordFieldNamed(RecordFieldNamed { name: s("n"), value: atom(1) }),
    ]
}

/// Names the variant, so that a new variant breaks this file until it has a fixture.
fn record_fields_variant(n: &RecordField) -> &'static str {
    match n {
        RecordField::RecordFieldGen(_) => "RecordFieldGen",
        RecordField::RecordFieldNamed(_) => "RecordFieldNamed",
    }
}

#[test]
fn identity_keeps_every_variant_of_record_fields() {
    let inputs = record_fields();
    let expected = record_fields();
    assert_eq!(inputs.len(), 2);
    for (input, want) in inputs.into_iter().zip(expected.into_iter()) {
        let name = record_fields_variant(&input);
        let got: Result<RecordField, ()> = visit_record_field(&Identity, input);
        assert_eq!(got, Ok(want), "variant {}", name);
    }
}

#[test]
fn structural_walk_keeps_every_variant_of_record_fields() {
    for (input, want) in record_fields().into_iter().zip(record_fields().into_iter()) {
        let got: Result<RecordField, ()> = walk_record_field(&Identity, input);
        assert_eq!(got, Ok(want));
    }
}

fn test_record_fields() -> Vec<TestRecordField> {
    vec![
        TestRecordField::TestRecordFieldNamed(TestRecordFieldNamed { name: s("n"), value: test_atom(1) }),
        TestRecordField::TestRecordFieldGen(TestRecordFieldGen { value: test_atom(1) }),
    ]
}

/// Names the variant, so that a new variant breaks this file until it has a fixture.
fn test_record_fields_variant(n: &TestRecordField) -> &'static str {
    match n {
        TestRecordField::TestRecordFieldNamed(_) => "TestRecordFieldNamed",
        TestRecordField::TestRecordFieldGen(_) => "TestRecordFieldGen",
    }
}

#[test]
fn identity_keeps_every_variant_of_test_record_fields() {
    let inputs = test_record_fields();
    let expected = test_record_fields();
    assert_eq!(inputs.len(), 2);
    for (input, want) in inputs.into_iter().zip(expected.into_iter()) {
        let name = test_record_fields_variant(&input);
        let got: Result<TestRecordField, ()> = visit_test_record_field(&Identity, input);
        assert_eq!(got, Ok(want), "variant {}", name);
    }
}

#[test]
fn structural_walk_keeps_every_variant_of_test_record_fields() {
    for (input, want) in test_record_fields().into_iter().zip(test_record_fields().into_iter()) {
        let got: Result<TestRecordField, ()> = walk_test_record_field(&Identity, input);
        assert_eq!(got, Ok(want));
    }
}

fn sample_body() -> Body {
    Body { exprs: vec![atom(1), atom(2)] }
}

#[test]
fn identity_keeps_body() {
    let got: Result<Body, ()> = visit_body(&Identity, sample_body());
    assert_eq!(got, Ok(sample_body()));
    let walked: Result<Body, ()> = walk_body(&Identity, sample_body());
    assert_eq!(walked, Ok(sample_body()));
}

fn sample_clause() -> Clause {
    Clause {
        location: loc(1),
        pats: vec![pat_var(2), pat_var(3)],
        guards: vec![Guard { tests: vec![test_atom(4), test_atom(5)] }, Guard { tests: vec![test_atom(6), test_atom(7)] }],
        body: Body { exprs: vec![atom(8), atom(9)] },
    }
}

#[test]
fn identity_keeps_clause() {
    let got: Result<Clause, ()> = visit_clause(&Identity, sample_clause());
    assert_eq!(got, Ok(sample_clause()));
    let walked: Result<Clause, ()> = walk_clause(&Identity, sample_clause());
    assert_eq!(walked, Ok(sample_clause()));
}

fn sample_guard() -> Guard {
    Guard { tests: vec![test_atom(1), test_atom(2)] }
}

#[test]
fn identity_keeps_guard() {
    let got: Result<Guard, ()> = visit_guard(&Identity, sample_guard());
    assert_eq!(got, Ok(sample_guard()));
    let walked: Result<Guard, ()> = walk_guard(&Identity, sample_guard());
    assert_eq!(walked, Ok(sample_guard()));
}

fn sample_binary_elem() -> BinaryElem {
    BinaryElem { location: loc(1), expr: atom(2), size: Some(atom(3)), specifier: s("n") }
}

#[test]
fn identity_keeps_binary_elem() {
    let got: Result<BinaryElem, ()> = visit_binary_elem(&Identity, sample_binary_elem());
    assert_eq!(got, Ok(sample_binary_elem()));
    let walked: Result<BinaryElem, ()> = walk_binary_elem(&Identity, sample_binary_elem());
    assert_eq!(walked, Ok(sample_binary_elem()));
}

fn sample_pat_binary_elem() -> PatBinaryElem {
    PatBinaryElem { location: loc(1), pat: pat_var(2), size: Some(atom(3)), specifier: s("n") }
}

#[test]
fn identity_keeps_pat_binary_elem() {
    let got: Result<PatBinaryElem, ()> = visit_pat_binary_elem(&Identity, sample_pat_binary_elem());
    assert_eq!(got, Ok(sample_pat_binary_elem()));
    let walked: Result<PatBinaryElem, ()> = walk_pat_binary_elem(&Identity, sample_pat_binary_elem());
    assert_eq!(walked, Ok(sample_pat_binary_elem()));
}

