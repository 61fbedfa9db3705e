//! Structural sameness of trees, and the identity law stated with it.
//!
//! `same_c(a, b)` holds when `a` and `b` have the same variant, equal plain
//! fields, and children that are the same in turn, list by list and element
//! by element: what the derived `==` of the tree types compares. (Two vectors
//! with equal contents cannot be shown equal as values in the proof logic, so
//! sameness of trees is stated this way.) With a pass that leaves every node to
//! the walk, what a transformation returns is the same tree as its input.
use vstd::prelude::*;

use crate::ast::{
    AtomLit,
    BComprehension,
    BGenerate,
    Behaviour,
    BinOp,
    Binary,
    BinaryElem,
    Block,
    Body,
    Case,
    Catch,
    Clause,
    CompileExportAll,
    Cons,
    DynCall,
    DynRemoteFun,
    DynRemoteFunArity,
    ElpMetadata,
    EqwalizerNowarnFunction,
    EqwalizerUnlimitedRefinement,
    Export,
    ExportType,
    Expr,
    ExternalCallback,
    ExternalForm,
    ExternalFunSpec,
    ExternalOpaqueDecl,
    ExternalOptionalCallbacks,
    ExternalRecDecl,
    ExternalRecField,
    ExternalTypeDecl,
    File,
    Filter,
    FloatLit,
    FunDecl,
    Guard,
    If,
    Import,
    IntLit,
    LComprehension,
    LGenerate,
    Lambda,
    LocalCall,
    LocalFun,
    MComprehension,
    MGenerate,
    MapCreate,
    MapUpdate,
    Match,
    Maybe,
    MaybeElse,
    MaybeMatch,
    Module,
    NilLit,
    Pat,
    PatAtom,
    PatBinOp,
    PatBinary,
    PatBinaryElem,
    PatCons,
    PatInt,
    PatMap,
    PatMatch,
    PatNil,
    PatNumber,
    PatRecord,
    PatRecordFieldNamed,
    PatRecordIndex,
    PatString,
    PatTuple,
    PatUnOp,
    PatVar,
    PatWild,
    Qualifier,
    Receive,
    ReceiveWithTimeout,
    RecordCreate,
    RecordField,
    RecordFieldGen,
    RecordFieldNamed,
    RecordIndex,
    RecordSelect,
    RecordUpdate,
    RemoteCall,
    RemoteFun,
    StringLit,
    Test,
    TestAtom,
    TestBinOp,
    TestBinaryLit,
    TestCall,
    TestCons,
    TestMapCreate,
    TestMapUpdate,
    TestNil,
    TestNumber,
    TestRecordCreate,
    TestRecordField,
    TestRecordFieldGen,
    TestRecordFieldNamed,
    TestRecordIndex,
    TestRecordSelect,
    TestString,
    TestTuple,
    TestUnOp,
    TestVar,
    TryCatchExpr,
    TryOfCatchExpr,
    Tuple,
    TypingAttribute,
    UnOp,
    Var,
};

use crate::transform_spec::{
    rewrites_binary_elem,
    rewrites_binary_elems,
    rewrites_body,
    rewrites_clause,
    rewrites_clauses,
    rewrites_cons,
    rewrites_expr,
    rewrites_expr_pair,
    rewrites_expr_pairs,
    rewrites_exprs,
    rewrites_form,
    rewrites_forms,
    rewrites_guard,
    rewrites_guards,
    rewrites_named_field,
    rewrites_named_fields,
    rewrites_pat,
    rewrites_pat_binary_elem,
    rewrites_pat_binary_elems,
    rewrites_pat_named_field,
    rewrites_pat_named_fields,
    rewrites_pats,
    rewrites_qualifier,
    rewrites_qualifiers,
    rewrites_rec_field,
    rewrites_rec_fields,
    rewrites_record_field,
    rewrites_record_fields,
    rewrites_test,
    rewrites_test_pair,
    rewrites_test_pairs,
    rewrites_test_pat_pair,
    rewrites_test_pat_pairs,
    rewrites_test_record_field,
    rewrites_test_record_fields,
    rewrites_tests,
    walk_rewrites_binary_elem,
    walk_rewrites_body,
    walk_rewrites_clause,
    walk_rewrites_expr,
    walk_rewrites_form,
    walk_rewrites_guard,
    walk_rewrites_pat,
    walk_rewrites_pat_binary_elem,
    walk_rewrites_qualifier,
    walk_rewrites_record_field,
    walk_rewrites_test,
    walk_rewrites_test_record_field,
};
use crate::laws::walks_everywhere;
use crate::transformer::Transformer;

verus! {

/// `a` and `b` are the same  expression: same variant, equal plain fields, and children that are the same in turn.
pub open spec fn same_expr(a: Expr, b: Expr) -> bool
    decreases a,
{
    match a {
        Expr::Var(x) => {
            &&& b matches Expr::Var(y)
            &&& y.location == x.location
            &&& y.name == x.name
        },
        Expr::AtomLit(x) => {
            &&& b matches Expr::AtomLit(y)
            &&& y.location == x.location
            &&& y.s == x.s
        },
        Expr::IntLit(x) => {
            &&& b matches Expr::IntLit(y)
            &&& y.location == x.location
            &&& y.value == x.value
        },
        Expr::FloatLit(x) => {
            &&& b matches Expr::FloatLit(y)
            &&& y.location == x.location
        },
        Expr::Block(x) => {
            &&& b matches Expr::Block(y)
            &&& y.location == x.location
            &&& same_body(x.body, y.body)
        },
        Expr::Match(x) => {
            &&& b matches Expr::Match(y)
            &&& y.location == x.location
            &&& same_pat(x.pat, y.pat)
            &&& same_expr(*x.expr, *y.expr)
        },
        Expr::Tuple(x) => {
            &&& b matches Expr::Tuple(y)
            &&& y.location == x.location
            &&& same_exprs(x.elems@, y.elems@)
        },
        Expr::StringLit(x) => {
            &&& b matches Expr::StringLit(y)
            &&& y.location == x.location
            &&& y.empty == x.empty
        },
        Expr::NilLit(x) => {
            &&& b matches Expr::NilLit(y)
            &&& y.location == x.location
        },
        Expr::Cons(x) => {
            &&& b matches Expr::Cons(y)
            &&& y.location == x.location
            &&& same_expr(*x.h, *y.h)
            &&& same_expr(*x.t, *y.t)
        },
        Expr::Case(x) => {
            &&& b matches Expr::Case(y)
            &&& y.location == x.location
            &&& same_expr(*x.expr, *y.expr)
            &&& same_clauses(x.clauses@, y.clauses@)
        },
        Expr::If(x) => {
            &&& b matches Expr::If(y)
            &&& y.location == x.location
            &&& same_clauses(x.clauses@, y.clauses@)
        },
        Expr::LocalCall(x) => {
            &&& b matches Expr::LocalCall(y)
            &&& y.location == x.location
            &&& y.id == x.id
            &&& same_exprs(x.args@, y.args@)
        },
        Expr::DynCall(x) => {
            &&& b matches Expr::DynCall(y)
            &&& y.location == x.location
            &&& same_expr(*x.f, *y.f)
            &&& same_exprs(x.args@, y.args@)
        },
        Expr::RemoteCall(x) => {
            &&& b matches Expr::RemoteCall(y)
            &&& y.location == x.location
            &&& y.id == x.id
            &&& same_exprs(x.args@, y.args@)
        },
        Expr::LocalFun(x) => {
            &&& b matches Expr::LocalFun(y)
            &&& y.location == x.location
            &&& y.id == x.id
        },
        Expr::RemoteFun(x) => {
            &&& b matches Expr::RemoteFun(y)
            &&& y.location == x.location
            &&& y.id == x.id
        },
        Expr::DynRemoteFun(x) => {
            &&& b matches Expr::DynRemoteFun(y)
            &&& y.location == x.location
            &&& same_expr(*x.module, *y.module)
            &&& same_expr(*x.name, *y.name)
        },
        Expr::DynRemoteFunArity(x) => {
            &&& b matches Expr::DynRemoteFunArity(y)
            &&& y.location == x.location
            &&& same_expr(*x.module, *y.module)
            &&& same_expr(*x.name, *y.name)
            &&& same_expr(*x.arity, *y.arity)
        },
        Expr::Lambda(x) => {
            &&& b matches Expr::Lambda(y)
            &&& y.location == x.location
            &&& same_clauses(x.clauses@, y.clauses@)
            &&& y.name == x.name
        },
        Expr::UnOp(x) => {
            &&& b matches Expr::UnOp(y)
            &&& y.location == x.location
            &&& y.op == x.op
            &&& same_expr(*x.arg, *y.arg)
        },
        Expr::BinOp(x) => {
            &&& b matches Expr::BinOp(y)
            &&& y.location == x.location
            &&& y.op == x.op
            &&& same_expr(*x.arg_1, *y.arg_1)
            &&& same_expr(*x.arg_2, *y.arg_2)
        },
        Expr::LComprehension(x) => {
            &&& b matches Expr::LComprehension(y)
            &&& y.location == x.location
            &&& same_expr(*x.template, *y.template)
            &&& same_qualifiers(x.qualifiers@, y.qualifiers@)
        },
        Expr::BComprehension(x) => {
            &&& b matches Expr::BComprehension(y)
            &&& y.location == x.location
            &&& same_expr(*x.template, *y.template)
            &&& same_qualifiers(x.qualifiers@, y.qualifiers@)
        },
        Expr::MComprehension(x) => {
            &&& b matches Expr::MComprehension(y)
            &&& y.location == x.location
            &&& same_expr(*x.k_template, *y.k_template)
            &&& same_expr(*x.v_template, *y.v_template)
            &&& same_qualifiers(x.qualifiers@, y.qualifiers@)
        },
        Expr::Binary(x) => {
            &&& b matches Expr::Binary(y)
            &&& y.location == x.location
            &&& same_binary_elems(x.elems@, y.elems@)
        },
        Expr::Catch(x) => {
            &&& b matches Expr::Catch(y)
            &&& y.location == x.location
            &&& same_expr(*x.expr, *y.expr)
        },
        Expr::TryCatchExpr(x) => {
            &&& b matches Expr::TryCatchExpr(y)
            &&& y.location == x.location
            &&& same_body(x.try_body, y.try_body)
            &&& same_clauses(x.catch_clauses@, y.catch_clauses@)
            &&& (match x.after_body { Some(o) => y.after_body matches Some(p) && same_body(o, p), None => y.after_body is None })
        },
        Expr::TryOfCatchExpr(x) => {
            &&& b matches Expr::TryOfCatchExpr(y)
            &&& y.location == x.location
            &&& same_body(x.try_body, y.try_body)
            &&& same_clauses(x.try_clauses@, y.try_clauses@)
            &&& same_clauses(x.catch_clauses@, y.catch_clauses@)
            &&& (match x.after_body { Some(o) => y.after_body matches Some(p) && same_body(o, p), None => y.after_body is None })
        },
        Expr::Receive(x) => {
            &&& b matches Expr::Receive(y)
            &&& y.location == x.location
            &&& same_clauses(x.clauses@, y.clauses@)
        },
        Expr::ReceiveWithTimeout(x) => {
            &&& b matches Expr::ReceiveWithTimeout(y)
            &&& y.location == x.location
            &&& same_clauses(x.clauses@, y.clauses@)
            &&& same_expr(*x.timeout, *y.timeout)
            &&& same_body(x.timeout_body, y.timeout_body)
        },
        Expr::RecordCreate(x) => {
            &&& b matches Expr::RecordCreate(y)
            &&& y.location == x.location
            &&& y.rec_name == x.rec_name
            &&& same_record_fields(x.fields@, y.fields@)
        },
        Expr::RecordUpdate(x) => {
            &&& b matches Expr::RecordUpdate(y)
            &&& y.location == x.location
            &&& y.rec_name == x.rec_name
            &&& same_expr(*x.expr, *y.expr)
            &&& same_named_fields(x.fields@, y.fields@)
        },
        Expr::RecordSelect(x) => {
            &&& b matches Expr::RecordSelect(y)
            &&& y.location == x.location
            &&& y.rec_name == x.rec_name
            &&& y.field_name == x.field_name
            &&& same_expr(*x.expr, *y.expr)
        },
        Expr::RecordIndex(x) => {
            &&& b matches Expr::RecordIndex(y)
            &&& y.location == x.location
            &&& y.rec_name == x.rec_name
            &&& y.field_name == x.field_name
        },
        Expr::MapCreate(x) => {
            &&& b matches Expr::MapCreate(y)
            &&& y.location == x.location
            &&& same_expr_pairs(x.kvs@, y.kvs@)
        },
        Expr::MapUpdate(x) => {
            &&& b matches Expr::MapUpdate(y)
            &&& y.location == x.location
            &&& same_expr(*x.map, *y.map)
            &&& same_expr_pairs(x.kvs@, y.kvs@)
        },
        Expr::Maybe(x) => {
            &&& b matches Expr::Maybe(y)
            &&& y.location == x.location
            &&& same_body(x.body, y.body)
        },
        Expr::MaybeElse(x) => {
            &&& b matches Expr::MaybeElse(y)
            &&& y.location == x.location
            &&& same_body(x.body, y.body)
            &&& same_clauses(x.else_clauses@, y.else_clauses@)
        },
        Expr::MaybeMatch(x) => {
            &&& b matches Expr::MaybeMatch(y)
            &&& y.location == x.location
            &&& same_pat(x.pat, y.pat)
            &&& same_expr(*x.arg, *y.arg)
        },
    }
}

/// `a` and `b` are the same pattern: same variant, equal plain fields, and children that are the same in turn.
pub open spec fn same_pat(a: Pat, b: Pat) -> bool
    decreases a,
{
    match a {
        Pat::PatWild(x) => {
            &&& b matches Pat::PatWild(y)
            &&& y.location == x.location
        },
        Pat::PatMatch(x) => {
            &&& b matches Pat::PatMatch(y)
            &&& y.location == x.location
            &&& same_pat(*x.pat, *y.pat)
            &&& same_pat(*x.arg, *y.arg)
        },
        Pat::PatTuple(x) => {
            &&& b matches Pat::PatTuple(y)
            &&& y.location == x.location
            &&& same_pats(x.elems@, y.elems@)
        },
        Pat::PatString(x) => {
            &&& b matches Pat::PatString(y)
            &&& y.location == x.location
        },
        Pat::PatNil(x) => {
            &&& b matches Pat::PatNil(y)
            &&& y.location == x.location
        },
        Pat::PatCons(x) => {
            &&& b matches Pat::PatCons(y)
            &&& y.location == x.location
            &&& same_pat(*x.h, *y.h)
            &&& same_pat(*x.t, *y.t)
        },
        Pat::PatInt(x) => {
            &&& b matches Pat::PatInt(y)
            &&& y.location == x.location
        },
        Pat::PatNumber(x) => {
            &&& b matches Pat::PatNumber(y)
            &&& y.location == x.location
        },
        Pat::PatAtom(x) => {
            &&& b matches Pat::PatAtom(y)
            &&& y.location == x.location
            &&& y.s == x.s
        },
        Pat::PatVar(x) => {
            &&& b matches Pat::PatVar(y)
            &&& y.location == x.location
            &&& y.name == x.name
        },
        Pat::PatRecord(x) => {
            &&& b matches Pat::PatRecord(y)
            &&& y.location == x.location
            &&& y.rec_name == x.rec_name
            &&& same_pat_named_fields(x.fields@, y.fields@)
            &&& (match x.gen_pat { Some(o) => y.gen_pat matches Some(p) && same_pat(*o, *p), None => y.gen_pat is None })
        },
        Pat::PatRecordIndex(x) => {
            &&& b matches Pat::PatRecordIndex(y)
            &&& y.location == x.location
            &&& y.rec_name == x.rec_name
            &&& y.field_name == x.field_name
        },
        Pat::PatUnOp(x) => {
            &&& b matches Pat::PatUnOp(y)
            &&& y.location == x.location
            &&& y.op == x.op
            &&& same_pat(*x.arg, *y.arg)
        },
        Pat::PatBinOp(x) => {
            &&& b matches Pat::PatBinOp(y)
            &&& y.location == x.location
            &&& y.op == x.op
            &&& same_pat(*x.arg_1, *y.arg_1)
            &&& same_pat(*x.arg_2, *y.arg_2)
        },
        Pat::PatBinary(x) => {
            &&& b matches Pat::PatBinary(y)
            &&& y.location == x.location
            &&& same_pat_binary_elems(x.elems@, y.elems@)
        },
        Pat::PatMap(x) => {
            &&& b matches Pat::PatMap(y)
            &&& y.location == x.location
            &&& same_test_pat_pairs(x.kvs@, y.kvs@)
        },
    }
}

/// `a` and `b` are the same guard test: same variant, equal plain fields, and children that are the same in turn.
pub open spec fn same_test(a: Test, b: Test) -> bool
    decreases a,
{
    match a {
        Test::TestVar(x) => {
            &&& b matches Test::TestVar(y)
            &&& y.location == x.location
            &&& y.name == x.name
        },
        Test::TestAtom(x) => {
            &&& b matches Test::TestAtom(y)
            &&& y.location == x.location
            &&& y.s == x.s
        },
        Test::TestNumber(x) => {
            &&& b matches Test::TestNumber(y)
            &&& y.location == x.location
            &&& y.lit == x.lit
        },
        Test::TestTuple(x) => {
            &&& b matches Test::TestTuple(y)
            &&& y.location == x.location
            &&& same_tests(x.elems@, y.elems@)
        },
        Test::TestString(x) => {
            &&& b matches Test::TestString(y)
            &&& y.location == x.location
        },
        Test::TestNil(x) => {
            &&& b matches Test::TestNil(y)
            &&& y.location == x.location
        },
        Test::TestCons(x) => {
            &&& b matches Test::TestCons(y)
            &&& y.location == x.location
            &&& same_test(*x.h, *y.h)
            &&& same_test(*x.t, *y.t)
        },
        Test::TestCall(x) => {
            &&& b matches Test::TestCall(y)
            &&& y.location == x.location
            &&& y.id == x.id
            &&& same_tests(x.args@, y.args@)
        },
        Test::TestRecordCreate(x) => {
            &&& b matches Test::TestRecordCreate(y)
            &&& y.location == x.location
            &&& y.rec_name == x.rec_name
            &&& same_test_record_fields(x.fields@, y.fields@)
        },
        Test::TestRecordSelect(x) => {
            &&& b matches Test::TestRecordSelect(y)
            &&& y.location == x.location
            &&& same_test(*x.rec, *y.rec)
            &&& y.rec_name == x.rec_name
            &&& y.field_name == x.field_name
        },
        Test::TestRecordIndex(x) => {
            &&& b matches Test::TestRecordIndex(y)
            &&& y.location == x.location
            &&& y.rec_name == x.rec_name
            &&& y.field_name == x.field_name
        },
        Test::TestMapCreate(x) => {
            &&& b matches Test::TestMapCreate(y)
            &&& y.location == x.location
            &&& same_test_pairs(x.kvs@, y.kvs@)
        },
        Test::TestMapUpdate(x) => {
            &&& b matches Test::TestMapUpdate(y)
            &&& y.location == x.location
            &&& same_test(*x.map, *y.map)
            &&& same_test_pairs(x.kvs@, y.kvs@)
        },
        Test::TestUnOp(x) => {
            &&& b matches Test::TestUnOp(y)
            &&& y.location == x.location
            &&& y.op == x.op
            &&& same_test(*x.arg, *y.arg)
        },
        Test::TestBinOp(x) => {
            &&& b matches Test::TestBinOp(y)
            &&& y.location == x.location
            &&& y.op == x.op
            &&& same_test(*x.arg_1, *y.arg_1)
            &&& same_test(*x.arg_2, *y.arg_2)
        },
        Test::TestBinaryLit(x) => {
            &&& b matches Test::TestBinaryLit(y)
            &&& y.location == x.location
        },
    }
}

/// `a` and `b` are the same form: same variant, equal plain fields, and children that are the same in turn.
pub open spec fn same_form(a: ExternalForm, b: ExternalForm) -> bool
    decreases a,
{
    match a {
        ExternalForm::Module(x) => {
            &&& b matches ExternalForm::Module(y)
            &&& y.location == x.location
            &&& y.name == x.name
        },
        ExternalForm::CompileExportAll(x) => {
            &&& b matches ExternalForm::CompileExportAll(y)
            &&& y.location == x.location
        },
        ExternalForm::Export(x) => {
            &&& b matches ExternalForm::Export(y)
            &&& y.location == x.location
            &&& y.funs == x.funs
        },
        ExternalForm::Import(x) => {
            &&& b matches ExternalForm::Import(y)
            &&& y.location == x.location
            &&& y.module == x.module
            &&& y.funs == x.funs
        },
        ExternalForm::ExportType(x) => {
            &&& b matches ExternalForm::ExportType(y)
            &&& y.location == x.location
            &&& y.types == x.types
        },
        ExternalForm::FunDecl(x) => {
            &&& b matches ExternalForm::FunDecl(y)
            &&& y.location == x.location
            &&& y.id == x.id
            &&& same_clauses(x.clauses@, y.clauses@)
        },
        ExternalForm::File(x) => {
            &&& b matches ExternalForm::File(y)
            &&& y.location == x.location
            &&& y.file == x.file
            &&& y.start == x.start
        },
        ExternalForm::ElpMetadata(x) => {
            &&& b matches ExternalForm::ElpMetadata(y)
            &&& y.location == x.location
            &&& y.fixmes == x.fixmes
        },
        ExternalForm::Behaviour(x) => {
            &&& b matches ExternalForm::Behaviour(y)
            &&& y.location == x.location
            &&& y.name == x.name
        },
        ExternalForm::EqwalizerNowarnFunction(x) => {
            &&& b matches ExternalForm::EqwalizerNowarnFunction(y)
            &&& y.location == x.location
            &&& y.id == x.id
        },
        ExternalForm::EqwalizerUnlimitedRefinement(x) => {
            &&& b matches ExternalForm::EqwalizerUnlimitedRefinement(y)
            &&& y.location == x.location
            &&& y.id == x.id
        },
        ExternalForm::TypingAttribute(x) => {
            &&& b matches ExternalForm::TypingAttribute(y)
            &&& y.location == x.location
            &&& y.names == x.names
        },
        ExternalForm::ExternalTypeDecl(x) => {
            &&& b matches ExternalForm::ExternalTypeDecl(y)
            &&& y.location == x.location
            &&& y.id == x.id
            &&& y.params == x.params
        },
        ExternalForm::ExternalOpaqueDecl(x) => {
            &&& b matches ExternalForm::ExternalOpaqueDecl(y)
            &&& y.location == x.location
            &&& y.id == x.id
            &&& y.params == x.params
        },
        ExternalForm::ExternalFunSpec(x) => {
            &&& b matches ExternalForm::ExternalFunSpec(y)
            &&& y.location == x.location
            &&& y.id == x.id
        },
        ExternalForm::ExternalCallback(x) => {
            &&& b matches ExternalForm::ExternalCallback(y)
            &&& y.location == x.location
            &&& y.id == x.id
        },
        ExternalForm::ExternalOptionalCallbacks(x) => {
            &&& b matches ExternalForm::ExternalOptionalCallbacks(y)
            &&& y.location == x.location
            &&& y.ids == x.ids
        },
        ExternalForm::ExternalRecDecl(x) => {
            &&& b matches ExternalForm::ExternalRecDecl(y)
            &&& y.location == x.location
            &&& y.name == x.name
            &&& y.file == x.file
            &&& same_rec_fields(x.fields@, y.fields@)
        },
    }
}

pub open spec fn same_clause(a: Clause, b: Clause) -> bool
    decreases a,
{
    &&& b.location == a.location
    &&& same_pats(a.pats@, b.pats@)
    &&& same_guards(a.guards@, b.guards@)
    &&& same_body(a.body, b.body)
}

pub open spec fn same_body(a: Body, b: Body) -> bool
    decreases a,
{
    &&& same_exprs(a.exprs@, b.exprs@)
}

pub open spec fn same_guard(a: Guard, b: Guard) -> bool
    decreases a,
{
    &&& same_tests(a.tests@, b.tests@)
}

pub open spec fn same_qualifier(a: Qualifier, b: Qualifier) -> bool
    decreases a,
{
    match a {
        Qualifier::LGenerate(x) => {
            &&& b matches Qualifier::LGenerate(y)
            &&& same_pat(x.pat, y.pat)
            &&& same_expr(x.expr, y.expr)
        },
        Qualifier::BGenerate(x) => {
            &&& b matches Qualifier::BGenerate(y)
            &&& same_pat(x.pat, y.pat)
            &&& same_expr(x.expr, y.expr)
        },
        Qualifier::MGenerate(x) => {
            &&& b matches Qualifier::MGenerate(y)
            &&& same_pat(x.k_pat, y.k_pat)
            &&& same_pat(x.v_pat, y.v_pat)
            &&& same_expr(x.expr, y.expr)
        },
        Qualifier::Filter(x) => {
            &&& b matches Qualifier::Filter(y)
            &&& same_expr(x.expr, y.expr)
        },
    }
}

pub open spec fn same_binary_elem(a: BinaryElem, b: BinaryElem) -> bool
    decreases a,
{
    &&& b.location == a.location
    &&& same_expr(a.expr, b.expr)
    &&& (match a.size { Some(o) => b.size matches Some(p) && same_expr(o, p), None => b.size is None })
    &&& b.specifier == a.specifier
}

pub open spec fn same_pat_binary_elem(a: PatBinaryElem, b: PatBinaryElem) -> bool
    decreases a,
{
    &&& b.location == a.location
    &&& same_pat(a.pat, b.pat)
    &&& (match a.size { Some(o) => b.size matches Some(p) && same_expr(o, p), None => b.size is None })
    &&& b.specifier == a.specifier
}

pub open spec fn same_record_field(a: RecordField, b: RecordField) -> bool
    decreases a,
{
    match a {
        RecordField::RecordFieldGen(x) => {
            &&& b matches RecordField::RecordFieldGen(y)
            &&& same_expr(x.value, y.value)
        },
        RecordField::RecordFieldNamed(x) => {
            &&& b matches RecordField::RecordFieldNamed(y)
            &&& y.name == x.name
            &&& same_expr(x.value, y.value)
        },
    }
}

pub open spec fn same_test_record_field(a: TestRecordField, b: TestRecordField) -> bool
    decreases a,
{
    match a {
        TestRecordField::TestRecordFieldNamed(x) => {
            &&& b matches TestRecordField::TestRecordFieldNamed(y)
            &&& y.name == x.name
            &&& same_test(x.value, y.value)
        },
        TestRecordField::TestRecordFieldGen(x) => {
            &&& b matches TestRecordField::TestRecordFieldGen(y)
            &&& same_test(x.value, y.value)
        },
    }
}

pub open spec fn same_named_field(a: RecordFieldNamed, b: RecordFieldNamed) -> bool
    decreases a,
{
    &&& b.name == a.name
    &&& same_expr(a.value, b.value)
}

pub open spec fn same_pat_named_field(a: PatRecordFieldNamed, b: PatRecordFieldNamed) -> bool
    decreases a,
{
    &&& b.name == a.name
    &&& same_pat(a.pat, b.pat)
}

pub open spec fn same_rec_field(a: ExternalRecField, b: ExternalRecField) -> bool
    decreases a,
{
    &&& b.name == a.name
    &&& (match a.default_value { Some(o) => b.default_value matches Some(p) && same_expr(o, p), None => b.default_value is None })
}

pub open spec fn same_expr_pair(a: (Expr, Expr), b: (Expr, Expr)) -> bool
    decreases a,
{
    same_expr(a.0, b.0) && same_expr(a.1, b.1)
}

pub open spec fn same_test_pat_pair(a: (Test, Pat), b: (Test, Pat)) -> bool
    decreases a,
{
    same_test(a.0, b.0) && same_pat(a.1, b.1)
}

pub open spec fn same_test_pair(a: (Test, Test), b: (Test, Test)) -> bool
    decreases a,
{
    same_test(a.0, b.0) && same_test(a.1, b.1)
}

pub open spec fn same_forms(s: Seq<ExternalForm>, t: Seq<ExternalForm>) -> bool
    decreases s,
{
    &&& t.len() == s.len()
    &&& forall|i: int| 0 <= i < s.len() ==> same_form(#[trigger] s[i], t[i])
}

pub open spec fn same_exprs(s: Seq<Expr>, t: Seq<Expr>) -> bool
    decreases s,
{
    &&& t.len() == s.len()
    &&& forall|i: int| 0 <= i < s.len() ==> same_expr(#[trigger] s[i], t[i])
}

pub open spec fn same_clauses(s: Seq<Clause>, t: Seq<Clause>) -> bool
    decreases s,
{
    &&& t.len() == s.len()
    &&& forall|i: int| 0 <= i < s.len() ==> same_clause(#[trigger] s[i], t[i])
}

pub open spec fn same_qualifiers(s: Seq<Qualifier>, t: Seq<Qualifier>) -> bool
    decreases s,
{
    &&& t.len() == s.len()
    &&& forall|i: int| 0 <= i < s.len() ==> same_qualifier(#[trigger] s[i], t[i])
}

pub open spec fn same_binary_elems(s: Seq<BinaryElem>, t: Seq<BinaryElem>) -> bool
    decreases s,
{
    &&& t.len() == s.len()
    &&& forall|i: int| 0 <= i < s.len() ==> same_binary_elem(#[trigger] s[i], t[i])
}

pub open spec fn same_record_fields(s: Seq<RecordField>, t: Seq<RecordField>) -> bool
    decreases s,
{
    &&& t.len() == s.len()
    &&& forall|i: int| 0 <= i < s.len() ==> same_record_field(#[trigger] s[i], t[i])
}

pub open spec fn same_named_fields(s: Seq<RecordFieldNamed>, t: Seq<RecordFieldNamed>) -> bool
    decreases s,
{
    &&& t.len() == s.len()
    &&& forall|i: int| 0 <= i < s.len() ==> same_named_field(#[trigger] s[i], t[i])
}

pub open spec fn same_expr_pairs(s: Seq<(Expr, Expr)>, t: Seq<(Expr, Expr)>) -> bool
    decreases s,
{
    &&& t.len() == s.len()
    &&& forall|i: int| 0 <= i < s.len() ==> same_expr_pair(#[trigger] s[i], t[i])
}

pub open spec fn same_pats(s: Seq<Pat>, t: Seq<Pat>) -> bool
    decreases s,
{
    &&& t.len() == s.len()
    &&& forall|i: int| 0 <= i < s.len() ==> same_pat(#[trigger] s[i], t[i])
}

pub open spec fn same_guards(s: Seq<Guard>, t: Seq<Guard>) -> bool
    decreases s,
{
    &&& t.len() == s.len()
    &&& forall|i: int| 0 <= i < s.len() ==> same_guard(#[trigger] s[i], t[i])
}

pub open spec fn same_tests(s: Seq<Test>, t: Seq<Test>) -> bool
    decreases s,
{
    &&& t.len() == s.len()
    &&& forall|i: int| 0 <= i < s.len() ==> same_test(#[trigger] s[i], t[i])
}

pub open spec fn same_pat_named_fields(s: Seq<PatRecordFieldNamed>, t: Seq<PatRecordFieldNamed>) -> bool
    decreases s,
{
    &&& t.len() == s.len()
    &&& forall|i: int| 0 <= i < s.len() ==> same_pat_named_field(#[trigger] s[i], t[i])
}

pub open spec fn same_pat_binary_elems(s: Seq<PatBinaryElem>, t: Seq<PatBinaryElem>) -> bool
    decreases s,
{
    &&& t.len() == s.len()
    &&& forall|i: int| 0 <= i < s.len() ==> same_pat_binary_elem(#[trigger] s[i], t[i])
}

pub open spec fn same_test_pat_pairs(s: Seq<(Test, Pat)>, t: Seq<(Test, Pat)>) -> bool
    decreases s,
{
    &&& t.len() == s.len()
    &&& forall|i: int| 0 <= i < s.len() ==> same_test_pat_pair(#[trigger] s[i], t[i])
}

pub open spec fn same_test_record_fields(s: Seq<TestRecordField>, t: Seq<TestRecordField>) -> bool
    decreases s,
{
    &&& t.len() == s.len()
    &&& forall|i: int| 0 <= i < s.len() ==> same_test_record_field(#[trigger] s[i], t[i])
}

pub open spec fn same_test_pairs(s: Seq<(Test, Test)>, t: Seq<(Test, Test)>) -> bool
    decreases s,
{
    &&& t.len() == s.len()
    &&& forall|i: int| 0 <= i < s.len() ==> same_test_pair(#[trigger] s[i], t[i])
}

pub open spec fn same_rec_fields(s: Seq<ExternalRecField>, t: Seq<ExternalRecField>) -> bool
    decreases s,
{
    &&& t.len() == s.len()
    &&& forall|i: int| 0 <= i < s.len() ==> same_rec_field(#[trigger] s[i], t[i])
}

/// Identity law for an expression: with a pass that leaves every node to
/// the walk, what the transformation returns is the same tree as its input.
pub proof fn identity_gives_same_expr<T, V: Transformer<T>>(v: V, n: Expr, m: Expr)
    requires
        walks_everywhere(v),
        rewrites_expr(v, n, m),
    ensures
        same_expr(n, m),
    decreases n, 1nat,
{
    identity_walk_gives_same_expr(v, n, m);
}

/// The same for the structural walk of an expression (`walk_expr`), which
/// does not ask the pass about the node itself.
pub proof fn identity_walk_gives_same_expr<T, V: Transformer<T>>(v: V, n: Expr, m: Expr)
    requires
        walks_everywhere(v),
        walk_rewrites_expr(v, n, m),
    ensures
        same_expr(n, m),
    decreases n, 0nat,
{
    match n {
        Expr::Var(_) => {},
        Expr::AtomLit(_) => {},
        Expr::IntLit(_) => {},
        Expr::FloatLit(_) => {},
        Expr::Block(x) => {
            if let Expr::Block(y) = m {
                identity_gives_same_body(v, x.body, y.body);
            }
        },
        Expr::Match(x) => {
            if let Expr::Match(y) = m {
                identity_gives_same_pat(v, x.pat, y.pat);
                identity_gives_same_expr(v, *x.expr, *y.expr);
            }
        },
        Expr::Tuple(x) => {
            if let Expr::Tuple(y) = m {
                identity_gives_same_exprs(v, x.elems@, y.elems@);
            }
        },
        Expr::StringLit(_) => {},
        Expr::NilLit(_) => {},
        Expr::Cons(x) => {
            identity_gives_same_cons(v, x, m);
        },
        Expr::Case(x) => {
            if let Expr::Case(y) = m {
                identity_gives_same_expr(v, *x.expr, *y.expr);
                identity_gives_same_clauses(v, x.clauses@, y.clauses@);
            }
        },
        Expr::If(x) => {
            if let Expr::If(y) = m {
                identity_gives_same_clauses(v, x.clauses@, y.clauses@);
            }
        },
        Expr::LocalCall(x) => {
            if let Expr::LocalCall(y) = m {
                identity_gives_same_exprs(v, x.args@, y.args@);
            }
        },
        Expr::DynCall(x) => {
            if let Expr::DynCall(y) = m {
                identity_gives_same_expr(v, *x.f, *y.f);
                identity_gives_same_exprs(v, x.args@, y.args@);
            }
        },
        Expr::RemoteCall(x) => {
            if let Expr::RemoteCall(y) = m {
                identity_gives_same_exprs(v, x.args@, y.args@);
            }
        },
        Expr::LocalFun(_) => {},
        Expr::RemoteFun(_) => {},
        Expr::DynRemoteFun(x) => {
            if let Expr::DynRemoteFun(y) = m {
                identity_gives_same_expr(v, *x.module, *y.module);
                identity_gives_same_expr(v, *x.name, *y.name);
            }
        },
        Expr::DynRemoteFunArity(x) => {
            if let Expr::DynRemoteFunArity(y) = m {
                identity_gives_same_expr(v, *x.module, *y.module);
                identity_gives_same_expr(v, *x.name, *y.name);
                identity_gives_same_expr(v, *x.arity, *y.arity);
            }
        },
        Expr::Lambda(x) => {
            if let Expr::Lambda(y) = m {
                identity_gives_same_clauses(v, x.clauses@, y.clauses@);
            }
        },
        Expr::UnOp(x) => {
            if let Expr::UnOp(y) = m {
                identity_gives_same_expr(v, *x.arg, *y.arg);
            }
        },
        Expr::BinOp(x) => {
            if let Expr::BinOp(y) = m {
                identity_gives_same_expr(v, *x.arg_1, *y.arg_1);
                identity_gives_same_expr(v, *x.arg_2, *y.arg_2);
            }
        },
        Expr::LComprehension(x) => {
            if let Expr::LComprehension(y) = m {
                identity_gives_same_expr(v, *x.template, *y.template);
                identity_gives_same_qualifiers(v, x.qualifiers@, y.qualifiers@);
            }
        },
        Expr::BComprehension(x) => {
            if let Expr::BComprehension(y) = m {
                identity_gives_same_expr(v, *x.template, *y.template);
                identity_gives_same_qualifiers(v, x.qualifiers@, y.qualifiers@);
            }
        },
        Expr::MComprehension(x) => {
            if let Expr::MComprehension(y) = m {
                identity_gives_same_expr(v, *x.k_template, *y.k_template);
                identity_gives_same_expr(v, *x.v_template, *y.v_template);
                identity_gives_same_qualifiers(v, x.qualifiers@, y.qualifiers@);
            }
        },
        Expr::Binary(x) => {
            if let Expr::Binary(y) = m {
                identity_gives_same_binary_elems(v, x.elems@, y.elems@);
            }
        },
        Expr::Catch(x) => {
            if let Expr::Catch(y) = m {
                identity_gives_same_expr(v, *x.expr, *y.expr);
            }
        },
        Expr::TryCatchExpr(x) => {
            if let Expr::TryCatchExpr(y) = m {
                identity_gives_same_body(v, x.try_body, y.try_body);
                identity_gives_same_clauses(v, x.catch_clauses@, y.catch_clauses@);
                if let Some(o) = x.after_body {
                    if let Some(p) = y.after_body {
                        identity_gives_same_body(v, o, p);
                    }
                }
            }
        },
        Expr::TryOfCatchExpr(x) => {
            if let Expr::TryOfCatchExpr(y) = m {
                identity_gives_same_body(v, x.try_body, y.try_body);
                identity_gives_same_clauses(v, x.try_clauses@, y.try_clauses@);
                identity_gives_same_clauses(v, x.catch_clauses@, y.catch_clauses@);
                if let Some(o) = x.after_body {
                    if let Some(p) = y.after_body {
                        identity_gives_same_body(v, o, p);
                    }
                }
            }
        },
        Expr::Receive(x) => {
            if let Expr::Receive(y) = m {
                identity_gives_same_clauses(v, x.clauses@, y.clauses@);
            }
        },
        Expr::ReceiveWithTimeout(x) => {
            if let Expr::ReceiveWithTimeout(y) = m {
                identity_gives_same_clauses(v, x.clauses@, y.clauses@);
                identity_gives_same_expr(v, *x.timeout, *y.timeout);
                identity_gives_same_body(v, x.timeout_body, y.timeout_body);
            }
        },
        Expr::RecordCreate(x) => {
            if let Expr::RecordCreate(y) = m {
                identity_gives_same_record_fields(v, x.fields@, y.fields@);
            }
        },
        Expr::RecordUpdate(x) => {
            if let Expr::RecordUpdate(y) = m {
                identity_gives_same_expr(v, *x.expr, *y.expr);
                identity_gives_same_named_fields(v, x.fields@, y.fields@);
            }
        },
        Expr::RecordSelect(x) => {
            if let Expr::RecordSelect(y) = m {
                identity_gives_same_expr(v, *x.expr, *y.expr);
            }
        },
        Expr::RecordIndex(_) => {},
        Expr::MapCreate(x) => {
            if let Expr::MapCreate(y) = m {
                identity_gives_same_expr_pairs(v, x.kvs@, y.kvs@);
            }
        },
        Expr::MapUpdate(x) => {
            if let Expr::MapUpdate(y) = m {
                identity_gives_same_expr(v, *x.map, *y.map);
                identity_gives_same_expr_pairs(v, x.kvs@, y.kvs@);
            }
        },
        Expr::Maybe(x) => {
            if let Expr::Maybe(y) = m {
                identity_gives_same_body(v, x.body, y.body);
            }
        },
        Expr::MaybeElse(x) => {
            if let Expr::MaybeElse(y) = m {
                identity_gives_same_body(v, x.body, y.body);
                identity_gives_same_clauses(v, x.else_clauses@, y.else_clauses@);
            }
        },
        Expr::MaybeMatch(x) => {
            if let Expr::MaybeMatch(y) = m {
                identity_gives_same_pat(v, x.pat, y.pat);
                identity_gives_same_expr(v, *x.arg, *y.arg);
            }
        },
    }
}

/// Identity law for a pattern: with a pass that leaves every node to
/// the walk, what the transformation returns is the same tree as its input.
pub proof fn identity_gives_same_pat<T, V: Transformer<T>>(v: V, n: Pat, m: Pat)
    requires
        walks_everywhere(v),
        rewrites_pat(v, n, m),
    ensures
        same_pat(n, m),
    decreases n, 1nat,
{
    identity_walk_gives_same_pat(v, n, m);
}

/// The same for the structural walk of a pattern (`walk_pat`), which
/// does not ask the pass about the node itself.
pub proof fn identity_walk_gives_same_pat<T, V: Transformer<T>>(v: V, n: Pat, m: Pat)
    requires
        walks_everywhere(v),
        walk_rewrites_pat(v, n, m),
    ensures
        same_pat(n, m),
    decreases n, 0nat,
{
    match n {
        Pat::PatWild(_) => {},
        Pat::PatMatch(x) => {
            if let Pat::PatMatch(y) = m {
                identity_gives_same_pat(v, *x.pat, *y.pat);
                identity_gives_same_pat(v, *x.arg, *y.arg);
            }
        },
        Pat::PatTuple(x) => {
            if let Pat::PatTuple(y) = m {
                identity_gives_same_pats(v, x.elems@, y.elems@);
            }
        },
        Pat::PatString(_) => {},
        Pat::PatNil(_) => {},
        Pat::PatCons(x) => {
            if let Pat::PatCons(y) = m {
                identity_gives_same_pat(v, *x.h, *y.h);
                identity_gives_same_pat(v, *x.t, *y.t);
            }
        },
        Pat::PatInt(_) => {},
        Pat::PatNumber(_) => {},
        Pat::PatAtom(_) => {},
        Pat::PatVar(_) => {},
        Pat::PatRecord(x) => {
            if let Pat::PatRecord(y) = m {
                identity_gives_same_pat_named_fields(v, x.fields@, y.fields@);
                if let Some(o) = x.gen_pat {
                    if let Some(p) = y.gen_pat {
                        identity_gives_same_pat(v, *o, *p);
                    }
                }
            }
        },
        Pat::PatRecordIndex(_) => {},
        Pat::PatUnOp(x) => {
            if let Pat::PatUnOp(y) = m {
                identity_gives_same_pat(v, *x.arg, *y.arg);
            }
        },
        Pat::PatBinOp(x) => {
            if let Pat::PatBinOp(y) = m {
                identity_gives_same_pat(v, *x.arg_1, *y.arg_1);
                identity_gives_same_pat(v, *x.arg_2, *y.arg_2);
            }
        },
        Pat::PatBinary(x) => {
            if let Pat::PatBinary(y) = m {
                identity_gives_same_pat_binary_elems(v, x.elems@, y.elems@);
            }
        },
        Pat::PatMap(x) => {
            if let Pat::PatMap(y) = m {
                identity_gives_same_test_pat_pairs(v, x.kvs@, y.kvs@);
            }
        },
    }
}

/// Identity law for a guard test: with a pass that leaves every node to
/// the walk, what the transformation returns is the same tree as its input.
pub proof fn identity_gives_same_test<T, V: Transformer<T>>(v: V, n: Test, m: Test)
    requires
        walks_everywhere(v),
        rewrites_test(v, n, m),
    ensures
        same_test(n, m),
    decreases n, 1nat,
{
    identity_walk_gives_same_test(v, n, m);
}

/// The same for the structural walk of a guard test (`walk_test`), which
/// does not ask the pass about the node itself.
pub proof fn identity_walk_gives_same_test<T, V: Transformer<T>>(v: V, n: Test, m: Test)
    requires
        walks_everywhere(v),
        walk_rewrites_test(v, n, m),
    ensures
        same_test(n, m),
    decreases n, 0nat,
{
    match n {
        Test::TestVar(_) => {},
        Test::TestAtom(_) => {},
        Test::TestNumber(_) => {},
        Test::TestTuple(x) => {
            if let Test::TestTuple(y) = m {
                identity_gives_same_tests(v, x.elems@, y.elems@);
            }
        },
        Test::TestString(_) => {},
        Test::TestNil(_) => {},
        Test::TestCons(x) => {
            if let Test::TestCons(y) = m {
                identity_gives_same_test(v, *x.h, *y.h);
                identity_gives_same_test(v, *x.t, *y.t);
            }
        },
        Test::TestCall(x) => {
            if let Test::TestCall(y) = m {
                identity_gives_same_tests(v, x.args@, y.args@);
            }
        },
        Test::TestRecordCreate(x) => {
            if let Test::TestRecordCreate(y) = m {
                identity_gives_same_test_record_fields(v, x.fields@, y.fields@);
            }
        },
        Test::TestRecordSelect(x) => {
            if let Test::TestRecordSelect(y) = m {
                identity_gives_same_test(v, *x.rec, *y.rec);
            }
        },
        Test::TestRecordIndex(_) => {},
        Test::TestMapCreate(x) => {
            if let Test::TestMapCreate(y) = m {
                identity_gives_same_test_pairs(v, x.kvs@, y.kvs@);
            }
        },
        Test::TestMapUpdate(x) => {
            if let Test::TestMapUpdate(y) = m {
                identity_gives_same_test(v, *x.map, *y.map);
                identity_gives_same_test_pairs(v, x.kvs@, y.kvs@);
            }
        },
        Test::TestUnOp(x) => {
            if let Test::TestUnOp(y) = m {
                identity_gives_same_test(v, *x.arg, *y.arg);
            }
        },
        Test::TestBinOp(x) => {
            if let Test::TestBinOp(y) = m {
                identity_gives_same_test(v, *x.arg_1, *y.arg_1);
                identity_gives_same_test(v, *x.arg_2, *y.arg_2);
            }
        },
        Test::TestBinaryLit(_) => {},
    }
}

/// Identity law for a form: with a pass that leaves every node to
/// the walk, what the transformation returns is the same tree as its input.
pub proof fn identity_gives_same_form<T, V: Transformer<T>>(v: V, n: ExternalForm, m: ExternalForm)
    requires
        walks_everywhere(v),
        rewrites_form(v, n, m),
    ensures
        same_form(n, m),
    decreases n, 1nat,
{
    identity_walk_gives_same_form(v, n, m);
}

/// The same for the structural walk of a form (`walk_form`), which
/// does not ask the pass about the node itself.
pub proof fn identity_walk_gives_same_form<T, V: Transformer<T>>(v: V, n: ExternalForm, m: ExternalForm)
    requires
        walks_everywhere(v),
        walk_rewrites_form(v, n, m),
    ensures
        same_form(n, m),
    decreases n, 0nat,
{
    match n {
        ExternalForm::Module(_) => {},
        ExternalForm::CompileExportAll(_) => {},
        ExternalForm::Export(_) => {},
        ExternalForm::Import(_) => {},
        ExternalForm::ExportType(_) => {},
        ExternalForm::FunDecl(x) => {
            if let ExternalForm::FunDecl(y) = m {
                identity_gives_same_clauses(v, x.clauses@, y.clauses@);
            }
        },
        ExternalForm::File(_) => {},
        ExternalForm::ElpMetadata(_) => {},
        ExternalForm::Behaviour(_) => {},
        ExternalForm::EqwalizerNowarnFunction(_) => {},
        ExternalForm::EqwalizerUnlimitedRefinement(_) => {},
        ExternalForm::TypingAttribute(_) => {},
        ExternalForm::ExternalTypeDecl(_) => {},
        ExternalForm::ExternalOpaqueDecl(_) => {},
        ExternalForm::ExternalFunSpec(_) => {},
        ExternalForm::ExternalCallback(_) => {},
        ExternalForm::ExternalOptionalCallbacks(_) => {},
        ExternalForm::ExternalRecDecl(x) => {
            if let ExternalForm::ExternalRecDecl(y) = m {
                identity_gives_same_rec_fields(v, x.fields@, y.fields@);
            }
        },
    }
}

proof fn identity_gives_same_clause<T, V: Transformer<T>>(v: V, n: Clause, m: Clause)
    requires
        walks_everywhere(v),
        rewrites_clause(v, n, m),
    ensures
        same_clause(n, m),
    decreases n, 1nat,
{
    identity_walk_gives_same_clause(v, n, m);
}

/// The same for the structural walk of a clause (`walk_clause`), which
/// does not ask the pass about the node itself.
pub proof fn identity_walk_gives_same_clause<T, V: Transformer<T>>(v: V, n: Clause, m: Clause)
    requires
        walks_everywhere(v),
        walk_rewrites_clause(v, n, m),
    ensures
        same_clause(n, m),
    decreases n, 0nat,
{
    identity_gives_same_pats(v, n.pats@, m.pats@);
    identity_gives_same_guards(v, n.guards@, m.guards@);
    identity_gives_same_body(v, n.body, m.body);
}

proof fn identity_gives_same_body<T, V: Transformer<T>>(v: V, n: Body, m: Body)
    requires
        walks_everywhere(v),
        rewrites_body(v, n, m),
    ensures
        same_body(n, m),
    decreases n, 1nat,
{
    identity_walk_gives_same_body(v, n, m);
}

/// The same for the structural walk of a body (`walk_body`), which
/// does not ask the pass about the node itself.
pub proof fn identity_walk_gives_same_body<T, V: Transformer<T>>(v: V, n: Body, m: Body)
    requires
        walks_everywhere(v),
        walk_rewrites_body(v, n, m),
    ensures
        same_body(n, m),
    decreases n, 0nat,
{
    identity_gives_same_exprs(v, n.exprs@, m.exprs@);
}

proof fn identity_gives_same_guard<T, V: Transformer<T>>(v: V, n: Guard, m: Guard)
    requires
        walks_everywhere(v),
        rewrites_guard(v, n, m),
    ensures
        same_guard(n, m),
    decreases n, 1nat,
{
    identity_walk_gives_same_guard(v, n, m);
}

/// The same for the structural walk of a guard (`walk_guard`), which
/// does not ask the pass about the node itself.
pub proof fn identity_walk_gives_same_guard<T, V: Transformer<T>>(v: V, n: Guard, m: Guard)
    requires
        walks_everywhere(v),
        walk_rewrites_guard(v, n, m),
    ensures
        same_guard(n, m),
    decreases n, 0nat,
{
    identity_gives_same_tests(v, n.tests@, m.tests@);
}

proof fn identity_gives_same_qualifier<T, V: Transformer<T>>(v: V, n: Qualifier, m: Qualifier)
    requires
        walks_everywhere(v),
        rewrites_qualifier(v, n, m),
    ensures
        same_qualifier(n, m),
    decreases n, 1nat,
{
    identity_walk_gives_same_qualifier(v, n, m);
}

/// The same for the structural walk of a comprehension qualifier (`walk_qualifier`), which
/// does not ask the pass about the node itself.
pub proof fn identity_walk_gives_same_qualifier<T, V: Transformer<T>>(v: V, n: Qualifier, m: Qualifier)
    requires
        walks_everywhere(v),
        walk_rewrites_qualifier(v, n, m),
    ensures
        same_qualifier(n, m),
    decreases n, 0nat,
{
    match n {
        Qualifier::LGenerate(x) => {
            if let Qualifier::LGenerate(y) = m {
                identity_gives_same_pat(v, x.pat, y.pat);
                identity_gives_same_expr(v, x.expr, y.expr);
            }
        },
        Qualifier::BGenerate(x) => {
            if let Qualifier::BGenerate(y) = m {
                identity_gives_same_pat(v, x.pat, y.pat);
                identity_gives_same_expr(v, x.expr, y.expr);
            }
        },
        Qualifier::MGenerate(x) => {
            if let Qualifier::MGenerate(y) = m {
                identity_gives_same_pat(v, x.k_pat, y.k_pat);
                identity_gives_same_pat(v, x.v_pat, y.v_pat);
                identity_gives_same_expr(v, x.expr, y.expr);
            }
        },
        Qualifier::Filter(x) => {
            if let Qualifier::Filter(y) = m {
                identity_gives_same_expr(v, x.expr, y.expr);
            }
        },
    }
}

proof fn identity_gives_same_binary_elem<T, V: Transformer<T>>(v: V, n: BinaryElem, m: BinaryElem)
    requires
        walks_everywhere(v),
        rewrites_binary_elem(v, n, m),
    ensures
        same_binary_elem(n, m),
    decreases n, 1nat,
{
    identity_walk_gives_same_binary_elem(v, n, m);
}

/// The same for the structural walk of a binary segment (`walk_binary_elem`), which
/// does not ask the pass about the node itself.
pub proof fn identity_walk_gives_same_binary_elem<T, V: Transformer<T>>(v: V, n: BinaryElem, m: BinaryElem)
    requires
        walks_everywhere(v),
        walk_rewrites_binary_elem(v, n, m),
    ensures
        same_binary_elem(n, m),
    decreases n, 0nat,
{
    identity_gives_same_expr(v, n.expr, m.expr);
    if let Some(o) = n.size {
        if let Some(p) = m.size {
            identity_gives_same_expr(v, o, p);
        }
    }
}

proof fn identity_gives_same_pat_binary_elem<T, V: Transformer<T>>(v: V, n: PatBinaryElem, m: PatBinaryElem)
    requires
        walks_everywhere(v),
        rewrites_pat_binary_elem(v, n, m),
    ensures
        same_pat_binary_elem(n, m),
    decreases n, 1nat,
{
    identity_walk_gives_same_pat_binary_elem(v, n, m);
}

/// The same for the structural walk of a binary pattern segment (`walk_pat_binary_elem`), which
/// does not ask the pass about the node itself.
pub proof fn identity_walk_gives_same_pat_binary_elem<T, V: Transformer<T>>(v: V, n: PatBinaryElem, m: PatBinaryElem)
    requires
        walks_everywhere(v),
        walk_rewrites_pat_binary_elem(v, n, m),
    ensures
        same_pat_binary_elem(n, m),
    decreases n, 0nat,
{
    identity_gives_same_pat(v, n.pat, m.pat);
    if let Some(o) = n.size {
        if let Some(p) = m.size {
            identity_gives_same_expr(v, o, p);
        }
    }
}

proof fn identity_gives_same_record_field<T, V: Transformer<T>>(v: V, n: RecordField, m: RecordField)
    requires
        walks_everywhere(v),
        rewrites_record_field(v, n, m),
    ensures
        same_record_field(n, m),
    decreases n, 1nat,
{
    identity_walk_gives_same_record_field(v, n, m);
}

/// The same for the structural walk of a record construction field (`walk_record_field`), which
/// does not ask the pass about the node itself.
pub proof fn identity_walk_gives_same_record_field<T, V: Transformer<T>>(v: V, n: RecordField, m: RecordField)
    requires
        walks_everywhere(v),
        walk_rewrites_record_field(v, n, m),
    ensures
        same_record_field(n, m),
    decreases n, 0nat,
{
    match n {
        RecordField::RecordFieldGen(x) => {
            if let RecordField::RecordFieldGen(y) = m {
                identity_gives_same_expr(v, x.value, y.value);
            }
        },
        RecordField::RecordFieldNamed(x) => {
            if let RecordField::RecordFieldNamed(y) = m {
                identity_gives_same_expr(v, x.value, y.value);
            }
        },
    }
}

proof fn identity_gives_same_test_record_field<T, V: Transformer<T>>(v: V, n: TestRecordField, m: TestRecordField)
    requires
        walks_everywhere(v),
        rewrites_test_record_field(v, n, m),
    ensures
        same_test_record_field(n, m),
    decreases n, 1nat,
{
    identity_walk_gives_same_test_record_field(v, n, m);
}

/// The same for the structural walk of a record field in a guard (`walk_test_record_field`), which
/// does not ask the pass about the node itself.
pub proof fn identity_walk_gives_same_test_record_field<T, V: Transformer<T>>(v: V, n: TestRecordField, m: TestRecordField)
    requires
        walks_everywhere(v),
        walk_rewrites_test_record_field(v, n, m),
    ensures
        same_test_record_field(n, m),
    decreases n, 0nat,
{
    match n {
        TestRecordField::TestRecordFieldNamed(x) => {
            if let TestRecordField::TestRecordFieldNamed(y) = m {
                identity_gives_same_test(v, x.value, y.value);
            }
        },
        TestRecordField::TestRecordFieldGen(x) => {
            if let TestRecordField::TestRecordFieldGen(y) = m {
                identity_gives_same_test(v, x.value, y.value);
            }
        },
    }
}

proof fn identity_gives_same_named_field<T, V: Transformer<T>>(v: V, n: RecordFieldNamed, m: RecordFieldNamed)
    requires
        walks_everywhere(v),
        rewrites_named_field(v, n, m),
    ensures
        same_named_field(n, m),
    decreases n, 0nat,
{
    identity_gives_same_expr(v, n.value, m.value);
}

proof fn identity_gives_same_pat_named_field<T, V: Transformer<T>>(v: V, n: PatRecordFieldNamed, m: PatRecordFieldNamed)
    requires
        walks_everywhere(v),
        rewrites_pat_named_field(v, n, m),
    ensures
        same_pat_named_field(n, m),
    decreases n, 0nat,
{
    identity_gives_same_pat(v, n.pat, m.pat);
}

proof fn identity_gives_same_rec_field<T, V: Transformer<T>>(v: V, n: ExternalRecField, m: ExternalRecField)
    requires
        walks_everywhere(v),
        rewrites_rec_field(v, n, m),
    ensures
        same_rec_field(n, m),
    decreases n, 0nat,
{
    if let Some(o) = n.default_value {
        if let Some(p) = m.default_value {
            identity_gives_same_expr(v, o, p);
        }
    }
}

proof fn identity_gives_same_expr_pair<T, V: Transformer<T>>(v: V, n: (Expr, Expr), m: (Expr, Expr))
    requires
        walks_everywhere(v),
        rewrites_expr_pair(v, n, m),
    ensures
        same_expr_pair(n, m),
    decreases n, 0nat,
{
    identity_gives_same_expr(v, n.0, m.0);
    identity_gives_same_expr(v, n.1, m.1);
}

proof fn identity_gives_same_test_pat_pair<T, V: Transformer<T>>(v: V, n: (Test, Pat), m: (Test, Pat))
    requires
        walks_everywhere(v),
        rewrites_test_pat_pair(v, n, m),
    ensures
        same_test_pat_pair(n, m),
    decreases n, 0nat,
{
    identity_gives_same_test(v, n.0, m.0);
    identity_gives_same_pat(v, n.1, m.1);
}

proof fn identity_gives_same_test_pair<T, V: Transformer<T>>(v: V, n: (Test, Test), m: (Test, Test))
    requires
        walks_everywhere(v),
        rewrites_test_pair(v, n, m),
    ensures
        same_test_pair(n, m),
    decreases n, 0nat,
{
    identity_gives_same_test(v, n.0, m.0);
    identity_gives_same_test(v, n.1, m.1);
}

/// Identity law for a whole module: with a pass that leaves every node to
/// the walk, the module comes back with the same forms, in order.
pub proof fn identity_gives_same_forms<T, V: Transformer<T>>(v: V, s: Seq<ExternalForm>, t: Seq<ExternalForm>)
    requires
        walks_everywhere(v),
        rewrites_forms(v, s, t),
    ensures
        same_forms(s, t),
    decreases s, 0nat,
{
    assert forall|i: int| 0 <= i < s.len() implies same_form(#[trigger] s[i], t[i]) by {
        identity_gives_same_form(v, s[i], t[i]);
    }
}

proof fn identity_gives_same_exprs<T, V: Transformer<T>>(v: V, s: Seq<Expr>, t: Seq<Expr>)
    requires
        walks_everywhere(v),
        rewrites_exprs(v, s, t),
    ensures
        same_exprs(s, t),
    decreases s, 0nat,
{
    assert forall|i: int| 0 <= i < s.len() implies same_expr(#[trigger] s[i], t[i]) by {
        identity_gives_same_expr(v, s[i], t[i]);
    }
}

proof fn identity_gives_same_clauses<T, V: Transformer<T>>(v: V, s: Seq<Clause>, t: Seq<Clause>)
    requires
        walks_everywhere(v),
        rewrites_clauses(v, s, t),
    ensures
        same_clauses(s, t),
    decreases s, 0nat,
{
    assert forall|i: int| 0 <= i < s.len() implies same_clause(#[trigger] s[i], t[i]) by {
        identity_gives_same_clause(v, s[i], t[i]);
    }
}

proof fn identity_gives_same_qualifiers<T, V: Transformer<T>>(v: V, s: Seq<Qualifier>, t: Seq<Qualifier>)
    requires
        walks_everywhere(v),
        rewrites_qualifiers(v, s, t),
    ensures
        same_qualifiers(s, t),
    decreases s, 0nat,
{
    assert forall|i: int| 0 <= i < s.len() implies same_qualifier(#[trigger] s[i], t[i]) by {
        identity_gives_same_qualifier(v, s[i], t[i]);
    }
}

proof fn identity_gives_same_binary_elems<T, V: Transformer<T>>(v: V, s: Seq<BinaryElem>, t: Seq<BinaryElem>)
    requires
        walks_everywhere(v),
        rewrites_binary_elems(v, s, t),
    ensures
        same_binary_elems(s, t),
    decreases s, 0nat,
{
    assert forall|i: int| 0 <= i < s.len() implies same_binary_elem(#[trigger] s[i], t[i]) by {
        identity_gives_same_binary_elem(v, s[i], t[i]);
    }
}

proof fn identity_gives_same_record_fields<T, V: Transformer<T>>(v: V, s: Seq<RecordField>, t: Seq<RecordField>)
    requires
        walks_everywhere(v),
        rewrites_record_fields(v, s, t),
    ensures
        same_record_fields(s, t),
    decreases s, 0nat,
{
    assert forall|i: int| 0 <= i < s.len() implies same_record_field(#[trigger] s[i], t[i]) by {
        identity_gives_same_record_field(v, s[i], t[i]);
    }
}

proof fn identity_gives_same_named_fields<T, V: Transformer<T>>(v: V, s: Seq<RecordFieldNamed>, t: Seq<RecordFieldNamed>)
    requires
        walks_everywhere(v),
        rewrites_named_fields(v, s, t),
    ensures
        same_named_fields(s, t),
    decreases s, 0nat,
{
    assert forall|i: int| 0 <= i < s.len() implies same_named_field(#[trigger] s[i], t[i]) by {
        identity_gives_same_named_field(v, s[i], t[i]);
    }
}

proof fn identity_gives_same_expr_pairs<T, V: Transformer<T>>(v: V, s: Seq<(Expr, Expr)>, t: Seq<(Expr, Expr)>)
    requires
        walks_everywhere(v),
        rewrites_expr_pairs(v, s, t),
    ensures
        same_expr_pairs(s, t),
    decreases s, 0nat,
{
    assert forall|i: int| 0 <= i < s.len() implies same_expr_pair(#[trigger] s[i], t[i]) by {
        identity_gives_same_expr_pair(v, s[i], t[i]);
    }
}

proof fn identity_gives_same_pats<T, V: Transformer<T>>(v: V, s: Seq<Pat>, t: Seq<Pat>)
    requires
        walks_everywhere(v),
        rewrites_pats(v, s, t),
    ensures
        same_pats(s, t),
    decreases s, 0nat,
{
    assert forall|i: int| 0 <= i < s.len() implies same_pat(#[trigger] s[i], t[i]) by {
        identity_gives_same_pat(v, s[i], t[i]);
    }
}

proof fn identity_gives_same_guards<T, V: Transformer<T>>(v: V, s: Seq<Guard>, t: Seq<Guard>)
    requires
        walks_everywhere(v),
        rewrites_guards(v, s, t),
    ensures
        same_guards(s, t),
    decreases s, 0nat,
{
    assert forall|i: int| 0 <= i < s.len() implies same_guard(#[trigger] s[i], t[i]) by {
        identity_gives_same_guard(v, s[i], t[i]);
    }
}

proof fn identity_gives_same_tests<T, V: Transformer<T>>(v: V, s: Seq<Test>, t: Seq<Test>)
    requires
        walks_everywhere(v),
        rewrites_tests(v, s, t),
    ensures
        same_tests(s, t),
    decreases s, 0nat,
{
    assert forall|i: int| 0 <= i < s.len() implies same_test(#[trigger] s[i], t[i]) by {
        identity_gives_same_test(v, s[i], t[i]);
    }
}

proof fn identity_gives_same_pat_named_fields<T, V: Transformer<T>>(v: V, s: Seq<PatRecordFieldNamed>, t: Seq<PatRecordFieldNamed>)
    requires
        walks_everywhere(v),
        rewrites_pat_named_fields(v, s, t),
    ensures
        same_pat_named_fields(s, t),
    decreases s, 0nat,
{
    assert forall|i: int| 0 <= i < s.len() implies same_pat_named_field(#[trigger] s[i], t[i]) by {
        identity_gives_same_pat_named_field(v, s[i], t[i]);
    }
}

proof fn identity_gives_same_pat_binary_elems<T, V: Transformer<T>>(v: V, s: Seq<PatBinaryElem>, t: Seq<PatBinaryElem>)
    requires
        walks_everywhere(v),
        rewrites_pat_binary_elems(v, s, t),
    ensures
        same_pat_binary_elems(s, t),
    decreases s, 0nat,
{
    assert forall|i: int| 0 <= i < s.len() implies same_pat_binary_elem(#[trigger] s[i], t[i]) by {
        identity_gives_same_pat_binary_elem(v, s[i], t[i]);
    }
}

proof fn identity_gives_same_test_pat_pairs<T, V: Transformer<T>>(v: V, s: Seq<(Test, Pat)>, t: Seq<(Test, Pat)>)
    requires
        walks_everywhere(v),
        rewrites_test_pat_pairs(v, s, t),
    ensures
        same_test_pat_pairs(s, t),
    decreases s, 0nat,
{
    assert forall|i: int| 0 <= i < s.len() implies same_test_pat_pair(#[trigger] s[i], t[i]) by {
        identity_gives_same_test_pat_pair(v, s[i], t[i]);
    }
}

proof fn identity_gives_same_test_record_fields<T, V: Transformer<T>>(v: V, s: Seq<TestRecordField>, t: Seq<TestRecordField>)
    requires
        walks_everywhere(v),
        rewrites_test_record_fields(v, s, t),
    ensures
        same_test_record_fields(s, t),
    decreases s, 0nat,
{
    assert forall|i: int| 0 <= i < s.len() implies same_test_record_field(#[trigger] s[i], t[i]) by {
        identity_gives_same_test_record_field(v, s[i], t[i]);
    }
}

proof fn identity_gives_same_test_pairs<T, V: Transformer<T>>(v: V, s: Seq<(Test, Test)>, t: Seq<(Test, Test)>)
    requires
        walks_everywhere(v),
        rewrites_test_pairs(v, s, t),
    ensures
        same_test_pairs(s, t),
    decreases s, 0nat,
{
    assert forall|i: int| 0 <= i < s.len() implies same_test_pair(#[trigger] s[i], t[i]) by {
        identity_gives_same_test_pair(v, s[i], t[i]);
    }
}

proof fn identity_gives_same_rec_fields<T, V: Transformer<T>>(v: V, s: Seq<ExternalRecField>, t: Seq<ExternalRecField>)
    requires
        walks_everywhere(v),
        rewrites_rec_fields(v, s, t),
    ensures
        same_rec_fields(s, t),
    decreases s, 0nat,
{
    assert forall|i: int| 0 <= i < s.len() implies same_rec_field(#[trigger] s[i], t[i]) by {
        identity_gives_same_rec_field(v, s[i], t[i]);
    }
}

proof fn identity_gives_same_cons<T, V: Transformer<T>>(v: V, c: Cons, m: Expr)
    requires
        walks_everywhere(v),
        rewrites_cons(v, c, m),
    ensures
        same_expr(Expr::Cons(c), m),
    decreases c, 0nat,
{
    if let Expr::Cons(d) = m {
        identity_gives_same_expr(v, *c.h, *d.h);
        match *c.t {
            Expr::Cons(rest) => identity_gives_same_cons(v, rest, *d.t),
            tail => identity_gives_same_expr(v, tail, *d.t),
        }
    }
}

} // verus!
