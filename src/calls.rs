//! The remote calls of a module, in the order in which a left-to-right walk
//! of the tree meets them.
use vstd::prelude::*;

use crate::ast::{
    AST,
    AtomLit,
    BComprehension,
    BGenerate,
    Behaviour,
    BinOp,
    Binary,
    BinaryElem,
    Block,
    Body,
    Case,
    Catch,
    Clause,
    CompileExportAll,
    Cons,
    DynCall,
    DynRemoteFun,
    DynRemoteFunArity,
    ElpMetadata,
    EqwalizerNowarnFunction,
    EqwalizerUnlimitedRefinement,
    Export,
    ExportType,
    Expr,
    ExternalCallback,
    ExternalForm,
    ExternalFunSpec,
    ExternalOpaqueDecl,
    ExternalOptionalCallbacks,
    ExternalRecDecl,
    ExternalRecField,
    ExternalTypeDecl,
    File,
    Filter,
    FloatLit,
    FunDecl,
    Guard,
    If,
    Import,
    IntLit,
    LComprehension,
    LGenerate,
    Lambda,
    LocalCall,
    LocalFun,
    Location,
    MComprehension,
    MGenerate,
    MapCreate,
    MapUpdate,
    Match,
    Maybe,
    MaybeElse,
    MaybeMatch,
    Module,
    NilLit,
    Pat,
    PatAtom,
    PatBinOp,
    PatBinary,
    PatBinaryElem,
    PatCons,
    PatInt,
    PatMap,
    PatMatch,
    PatNil,
    PatNumber,
    PatRecord,
    PatRecordFieldNamed,
    PatRecordIndex,
    PatString,
    PatTuple,
    PatUnOp,
    PatVar,
    PatWild,
    Qualifier,
    Receive,
    ReceiveWithTimeout,
    RecordCreate,
    RecordField,
    RecordFieldGen,
    RecordFieldNamed,
    RecordIndex,
    RecordSelect,
    RecordUpdate,
    RemoteCall,
    RemoteFun,
    RemoteId,
    StringLit,
    Test,
    TestAtom,
    TestBinOp,
    TestBinaryLit,
    TestCall,
    TestCons,
    TestMapCreate,
    TestMapUpdate,
    TestNil,
    TestNumber,
    TestRecordCreate,
    TestRecordField,
    TestRecordFieldGen,
    TestRecordFieldNamed,
    TestRecordIndex,
    TestRecordSelect,
    TestString,
    TestTuple,
    TestUnOp,
    TestVar,
    TryCatchExpr,
    TryOfCatchExpr,
    Tuple,
    TypingAttribute,
    UnOp,
    Var,
};

verus! {

/// A remote call `m:f(...)` and where it stands.
#[derive(Debug, PartialEq, Eq)]
pub struct CallSite {
    pub location: Location,
    pub id: RemoteId,
}

/// The remote calls of a whole module, in traversal order.
pub fn remote_calls(ast: &AST) -> (r: Vec<CallSite>)
    ensures
        r@ == calls_forms(Seq::empty(), ast@),
{
    let mut out: Vec<CallSite> = Vec::new();
    collect_forms(ast, &mut out);
    out
}

fn copy_remote_id(id: &RemoteId) -> (r: RemoteId)
    ensures
        r == *id,
{
    RemoteId { module: id.module.clone(), name: id.name.clone(), arity: id.arity }
}

pub open spec fn calls_expr(acc: Seq<CallSite>, n: Expr) -> Seq<CallSite>
    decreases n,
{
    match n {
        Expr::Var(_) => acc,
        Expr::AtomLit(_) => acc,
        Expr::IntLit(_) => acc,
        Expr::FloatLit(_) => acc,
        Expr::Block(x) => calls_body(acc, x.body),
        Expr::Match(x) => calls_expr(calls_pat(acc, x.pat), *x.expr),
        Expr::Tuple(x) => calls_exprs(acc, x.elems@),
        Expr::StringLit(_) => acc,
        Expr::NilLit(_) => acc,
        Expr::Cons(x) => calls_expr(calls_expr(acc, *x.h), *x.t),
        Expr::Case(x) => calls_clauses(calls_expr(acc, *x.expr), x.clauses@),
        Expr::If(x) => calls_clauses(acc, x.clauses@),
        Expr::LocalCall(x) => calls_exprs(acc, x.args@),
        Expr::DynCall(x) => calls_exprs(calls_expr(acc, *x.f), x.args@),
        Expr::RemoteCall(x) => calls_exprs(acc.push(CallSite { location: x.location, id: x.id }), x.args@),
        Expr::LocalFun(_) => acc,
        Expr::RemoteFun(_) => acc,
        Expr::DynRemoteFun(x) => calls_expr(calls_expr(acc, *x.module), *x.name),
        Expr::DynRemoteFunArity(x) => calls_expr(calls_expr(calls_expr(acc, *x.module), *x.name), *x.arity),
        Expr::Lambda(x) => calls_clauses(acc, x.clauses@),
        Expr::UnOp(x) => calls_expr(acc, *x.arg),
        Expr::BinOp(x) => calls_expr(calls_expr(acc, *x.arg_1), *x.arg_2),
        Expr::LComprehension(x) => calls_qualifiers(calls_expr(acc, *x.template), x.qualifiers@),
        Expr::BComprehension(x) => calls_qualifiers(calls_expr(acc, *x.template), x.qualifiers@),
        Expr::MComprehension(x) => calls_qualifiers(calls_expr(calls_expr(acc, *x.k_template), *x.v_template), x.qualifiers@),
        Expr::Binary(x) => calls_binary_elems(acc, x.elems@),
        Expr::Catch(x) => calls_expr(acc, *x.expr),
        Expr::TryCatchExpr(x) => match x.after_body { Some(o) => calls_body(calls_clauses(calls_body(acc, x.try_body), x.catch_clauses@), o), None => calls_clauses(calls_body(acc, x.try_body), x.catch_clauses@) },
        Expr::TryOfCatchExpr(x) => match x.after_body { Some(o) => calls_body(calls_clauses(calls_clauses(calls_body(acc, x.try_body), x.try_clauses@), x.catch_clauses@), o), None => calls_clauses(calls_clauses(calls_body(acc, x.try_body), x.try_clauses@), x.catch_clauses@) },
        Expr::Receive(x) => calls_clauses(acc, x.clauses@),
        Expr::ReceiveWithTimeout(x) => calls_body(calls_expr(calls_clauses(acc, x.clauses@), *x.timeout), x.timeout_body),
        Expr::RecordCreate(x) => calls_record_fields(acc, x.fields@),
        Expr::RecordUpdate(x) => calls_named_fields(calls_expr(acc, *x.expr), x.fields@),
        Expr::RecordSelect(x) => calls_expr(acc, *x.expr),
        Expr::RecordIndex(_) => acc,
        Expr::MapCreate(x) => calls_expr_pairs(acc, x.kvs@),
        Expr::MapUpdate(x) => calls_expr_pairs(calls_expr(acc, *x.map), x.kvs@),
        Expr::Maybe(x) => calls_body(acc, x.body),
        Expr::MaybeElse(x) => calls_clauses(calls_body(acc, x.body), x.else_clauses@),
        Expr::MaybeMatch(x) => calls_expr(calls_pat(acc, x.pat), *x.arg),
    }
}

pub open spec fn calls_pat(acc: Seq<CallSite>, n: Pat) -> Seq<CallSite>
    decreases n,
{
    match n {
        Pat::PatWild(_) => acc,
        Pat::PatMatch(x) => calls_pat(calls_pat(acc, *x.pat), *x.arg),
        Pat::PatTuple(x) => calls_pats(acc, x.elems@),
        Pat::PatString(_) => acc,
        Pat::PatNil(_) => acc,
        Pat::PatCons(x) => calls_pat(calls_pat(acc, *x.h), *x.t),
        Pat::PatInt(_) => acc,
        Pat::PatNumber(_) => acc,
        Pat::PatAtom(_) => acc,
        Pat::PatVar(_) => acc,
        Pat::PatRecord(x) => match x.gen_pat { Some(o) => calls_pat(calls_pat_named_fields(acc, x.fields@), *o), None => calls_pat_named_fields(acc, x.fields@) },
        Pat::PatRecordIndex(_) => acc,
        Pat::PatUnOp(x) => calls_pat(acc, *x.arg),
        Pat::PatBinOp(x) => calls_pat(calls_pat(acc, *x.arg_1), *x.arg_2),
        Pat::PatBinary(x) => calls_pat_binary_elems(acc, x.elems@),
        Pat::PatMap(x) => calls_test_pat_pairs(acc, x.kvs@),
    }
}

pub open spec fn calls_test(acc: Seq<CallSite>, n: Test) -> Seq<CallSite>
    decreases n,
{
    match n {
        Test::TestVar(_) => acc,
        Test::TestAtom(_) => acc,
        Test::TestNumber(_) => acc,
        Test::TestTuple(x) => calls_tests(acc, x.elems@),
        Test::TestString(_) => acc,
        Test::TestNil(_) => acc,
        Test::TestCons(x) => calls_test(calls_test(acc, *x.h), *x.t),
        Test::TestCall(x) => calls_tests(acc, x.args@),
        Test::TestRecordCreate(x) => calls_test_record_fields(acc, x.fields@),
        Test::TestRecordSelect(x) => calls_test(acc, *x.rec),
        Test::TestRecordIndex(_) => acc,
        Test::TestMapCreate(x) => calls_test_pairs(acc, x.kvs@),
        Test::TestMapUpdate(x) => calls_test_pairs(calls_test(acc, *x.map), x.kvs@),
        Test::TestUnOp(x) => calls_test(acc, *x.arg),
        Test::TestBinOp(x) => calls_test(calls_test(acc, *x.arg_1), *x.arg_2),
        Test::TestBinaryLit(_) => acc,
    }
}

pub open spec fn calls_form(acc: Seq<CallSite>, n: ExternalForm) -> Seq<CallSite>
    decreases n,
{
    match n {
        ExternalForm::Module(_) => acc,
        ExternalForm::CompileExportAll(_) => acc,
        ExternalForm::Export(_) => acc,
        ExternalForm::Import(_) => acc,
        ExternalForm::ExportType(_) => acc,
        ExternalForm::FunDecl(x) => calls_clauses(acc, x.clauses@),
        ExternalForm::File(_) => acc,
        ExternalForm::ElpMetadata(_) => acc,
        ExternalForm::Behaviour(_) => acc,
        ExternalForm::EqwalizerNowarnFunction(_) => acc,
        ExternalForm::EqwalizerUnlimitedRefinement(_) => acc,
        ExternalForm::TypingAttribute(_) => acc,
        ExternalForm::ExternalTypeDecl(_) => acc,
        ExternalForm::ExternalOpaqueDecl(_) => acc,
        ExternalForm::ExternalFunSpec(_) => acc,
        ExternalForm::ExternalCallback(_) => acc,
        ExternalForm::ExternalOptionalCallbacks(_) => acc,
        ExternalForm::ExternalRecDecl(x) => calls_rec_fields(acc, x.fields@),
    }
}

pub open spec fn calls_clause(acc: Seq<CallSite>, n: Clause) -> Seq<CallSite>
    decreases n,
{
    calls_body(calls_guards(calls_pats(acc, n.pats@), n.guards@), n.body)
}

pub open spec fn calls_body(acc: Seq<CallSite>, n: Body) -> Seq<CallSite>
    decreases n,
{
    calls_exprs(acc, n.exprs@)
}

pub open spec fn calls_guard(acc: Seq<CallSite>, n: Guard) -> Seq<CallSite>
    decreases n,
{
    calls_tests(acc, n.tests@)
}

pub open spec fn calls_qualifier(acc: Seq<CallSite>, n: Qualifier) -> Seq<CallSite>
    decreases n,
{
    match n {
        Qualifier::LGenerate(x) => calls_expr(calls_pat(acc, x.pat), x.expr),
        Qualifier::BGenerate(x) => calls_expr(calls_pat(acc, x.pat), x.expr),
        Qualifier::MGenerate(x) => calls_expr(calls_pat(calls_pat(acc, x.k_pat), x.v_pat), x.expr),
        Qualifier::Filter(x) => calls_expr(acc, x.expr),
    }
}

pub open spec fn calls_binary_elem(acc: Seq<CallSite>, n: BinaryElem) -> Seq<CallSite>
    decreases n,
{
    match n.size { Some(o) => calls_expr(calls_expr(acc, n.expr), o), None => calls_expr(acc, n.expr) }
}

pub open spec fn calls_pat_binary_elem(acc: Seq<CallSite>, n: PatBinaryElem) -> Seq<CallSite>
    decreases n,
{
    match n.size { Some(o) => calls_expr(calls_pat(acc, n.pat), o), None => calls_pat(acc, n.pat) }
}

pub open spec fn calls_record_field(acc: Seq<CallSite>, n: RecordField) -> Seq<CallSite>
    decreases n,
{
    match n {
        RecordField::RecordFieldGen(x) => calls_expr(acc, x.value),
        RecordField::RecordFieldNamed(x) => calls_expr(acc, x.value),
    }
}

pub open spec fn calls_test_record_field(acc: Seq<CallSite>, n: TestRecordField) -> Seq<CallSite>
    decreases n,
{
    match n {
        TestRecordField::TestRecordFieldNamed(x) => calls_test(acc, x.value),
        TestRecordField::TestRecordFieldGen(x) => calls_test(acc, x.value),
    }
}

pub open spec fn calls_named_field(acc: Seq<CallSite>, n: RecordFieldNamed) -> Seq<CallSite>
    decreases n,
{
    calls_expr(acc, n.value)
}

pub open spec fn calls_pat_named_field(acc: Seq<CallSite>, n: PatRecordFieldNamed) -> Seq<CallSite>
    decreases n,
{
    calls_pat(acc, n.pat)
}

pub open spec fn calls_rec_field(acc: Seq<CallSite>, n: ExternalRecField) -> Seq<CallSite>
    decreases n,
{
    match n.default_value { Some(o) => calls_expr(acc, o), None => acc }
}

pub open spec fn calls_expr_pair(acc: Seq<CallSite>, n: (Expr, Expr)) -> Seq<CallSite>
    decreases n,
{
    calls_expr(calls_expr(acc, n.0), n.1)
}

pub open spec fn calls_test_pat_pair(acc: Seq<CallSite>, n: (Test, Pat)) -> Seq<CallSite>
    decreases n,
{
    calls_pat(calls_test(acc, n.0), n.1)
}

pub open spec fn calls_test_pair(acc: Seq<CallSite>, n: (Test, Test)) -> Seq<CallSite>
    decreases n,
{
    calls_test(calls_test(acc, n.0), n.1)
}

pub open spec fn calls_forms(acc: Seq<CallSite>, s: Seq<ExternalForm>) -> Seq<CallSite>
    decreases s,
{
    if s.len() == 0 {
        acc
    } else {
        calls_form(calls_forms(acc, s.drop_last()), s.last())
    }
}

pub open spec fn calls_exprs(acc: Seq<CallSite>, s: Seq<Expr>) -> Seq<CallSite>
    decreases s,
{
    if s.len() == 0 {
        acc
    } else {
        calls_expr(calls_exprs(acc, s.drop_last()), s.last())
    }
}

pub open spec fn calls_clauses(acc: Seq<CallSite>, s: Seq<Clause>) -> Seq<CallSite>
    decreases s,
{
    if s.len() == 0 {
        acc
    } else {
        calls_clause(calls_clauses(acc, s.drop_last()), s.last())
    }
}

pub open spec fn calls_qualifiers(acc: Seq<CallSite>, s: Seq<Qualifier>) -> Seq<CallSite>
    decreases s,
{
    if s.len() == 0 {
        acc
    } else {
        calls_qualifier(calls_qualifiers(acc, s.drop_last()), s.last())
    }
}

pub open spec fn calls_binary_elems(acc: Seq<CallSite>, s: Seq<BinaryElem>) -> Seq<CallSite>
    decreases s,
{
    if s.len() == 0 {
        acc
    } else {
        calls_binary_elem(calls_binary_elems(acc, s.drop_last()), s.last())
    }
}

pub open spec fn calls_record_fields(acc: Seq<CallSite>, s: Seq<RecordField>) -> Seq<CallSite>
    decreases s,
{
    if s.len() == 0 {
        acc
    } else {
        calls_record_field(calls_record_fields(acc, s.drop_last()), s.last())
    }
}

pub open spec fn calls_named_fields(acc: Seq<CallSite>, s: Seq<RecordFieldNamed>) -> Seq<CallSite>
    decreases s,
{
    if s.len() == 0 {
        acc
    } else {
        calls_named_field(calls_named_fields(acc, s.drop_last()), s.last())
    }
}

pub open spec fn calls_expr_pairs(acc: Seq<CallSite>, s: Seq<(Expr, Expr)>) -> Seq<CallSite>
    decreases s,
{
    if s.len() == 0 {
        acc
    } else {
        calls_expr_pair(calls_expr_pairs(acc, s.drop_last()), s.last())
    }
}

pub open spec fn calls_pats(acc: Seq<CallSite>, s: Seq<Pat>) -> Seq<CallSite>
    decreases s,
{
    if s.len() == 0 {
        acc
    } else {
        calls_pat(calls_pats(acc, s.drop_last()), s.last())
    }
}

pub open spec fn calls_guards(acc: Seq<CallSite>, s: Seq<Guard>) -> Seq<CallSite>
    decreases s,
{
    if s.len() == 0 {
        acc
    } else {
        calls_guard(calls_guards(acc, s.drop_last()), s.last())
    }
}

pub open spec fn calls_tests(acc: Seq<CallSite>, s: Seq<Test>) -> Seq<CallSite>
    decreases s,
{
    if s.len() == 0 {
        acc
    } else {
        calls_test(calls_tests(acc, s.drop_last()), s.last())
    }
}

pub open spec fn calls_pat_named_fields(acc: Seq<CallSite>, s: Seq<PatRecordFieldNamed>) -> Seq<CallSite>
    decreases s,
{
    if s.len() == 0 {
        acc
    } else {
        calls_pat_named_field(calls_pat_named_fields(acc, s.drop_last()), s.last())
    }
}

pub open spec fn calls_pat_binary_elems(acc: Seq<CallSite>, s: Seq<PatBinaryElem>) -> Seq<CallSite>
    decreases s,
{
    if s.len() == 0 {
        acc
    } else {
        calls_pat_binary_elem(calls_pat_binary_elems(acc, s.drop_last()), s.last())
    }
}

pub open spec fn calls_test_pat_pairs(acc: Seq<CallSite>, s: Seq<(Test, Pat)>) -> Seq<CallSite>
    decreases s,
{
    if s.len() == 0 {
        acc
    } else {
        calls_test_pat_pair(calls_test_pat_pairs(acc, s.drop_last()), s.last())
    }
}

pub open spec fn calls_test_record_fields(acc: Seq<CallSite>, s: Seq<TestRecordField>) -> Seq<CallSite>
    decreases s,
{
    if s.len() == 0 {
        acc
    } else {
        calls_test_record_field(calls_test_record_fields(acc, s.drop_last()), s.last())
    }
}

pub open spec fn calls_test_pairs(acc: Seq<CallSite>, s: Seq<(Test, Test)>) -> Seq<CallSite>
    decreases s,
{
    if s.len() == 0 {
        acc
    } else {
        calls_test_pair(calls_test_pairs(acc, s.drop_last()), s.last())
    }
}

pub open spec fn calls_rec_fields(acc: Seq<CallSite>, s: Seq<ExternalRecField>) -> Seq<CallSite>
    decreases s,
{
    if s.len() == 0 {
        acc
    } else {
        calls_rec_field(calls_rec_fields(acc, s.drop_last()), s.last())
    }
}

fn collect_expr(node: &Expr, out: &mut Vec<CallSite>)
    ensures
        final(out)@ == calls_expr(old(out)@, *node),
    decreases node,
{
    match node {
        Expr::Var(_) => {},
        Expr::AtomLit(_) => {},
        Expr::IntLit(_) => {},
        Expr::FloatLit(_) => {},
        Expr::Block(x) => {
            collect_body(&x.body, out);
        },
        Expr::Match(x) => {
            collect_pat(&x.pat, out);
            collect_expr(&*x.expr, out);
        },
        Expr::Tuple(x) => {
            collect_exprs(&x.elems, out);
        },
        Expr::StringLit(_) => {},
        Expr::NilLit(_) => {},
        Expr::Cons(x) => {
            collect_expr(&*x.h, out);
            collect_expr(&*x.t, out);
        },
        Expr::Case(x) => {
            collect_expr(&*x.expr, out);
            collect_clauses(&x.clauses, out);
        },
        Expr::If(x) => {
            collect_clauses(&x.clauses, out);
        },
        Expr::LocalCall(x) => {
            collect_exprs(&x.args, out);
        },
        Expr::DynCall(x) => {
            collect_expr(&*x.f, out);
            collect_exprs(&x.args, out);
        },
        Expr::RemoteCall(x) => {
            out.push(CallSite { location: x.location, id: copy_remote_id(&x.id) });
            collect_exprs(&x.args, out);
        },
        Expr::LocalFun(_) => {},
        Expr::RemoteFun(_) => {},
        Expr::DynRemoteFun(x) => {
            collect_expr(&*x.module, out);
            collect_expr(&*x.name, out);
        },
        Expr::DynRemoteFunArity(x) => {
            collect_expr(&*x.module, out);
            collect_expr(&*x.name, out);
            collect_expr(&*x.arity, out);
        },
        Expr::Lambda(x) => {
            collect_clauses(&x.clauses, out);
        },
        Expr::UnOp(x) => {
            collect_expr(&*x.arg, out);
        },
        Expr::BinOp(x) => {
            collect_expr(&*x.arg_1, out);
            collect_expr(&*x.arg_2, out);
        },
        Expr::LComprehension(x) => {
            collect_expr(&*x.template, out);
            collect_qualifiers(&x.qualifiers, out);
        },
        Expr::BComprehension(x) => {
            collect_expr(&*x.template, out);
            collect_qualifiers(&x.qualifiers, out);
        },
        Expr::MComprehension(x) => {
            collect_expr(&*x.k_template, out);
            collect_expr(&*x.v_template, out);
            collect_qualifiers(&x.qualifiers, out);
        },
        Expr::Binary(x) => {
            collect_binary_elems(&x.elems, out);
        },
        Expr::Catch(x) => {
            collect_expr(&*x.expr, out);
        },
        Expr::TryCatchExpr(x) => {
            collect_body(&x.try_body, out);
            collect_clauses(&x.catch_clauses, out);
            if let Some(o) = &x.after_body {
                collect_body(o, out);
            }
        },
        Expr::TryOfCatchExpr(x) => {
            collect_body(&x.try_body, out);
            collect_clauses(&x.try_clauses, out);
            collect_clauses(&x.catch_clauses, out);
            if let Some(o) = &x.after_body {
                collect_body(o, out);
            }
        },
        Expr::Receive(x) => {
            collect_clauses(&x.clauses, out);
        },
        Expr::ReceiveWithTimeout(x) => {
            collect_clauses(&x.clauses, out);
            collect_expr(&*x.timeout, out);
            collect_body(&x.timeout_body, out);
        },
        Expr::RecordCreate(x) => {
            collect_record_fields(&x.fields, out);
        },
        Expr::RecordUpdate(x) => {
            collect_expr(&*x.expr, out);
            collect_named_fields(&x.fields, out);
        },
        Expr::RecordSelect(x) => {
            collect_expr(&*x.expr, out);
        },
        Expr::RecordIndex(_) => {},
        Expr::MapCreate(x) => {
            collect_expr_pairs(&x.kvs, out);
        },
        Expr::MapUpdate(x) => {
            collect_expr(&*x.map, out);
            collect_expr_pairs(&x.kvs, out);
        },
        Expr::Maybe(x) => {
            collect_body(&x.body, out);
        },
        Expr::MaybeElse(x) => {
            collect_body(&x.body, out);
            collect_clauses(&x.else_clauses, out);
        },
        Expr::MaybeMatch(x) => {
            collect_pat(&x.pat, out);
            collect_expr(&*x.arg, out);
        },
    }
}

fn collect_pat(node: &Pat, out: &mut Vec<CallSite>)
    ensures
        final(out)@ == calls_pat(old(out)@, *node),
    decreases node,
{
    match node {
        Pat::PatWild(_) => {},
        Pat::PatMatch(x) => {
            collect_pat(&*x.pat, out);
            collect_pat(&*x.arg, out);
        },
        Pat::PatTuple(x) => {
            collect_pats(&x.elems, out);
        },
        Pat::PatString(_) => {},
        Pat::PatNil(_) => {},
        Pat::PatCons(x) => {
            collect_pat(&*x.h, out);
            collect_pat(&*x.t, out);
        },
        Pat::PatInt(_) => {},
        Pat::PatNumber(_) => {},
        Pat::PatAtom(_) => {},
        Pat::PatVar(_) => {},
        Pat::PatRecord(x) => {
            collect_pat_named_fields(&x.fields, out);
            if let Some(o) = &x.gen_pat {
                collect_pat(&**o, out);
            }
        },
        Pat::PatRecordIndex(_) => {},
        Pat::PatUnOp(x) => {
            collect_pat(&*x.arg, out);
        },
        Pat::PatBinOp(x) => {
            collect_pat(&*x.arg_1, out);
            collect_pat(&*x.arg_2, out);
        },
        Pat::PatBinary(x) => {
            collect_pat_binary_elems(&x.elems, out);
        },
        Pat::PatMap(x) => {
            collect_test_pat_pairs(&x.kvs, out);
        },
    }
}

fn collect_test(node: &Test, out: &mut Vec<CallSite>)
    ensures
        final(out)@ == calls_test(old(out)@, *node),
    decreases node,
{
    match node {
        Test::TestVar(_) => {},
        Test::TestAtom(_) => {},
        Test::TestNumber(_) => {},
        Test::TestTuple(x) => {
            collect_tests(&x.elems, out);
        },
        Test::TestString(_) => {},
        Test::TestNil(_) => {},
        Test::TestCons(x) => {
            collect_test(&*x.h, out);
            collect_test(&*x.t, out);
        },
        Test::TestCall(x) => {
            collect_tests(&x.args, out);
        },
        Test::TestRecordCreate(x) => {
            collect_test_record_fields(&x.fields, out);
        },
        Test::TestRecordSelect(x) => {
            collect_test(&*x.rec, out);
        },
        Test::TestRecordIndex(_) => {},
        Test::TestMapCreate(x) => {
            collect_test_pairs(&x.kvs, out);
        },
        Test::TestMapUpdate(x) => {
            collect_test(&*x.map, out);
            collect_test_pairs(&x.kvs, out);
        },
        Test::TestUnOp(x) => {
            collect_test(&*x.arg, out);
        },
        Test::TestBinOp(x) => {
            collect_test(&*x.arg_1, out);
            collect_test(&*x.arg_2, out);
        },
        Test::TestBinaryLit(_) => {},
    }
}

fn collect_form(node: &ExternalForm, out: &mut Vec<CallSite>)
    ensures
        final(out)@ == calls_form(old(out)@, *node),
    decreases node,
{
    match node {
        ExternalForm::Module(_) => {},
        ExternalForm::CompileExportAll(_) => {},
        ExternalForm::Export(_) => {},
        ExternalForm::Import(_) => {},
        ExternalForm::ExportType(_) => {},
        ExternalForm::FunDecl(x) => {
            collect_clauses(&x.clauses, out);
        },
        ExternalForm::File(_) => {},
        ExternalForm::ElpMetadata(_) => {},
        ExternalForm::Behaviour(_) => {},
        ExternalForm::EqwalizerNowarnFunction(_) => {},
        ExternalForm::EqwalizerUnlimitedRefinement(_) => {},
        ExternalForm::TypingAttribute(_) => {},
        ExternalForm::ExternalTypeDecl(_) => {},
        ExternalForm::ExternalOpaqueDecl(_) => {},
        ExternalForm::ExternalFunSpec(_) => {},
        ExternalForm::ExternalCallback(_) => {},
        ExternalForm::ExternalOptionalCallbacks(_) => {},
        ExternalForm::ExternalRecDecl(x) => {
            collect_rec_fields(&x.fields, out);
        },
    }
}

fn collect_clause(node: &Clause, out: &mut Vec<CallSite>)
    ensures
        final(out)@ == calls_clause(old(out)@, *node),
    decreases node,
{
    collect_pats(&node.pats, out);
    collect_guards(&node.guards, out);
    collect_body(&node.body, out);
}

fn collect_body(node: &Body, out: &mut Vec<CallSite>)
    ensures
        final(out)@ == calls_body(old(out)@, *node),
    decreases node,
{
    collect_exprs(&node.exprs, out);
}

fn collect_guard(node: &Guard, out: &mut Vec<CallSite>)
    ensures
        final(out)@ == calls_guard(old(out)@, *node),
    decreases node,
{
    collect_tests(&node.tests, out);
}

fn collect_qualifier(node: &Qualifier, out: &mut Vec<CallSite>)
    ensures
        final(out)@ == calls_qualifier(old(out)@, *node),
    decreases node,
{
    match node {
        Qualifier::LGenerate(x) => {
            collect_pat(&x.pat, out);
            collect_expr(&x.expr, out);
        },
        Qualifier::BGenerate(x) => {
            collect_pat(&x.pat, out);
            collect_expr(&x.expr, out);
        },
        Qualifier::MGenerate(x) => {
            collect_pat(&x.k_pat, out);
            collect_pat(&x.v_pat, out);
            collect_expr(&x.expr, out);
        },
        Qualifier::Filter(x) => {
            collect_expr(&x.expr, out);
        },
    }
}

fn collect_binary_elem(node: &BinaryElem, out: &mut Vec<CallSite>)
    ensures
        final(out)@ == calls_binary_elem(old(out)@, *node),
    decreases node,
{
    collect_expr(&node.expr, out);
    if let Some(o) = &node.size {
        collect_expr(o, out);
    }
}

fn collect_pat_binary_elem(node: &PatBinaryElem, out: &mut Vec<CallSite>)
    ensures
        final(out)@ == calls_pat_binary_elem(old(out)@, *node),
    decreases node,
{
    collect_pat(&node.pat, out);
    if let Some(o) = &node.size {
        collect_expr(o, out);
    }
}

fn collect_record_field(node: &RecordField, out: &mut Vec<CallSite>)
    ensures
        final(out)@ == calls_record_field(old(out)@, *node),
    decreases node,
{
    match node {
        RecordField::RecordFieldGen(x) => {
            collect_expr(&x.value, out);
        },
        RecordField::RecordFieldNamed(x) => {
            collect_expr(&x.value, out);
        },
    }
}

fn collect_test_record_field(node: &TestRecordField, out: &mut Vec<CallSite>)
    ensures
        final(out)@ == calls_test_record_field(old(out)@, *node),
    decreases node,
{
    match node {
        TestRecordField::TestRecordFieldNamed(x) => {
            collect_test(&x.value, out);
        },
        TestRecordField::TestRecordFieldGen(x) => {
            collect_test(&x.value, out);
        },
    }
}

fn collect_named_field(node: &RecordFieldNamed, out: &mut Vec<CallSite>)
    ensures
        final(out)@ == calls_named_field(old(out)@, *node),
    decreases node,
{
    collect_expr(&node.value, out);
}

fn collect_pat_named_field(node: &PatRecordFieldNamed, out: &mut Vec<CallSite>)
    ensures
        final(out)@ == calls_pat_named_field(old(out)@, *node),
    decreases node,
{
    collect_pat(&node.pat, out);
}

fn collect_rec_field(node: &ExternalRecField, out: &mut Vec<CallSite>)
    ensures
        final(out)@ == calls_rec_field(old(out)@, *node),
    decreases node,
{
    if let Some(o) = &node.default_value {
        collect_expr(o, out);
    }
}

fn collect_expr_pair(node: &(Expr, Expr), out: &mut Vec<CallSite>)
    ensures
        final(out)@ == calls_expr_pair(old(out)@, *node),
    decreases node,
{
    collect_expr(&node.0, out);
    collect_expr(&node.1, out);
}

fn collect_test_pat_pair(node: &(Test, Pat), out: &mut Vec<CallSite>)
    ensures
        final(out)@ == calls_test_pat_pair(old(out)@, *node),
    decreases node,
{
    collect_test(&node.0, out);
    collect_pat(&node.1, out);
}

fn collect_test_pair(node: &(Test, Test), out: &mut Vec<CallSite>)
    ensures
        final(out)@ == calls_test_pair(old(out)@, *node),
    decreases node,
{
    collect_test(&node.0, out);
    collect_test(&node.1, out);
}

fn collect_forms(nodes: &Vec<ExternalForm>, out: &mut Vec<CallSite>)
    ensures
        final(out)@ == calls_forms(old(out)@, nodes@),
    decreases nodes,
{
    let ghost start = out@;
    let mut i: usize = 0;
    while i < nodes.len()
        invariant
            i <= nodes@.len(),
            out@ == calls_forms(start, nodes@.take(i as int)),
            start == old(out)@,
        decreases nodes@.len() - i,
    {
        proof {
            assert(nodes@.take(i + 1).drop_last() =~= nodes@.take(i as int));
            assert(decreases_to!(nodes => nodes[i as int]));
        }
        collect_form(&nodes[i], out);
        i = i + 1;
    }
    proof {
        assert(nodes@.take(nodes@.len() as int) =~= nodes@);
    }
}

fn collect_exprs(nodes: &Vec<Expr>, out: &mut Vec<CallSite>)
    ensures
        final(out)@ == calls_exprs(old(out)@, nodes@),
    decreases nodes,
{
    let ghost start = out@;
    let mut i: usize = 0;
    while i < nodes.len()
        invariant
            i <= nodes@.len(),
            out@ == calls_exprs(start, nodes@.take(i as int)),
            start == old(out)@,
        decreases nodes@.len() - i,
    {
        proof {
            assert(nodes@.take(i + 1).drop_last() =~= nodes@.take(i as int));
            assert(decreases_to!(nodes => nodes[i as int]));
        }
        collect_expr(&nodes[i], out);
        i = i + 1;
    }
    proof {
        assert(nodes@.take(nodes@.len() as int) =~= nodes@);
    }
}

fn collect_clauses(nodes: &Vec<Clause>, out: &mut Vec<CallSite>)
    ensures
        final(out)@ == calls_clauses(old(out)@, nodes@),
    decreases nodes,
{
    let ghost start = out@;
    let mut i: usize = 0;
    while i < nodes.len()
        invariant
            i <= nodes@.len(),
            out@ == calls_clauses(start, nodes@.take(i as int)),
            start == old(out)@,
        decreases nodes@.len() - i,
    {
        proof {
            assert(nodes@.take(i + 1).drop_last() =~= nodes@.take(i as int));
            assert(decreases_to!(nodes => nodes[i as int]));
        }
        collect_clause(&nodes[i], out);
        i = i + 1;
    }
    proof {
        assert(nodes@.take(nodes@.len() as int) =~= nodes@);
    }
}

fn collect_qualifiers(nodes: &Vec<Qualifier>, out: &mut Vec<CallSite>)
    ensures
        final(out)@ == calls_qualifiers(old(out)@, nodes@),
    decreases nodes,
{
    let ghost start = out@;
    let mut i: usize = 0;
    while i < nodes.len()
        invariant
            i <= nodes@.len(),
            out@ == calls_qualifiers(start, nodes@.take(i as int)),
            start == old(out)@,
        decreases nodes@.len() - i,
    {
        proof {
            assert(nodes@.take(i + 1).drop_last() =~= nodes@.take(i as int));
            assert(decreases_to!(nodes => nodes[i as int]));
        }
        collect_qualifier(&nodes[i], out);
        i = i + 1;
    }
    proof {
        assert(nodes@.take(nodes@.len() as int) =~= nodes@);
    }
}

fn collect_binary_elems(nodes: &Vec<BinaryElem>, out: &mut Vec<CallSite>)
    ensures
        final(out)@ == calls_binary_elems(old(out)@, nodes@),
    decreases nodes,
{
    let ghost start = out@;
    let mut i: usize = 0;
    while i < nodes.len()
        invariant
            i <= nodes@.len(),
            out@ == calls_binary_elems(start, nodes@.take(i as int)),
            start == old(out)@,
        decreases nodes@.len() - i,
    {
        proof {
            assert(nodes@.take(i + 1).drop_last() =~= nodes@.take(i as int));
            assert(decreases_to!(nodes => nodes[i as int]));
        }
        collect_binary_elem(&nodes[i], out);
        i = i + 1;
    }
    proof {
        assert(nodes@.take(nodes@.len() as int) =~= nodes@);
    }
}

fn collect_record_fields(nodes: &Vec<RecordField>, out: &mut Vec<CallSite>)
    ensures
        final(out)@ == calls_record_fields(old(out)@, nodes@),
    decreases nodes,
{
    let ghost start = out@;
    let mut i: usize = 0;
    while i < nodes.len()
        invariant
            i <= nodes@.len(),
            out@ == calls_record_fields(start, nodes@.take(i as int)),
            start == old(out)@,
        decreases nodes@.len() - i,
    {
        proof {
            assert(nodes@.take(i + 1).drop_last() =~= nodes@.take(i as int));
            assert(decreases_to!(nodes => nodes[i as int]));
        }
        collect_record_field(&nodes[i], out);
        i = i + 1;
    }
    proof {
        assert(nodes@.take(nodes@.len() as int) =~= nodes@);
    }
}

fn collect_named_fields(nodes: &Vec<RecordFieldNamed>, out: &mut Vec<CallSite>)
    ensures
        final(out)@ == calls_named_fields(old(out)@, nodes@),
    decreases nodes,
{
    let ghost start = out@;
    let mut i: usize = 0;
    while i < nodes.len()
        invariant
            i <= nodes@.len(),
            out@ == calls_named_fields(start, nodes@.take(i as int)),
            start == old(out)@,
        decreases nodes@.len() - i,
    {
        proof {
            assert(nodes@.take(i + 1).drop_last() =~= nodes@.take(i as int));
            assert(decreases_to!(nodes => nodes[i as int]));
        }
        collect_named_field(&nodes[i], out);
        i = i + 1;
    }
    proof {
        assert(nodes@.take(nodes@.len() as int) =~= nodes@);
    }
}

fn collect_expr_pairs(nodes: &Vec<(Expr, Expr)>, out: &mut Vec<CallSite>)
    ensures
        final(out)@ == calls_expr_pairs(old(out)@, nodes@),
    decreases nodes,
{
    let ghost start = out@;
    let mut i: usize = 0;
    while i < nodes.len()
        invariant
            i <= nodes@.len(),
            out@ == calls_expr_pairs(start, nodes@.take(i as int)),
            start == old(out)@,
        decreases nodes@.len() - i,
    {
        proof {
            assert(nodes@.take(i + 1).drop_last() =~= nodes@.take(i as int));
            assert(decreases_to!(nodes => nodes[i as int]));
        }
        collect_expr_pair(&nodes[i], out);
        i = i + 1;
    }
    proof {
        assert(nodes@.take(nodes@.len() as int) =~= nodes@);
    }
}

fn collect_pats(nodes: &Vec<Pat>, out: &mut Vec<CallSite>)
    ensures
        final(out)@ == calls_pats(old(out)@, nodes@),
    decreases nodes,
{
    let ghost start = out@;
    let mut i: usize = 0;
    while i < nodes.len()
        invariant
            i <= nodes@.len(),
            out@ == calls_pats(start, nodes@.take(i as int)),
            start == old(out)@,
        decreases nodes@.len() - i,
    {
        proof {
            assert(nodes@.take(i + 1).drop_last() =~= nodes@.take(i as int));
            assert(decreases_to!(nodes => nodes[i as int]));
        }
        collect_pat(&nodes[i], out);
        i = i + 1;
    }
    proof {
        assert(nodes@.take(nodes@.len() as int) =~= nodes@);
    }
}

fn collect_guards(nodes: &Vec<Guard>, out: &mut Vec<CallSite>)
    ensures
        final(out)@ == calls_guards(old(out)@, nodes@),
    decreases nodes,
{
    let ghost start = out@;
    let mut i: usize = 0;
    while i < nodes.len()
        invariant
            i <= nodes@.len(),
            out@ == calls_guards(start, nodes@.take(i as int)),
            start == old(out)@,
        decreases nodes@.len() - i,
    {
        proof {
            assert(nodes@.take(i + 1).drop_last() =~= nodes@.take(i as int));
            assert(decreases_to!(nodes => nodes[i as int]));
        }
        collect_guard(&nodes[i], out);
        i = i + 1;
    }
    proof {
        assert(nodes@.take(nodes@.len() as int) =~= nodes@);
    }
}

fn collect_tests(nodes: &Vec<Test>, out: &mut Vec<CallSite>)
    ensures
        final(out)@ == calls_tests(old(out)@, nodes@),
    decreases nodes,
{
    let ghost start = out@;
    let mut i: usize = 0;
    while i < nodes.len()
        invariant
            i <= nodes@.len(),
            out@ == calls_tests(start, nodes@.take(i as int)),
            start == old(out)@,
        decreases nodes@.len() - i,
    {
        proof {
            assert(nodes@.take(i + 1).drop_last() =~= nodes@.take(i as int));
            assert(decreases_to!(nodes => nodes[i as int]));
        }
        collect_test(&nodes[i], out);
        i = i + 1;
    }
    proof {
        assert(nodes@.take(nodes@.len() as int) =~= nodes@);
    }
}

fn collect_pat_named_fields(nodes: &Vec<PatRecordFieldNamed>, out: &mut Vec<CallSite>)
    ensures
        final(out)@ == calls_pat_named_fields(old(out)@, nodes@),
    decreases nodes,
{
    let ghost start = out@;
    let mut i: usize = 0;
    while i < nodes.len()
        invariant
            i <= nodes@.len(),
            out@ == calls_pat_named_fields(start, nodes@.take(i as int)),
            start == old(out)@,
        decreases nodes@.len() - i,
    {
        proof {
            assert(nodes@.take(i + 1).drop_last() =~= nodes@.take(i as int));
            assert(decreases_to!(nodes => nodes[i as int]));
        }
        collect_pat_named_field(&nodes[i], out);
        i = i + 1;
    }
    proof {
        assert(nodes@.take(nodes@.len() as int) =~= nodes@);
    }
}

fn collect_pat_binary_elems(nodes: &Vec<PatBinaryElem>, out: &mut Vec<CallSite>)
    ensures
        final(out)@ == calls_pat_binary_elems(old(out)@, nodes@),
    decreases nodes,
{
    let ghost start = out@;
    let mut i: usize = 0;
    while i < nodes.len()
        invariant
            i <= nodes@.len(),
            out@ == calls_pat_binary_elems(start, nodes@.take(i as int)),
            start == old(out)@,
        decreases nodes@.len() - i,
    {
        proof {
            assert(nodes@.take(i + 1).drop_last() =~= nodes@.take(i as int));
            assert(decreases_to!(nodes => nodes[i as int]));
        }
        collect_pat_binary_elem(&nodes[i], out);
        i = i + 1;
    }
    proof {
        assert(nodes@.take(nodes@.len() as int) =~= nodes@);
    }
}

fn collect_test_pat_pairs(nodes: &Vec<(Test, Pat)>, out: &mut Vec<CallSite>)
    ensures
        final(out)@ == calls_test_pat_pairs(old(out)@, nodes@),
    decreases nodes,
{
    let ghost start = out@;
    let mut i: usize = 0;
    while i < nodes.len()
        invariant
            i <= nodes@.len(),
            out@ == calls_test_pat_pairs(start, nodes@.take(i as int)),
            start == old(out)@,
        decreases nodes@.len() - i,
    {
        proof {
            assert(nodes@.take(i + 1).drop_last() =~= nodes@.take(i as int));
            assert(decreases_to!(nodes => nodes[i as int]));
        }
        collect_test_pat_pair(&nodes[i], out);
        i = i + 1;
    }
    proof {
        assert(nodes@.take(nodes@.len() as int) =~= nodes@);
    }
}

fn collect_test_record_fields(nodes: &Vec<TestRecordField>, out: &mut Vec<CallSite>)
    ensures
        final(out)@ == calls_test_record_fields(old(out)@, nodes@),
    decreases nodes,
{
    let ghost start = out@;
    let mut i: usize = 0;
    while i < nodes.len()
        invariant
            i <= nodes@.len(),
            out@ == calls_test_record_fields(start, nodes@.take(i as int)),
            start == old(out)@,
        decreases nodes@.len() - i,
    {
        proof {
            assert(nodes@.take(i + 1).drop_last() =~= nodes@.take(i as int));
            assert(decreases_to!(nodes => nodes[i as int]));
        }
        collect_test_record_field(&nodes[i], out);
        i = i + 1;
    }
    proof {
        assert(nodes@.take(nodes@.len() as int) =~= nodes@);
    }
}

fn collect_test_pairs(nodes: &Vec<(Test, Test)>, out: &mut Vec<CallSite>)
    ensures
        final(out)@ == calls_test_pairs(old(out)@, nodes@),
    decreases nodes,
{
    let ghost start = out@;
    let mut i: usize = 0;
    while i < nodes.len()
        invariant
            i <= nodes@.len(),
            out@ == calls_test_pairs(start, nodes@.take(i as int)),
            start == old(out)@,
        decreases nodes@.len() - i,
    {
        proof {
            assert(nodes@.take(i + 1).drop_last() =~= nodes@.take(i as int));
            assert(decreases_to!(nodes => nodes[i as int]));
        }
        collect_test_pair(&nodes[i], out);
        i = i + 1;
    }
    proof {
        assert(nodes@.take(nodes@.len() as int) =~= nodes@);
    }
}

fn collect_rec_fields(nodes: &Vec<ExternalRecField>, out: &mut Vec<CallSite>)
    ensures
        final(out)@ == calls_rec_fields(old(out)@, nodes@),
    decreases nodes,
{
    let ghost start = out@;
    let mut i: usize = 0;
    while i < nodes.len()
        invariant
            i <= nodes@.len(),
            out@ == calls_rec_fields(start, nodes@.take(i as int)),
            start == old(out)@,
        decreases nodes@.len() - i,
    {
        proof {
            assert(nodes@.take(i + 1).drop_last() =~= nodes@.take(i as int));
            assert(decreases_to!(nodes => nodes[i as int]));
        }
        collect_rec_field(&nodes[i], out);
        i = i + 1;
    }
    proof {
        assert(nodes@.take(nodes@.len() as int) =~= nodes@);
    }
}

} // verus!
