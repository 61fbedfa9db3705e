//! What a transformation computes, stated over the pass's decisions.
//!
//! For each category `c` there are two spec functions. `fails_c(v, n)` is the
//! error that transforming `n` with the pass `v` stops on: the first failure met
//! in the walk's left-to-right order, or `None`. `rewrites_c(v, n, m)` holds when
//! `m` is what the transformation returns when nothing fails: the node that the
//! pass put in place of `n`, or `n` rebuilt with the same variant, the same plain
//! fields and each child replaced by its own transformation. The `walk_` forms
//! say the same of the structural walk alone, before the pass is asked about `n`.
use vstd::prelude::*;

use crate::ast::{
    BinaryElem,
    Body,
    Clause,
    Cons,
    Expr,
    ExternalForm,
    ExternalRecField,
    Guard,
    Pat,
    PatBinaryElem,
    PatRecordFieldNamed,
    Qualifier,
    RecordField,
    RecordFieldNamed,
    Test,
    TestRecordField,
};
use crate::transformer::{Rewrite, Transformer};

verus! {

/// The first of two failures.
pub open spec fn either<T>(a: Option<T>, b: Option<T>) -> Option<T> {
    if a is Some {
        a
    } else {
        b
    }
}

/// The first of three failures.
pub open spec fn either3<T>(a: Option<T>, b: Option<T>, c: Option<T>) -> Option<T> {
    either(a, either(b, c))
}

/// The first of four failures.
pub open spec fn either4<T>(a: Option<T>, b: Option<T>, c: Option<T>, d: Option<T>) -> Option<T> {
    either(a, either3(b, c, d))
}

pub open spec fn fails_opt_expr<T, V: Transformer<T>>(v: V, o: Option<Expr>) -> Option<T>
    decreases o, 0nat,
{
    match o {
        Some(n) => fails_expr(v, n),
        None => None,
    }
}

/// An absent child stays absent; a present one is transformed.
pub open spec fn rewrites_opt_expr<T, V: Transformer<T>>(v: V, o: Option<Expr>, m: Option<Expr>) -> bool
    decreases o, 0nat,
{
    match o {
        Some(n) => m matches Some(k) && rewrites_expr(v, n, k),
        None => m is None,
    }
}

pub open spec fn fails_opt_body<T, V: Transformer<T>>(v: V, o: Option<Body>) -> Option<T>
    decreases o, 0nat,
{
    match o {
        Some(n) => fails_body(v, n),
        None => None,
    }
}

/// An absent child stays absent; a present one is transformed.
pub open spec fn rewrites_opt_body<T, V: Transformer<T>>(v: V, o: Option<Body>, m: Option<Body>) -> bool
    decreases o, 0nat,
{
    match o {
        Some(n) => m matches Some(k) && rewrites_body(v, n, k),
        None => m is None,
    }
}

pub open spec fn fails_opt_boxed_pat<T, V: Transformer<T>>(v: V, o: Option<Box<Pat>>) -> Option<T>
    decreases o, 0nat,
{
    match o {
        Some(n) => fails_pat(v, *n),
        None => None,
    }
}

/// An absent child stays absent; a present one is transformed.
pub open spec fn rewrites_opt_boxed_pat<T, V: Transformer<T>>(v: V, o: Option<Box<Pat>>, m: Option<Box<Pat>>) -> bool
    decreases o, 0nat,
{
    match o {
        Some(n) => m matches Some(k) && rewrites_pat(v, *n, *k),
        None => m is None,
    }
}

pub open spec fn fails_expr<T, V: Transformer<T>>(v: V, n: Expr) -> Option<T>
    decreases n, 1nat,
{
    match v.expr_step(n) {
        Err(t) => Some(t),
        Ok(Rewrite::Replace(_)) => None,
        Ok(Rewrite::Walk(_)) => walk_fails_expr(v, n),
    }
}

pub open spec fn rewrites_expr<T, V: Transformer<T>>(v: V, n: Expr, m: Expr) -> bool
    decreases n, 1nat,
{
    match v.expr_step(n) {
        Err(_) => false,
        Ok(Rewrite::Replace(r)) => m == r,
        Ok(Rewrite::Walk(_)) => walk_rewrites_expr(v, n, m),
    }
}

pub open spec fn walk_fails_expr<T, V: Transformer<T>>(v: V, n: Expr) -> Option<T>
    decreases n, 0nat,
{
    match n {
        Expr::Var(_) => None,
        Expr::AtomLit(_) => None,
        Expr::IntLit(_) => None,
        Expr::FloatLit(_) => None,
        Expr::Block(x) => fails_body(v, x.body),
        Expr::Match(x) => either(fails_pat(v, x.pat), fails_expr(v, *x.expr)),
        Expr::Tuple(x) => fails_exprs(v, x.elems@),
        Expr::StringLit(_) => None,
        Expr::NilLit(_) => None,
        Expr::Cons(x) => fails_cons(v, x),
        Expr::Case(x) => either(fails_expr(v, *x.expr), fails_clauses(v, x.clauses@)),
        Expr::If(x) => fails_clauses(v, x.clauses@),
        Expr::LocalCall(x) => fails_exprs(v, x.args@),
        Expr::DynCall(x) => either(fails_expr(v, *x.f), fails_exprs(v, x.args@)),
        Expr::RemoteCall(x) => fails_exprs(v, x.args@),
        Expr::LocalFun(_) => None,
        Expr::RemoteFun(_) => None,
        Expr::DynRemoteFun(x) => either(fails_expr(v, *x.module), fails_expr(v, *x.name)),
        Expr::DynRemoteFunArity(x) => either3(
            fails_expr(v, *x.module),
            fails_expr(v, *x.name),
            fails_expr(v, *x.arity),
        ),
        Expr::Lambda(x) => fails_clauses(v, x.clauses@),
        Expr::UnOp(x) => fails_expr(v, *x.arg),
        Expr::BinOp(x) => either(fails_expr(v, *x.arg_1), fails_expr(v, *x.arg_2)),
        Expr::LComprehension(x) => either(
            fails_expr(v, *x.template),
            fails_qualifiers(v, x.qualifiers@),
        ),
        Expr::BComprehension(x) => either(
            fails_expr(v, *x.template),
            fails_qualifiers(v, x.qualifiers@),
        ),
        Expr::MComprehension(x) => either3(
            fails_expr(v, *x.k_template),
            fails_expr(v, *x.v_template),
            fails_qualifiers(v, x.qualifiers@),
        ),
        Expr::Binary(x) => fails_binary_elems(v, x.elems@),
        Expr::Catch(x) => fails_expr(v, *x.expr),
        Expr::TryCatchExpr(x) => either3(
            fails_body(v, x.try_body),
            fails_clauses(v, x.catch_clauses@),
            fails_opt_body(v, x.after_body),
        ),
        Expr::TryOfCatchExpr(x) => either4(
            fails_body(v, x.try_body),
            fails_clauses(v, x.try_clauses@),
            fails_clauses(v, x.catch_clauses@),
            fails_opt_body(v, x.after_body),
        ),
        Expr::Receive(x) => fails_clauses(v, x.clauses@),
        Expr::ReceiveWithTimeout(x) => either3(
            fails_clauses(v, x.clauses@),
            fails_expr(v, *x.timeout),
            fails_body(v, x.timeout_body),
        ),
        Expr::RecordCreate(x) => fails_record_fields(v, x.fields@),
        Expr::RecordUpdate(x) => either(
            fails_expr(v, *x.expr),
            fails_named_fields(v, x.fields@),
        ),
        Expr::RecordSelect(x) => fails_expr(v, *x.expr),
        Expr::RecordIndex(_) => None,
        Expr::MapCreate(x) => fails_expr_pairs(v, x.kvs@),
        Expr::MapUpdate(x) => either(fails_expr(v, *x.map), fails_expr_pairs(v, x.kvs@)),
        Expr::Maybe(x) => fails_body(v, x.body),
        Expr::MaybeElse(x) => either(
            fails_body(v, x.body),
            fails_clauses(v, x.else_clauses@),
        ),
        Expr::MaybeMatch(x) => either(fails_pat(v, x.pat), fails_expr(v, *x.arg)),
    }
}

pub open spec fn walk_rewrites_expr<T, V: Transformer<T>>(v: V, n: Expr, m: Expr) -> bool
    decreases n, 0nat,
{
    match n {
        Expr::Var(x) => m == Expr::Var(x),
        Expr::AtomLit(x) => m == Expr::AtomLit(x),
        Expr::IntLit(x) => m == Expr::IntLit(x),
        Expr::FloatLit(x) => m == Expr::FloatLit(x),
        Expr::Block(x) => {
            &&& m matches Expr::Block(y)
            &&& y.location == x.location
            &&& rewrites_body(v, x.body, y.body)
        },
        Expr::Match(x) => {
            &&& m matches Expr::Match(y)
            &&& y.location == x.location
            &&& rewrites_pat(v, x.pat, y.pat)
            &&& rewrites_expr(v, *x.expr, *y.expr)
        },
        Expr::Tuple(x) => {
            &&& m matches Expr::Tuple(y)
            &&& y.location == x.location
            &&& rewrites_exprs(v, x.elems@, y.elems@)
        },
        Expr::StringLit(x) => m == Expr::StringLit(x),
        Expr::NilLit(x) => m == Expr::NilLit(x),
        Expr::Cons(x) => rewrites_cons(v, x, m),
        Expr::Case(x) => {
            &&& m matches Expr::Case(y)
            &&& y.location == x.location
            &&& rewrites_expr(v, *x.expr, *y.expr)
            &&& rewrites_clauses(v, x.clauses@, y.clauses@)
        },
        Expr::If(x) => {
            &&& m matches Expr::If(y)
            &&& y.location == x.location
            &&& rewrites_clauses(v, x.clauses@, y.clauses@)
        },
        Expr::LocalCall(x) => {
            &&& m matches Expr::LocalCall(y)
            &&& y.location == x.location
            &&& y.id == x.id
            &&& rewrites_exprs(v, x.args@, y.args@)
        },
        Expr::DynCall(x) => {
            &&& m matches Expr::DynCall(y)
            &&& y.location == x.location
            &&& rewrites_expr(v, *x.f, *y.f)
            &&& rewrites_exprs(v, x.args@, y.args@)
        },
        Expr::RemoteCall(x) => {
            &&& m matches Expr::RemoteCall(y)
            &&& y.location == x.location
            &&& y.id == x.id
            &&& rewrites_exprs(v, x.args@, y.args@)
        },
        Expr::LocalFun(x) => m == Expr::LocalFun(x),
        Expr::RemoteFun(x) => m == Expr::RemoteFun(x),
        Expr::DynRemoteFun(x) => {
            &&& m matches Expr::DynRemoteFun(y)
            &&& y.location == x.location
            &&& rewrites_expr(v, *x.module, *y.module)
            &&& rewrites_expr(v, *x.name, *y.name)
        },
        Expr::DynRemoteFunArity(x) => {
            &&& m matches Expr::DynRemoteFunArity(y)
            &&& y.location == x.location
            &&& rewrites_expr(v, *x.module, *y.module)
            &&& rewrites_expr(v, *x.name, *y.name)
            &&& rewrites_expr(v, *x.arity, *y.arity)
        },
        Expr::Lambda(x) => {
            &&& m matches Expr::Lambda(y)
            &&& y.location == x.location
            &&& rewrites_clauses(v, x.clauses@, y.clauses@)
            &&& y.name == x.name
        },
        Expr::UnOp(x) => {
            &&& m matches Expr::UnOp(y)
            &&& y.location == x.location
            &&& y.op == x.op
            &&& rewrites_expr(v, *x.arg, *y.arg)
        },
        Expr::BinOp(x) => {
            &&& m matches Expr::BinOp(y)
            &&& y.location == x.location
            &&& y.op == x.op
            &&& rewrites_expr(v, *x.arg_1, *y.arg_1)
            &&& rewrites_expr(v, *x.arg_2, *y.arg_2)
        },
        Expr::LComprehension(x) => {
            &&& m matches Expr::LComprehension(y)
            &&& y.location == x.location
            &&& rewrites_expr(v, *x.template, *y.template)
            &&& rewrites_qualifiers(v, x.qualifiers@, y.qualifiers@)
        },
        Expr::BComprehension(x) => {
            &&& m matches Expr::BComprehension(y)
            &&& y.location == x.location
            &&& rewrites_expr(v, *x.template, *y.template)
            &&& rewrites_qualifiers(v, x.qualifiers@, y.qualifiers@)
        },
        Expr::MComprehension(x) => {
            &&& m matches Expr::MComprehension(y)
            &&& y.location == x.location
            &&& rewrites_expr(v, *x.k_template, *y.k_template)
            &&& rewrites_expr(v, *x.v_template, *y.v_template)
            &&& rewrites_qualifiers(v, x.qualifiers@, y.qualifiers@)
        },
        Expr::Binary(x) => {
            &&& m matches Expr::Binary(y)
            &&& y.location == x.location
            &&& rewrites_binary_elems(v, x.elems@, y.elems@)
        },
        Expr::Catch(x) => {
            &&& m matches Expr::Catch(y)
            &&& y.location == x.location
            &&& rewrites_expr(v, *x.expr, *y.expr)
        },
        Expr::TryCatchExpr(x) => {
            &&& m matches Expr::TryCatchExpr(y)
            &&& y.location == x.location
            &&& rewrites_body(v, x.try_body, y.try_body)
            &&& rewrites_clauses(v, x.catch_clauses@, y.catch_clauses@)
            &&& rewrites_opt_body(v, x.after_body, y.after_body)
        },
        Expr::TryOfCatchExpr(x) => {
            &&& m matches Expr::TryOfCatchExpr(y)
            &&& y.location == x.location
            &&& rewrites_body(v, x.try_body, y.try_body)
            &&& rewrites_clauses(v, x.try_clauses@, y.try_clauses@)
            &&& rewrites_clauses(v, x.catch_clauses@, y.catch_clauses@)
            &&& rewrites_opt_body(v, x.after_body, y.after_body)
        },
        Expr::Receive(x) => {
            &&& m matches Expr::Receive(y)
            &&& y.location == x.location
            &&& rewrites_clauses(v, x.clauses@, y.clauses@)
        },
        Expr::ReceiveWithTimeout(x) => {
            &&& m matches Expr::ReceiveWithTimeout(y)
            &&& y.location == x.location
            &&& rewrites_clauses(v, x.clauses@, y.clauses@)
            &&& rewrites_expr(v, *x.timeout, *y.timeout)
            &&& rewrites_body(v, x.timeout_body, y.timeout_body)
        },
        Expr::RecordCreate(x) => {
            &&& m matches Expr::RecordCreate(y)
            &&& y.location == x.location
            &&& y.rec_name == x.rec_name
            &&& rewrites_record_fields(v, x.fields@, y.fields@)
        },
        Expr::RecordUpdate(x) => {
            &&& m matches Expr::RecordUpdate(y)
            &&& y.location == x.location
            &&& y.rec_name == x.rec_name
            &&& rewrites_expr(v, *x.expr, *y.expr)
            &&& rewrites_named_fields(v, x.fields@, y.fields@)
        },
        Expr::RecordSelect(x) => {
            &&& m matches Expr::RecordSelect(y)
            &&& y.location == x.location
            &&& y.rec_name == x.rec_name
            &&& y.field_name == x.field_name
            &&& rewrites_expr(v, *x.expr, *y.expr)
        },
        Expr::RecordIndex(x) => m == Expr::RecordIndex(x),
        Expr::MapCreate(x) => {
            &&& m matches Expr::MapCreate(y)
            &&& y.location == x.location
            &&& rewrites_expr_pairs(v, x.kvs@, y.kvs@)
        },
        Expr::MapUpdate(x) => {
            &&& m matches Expr::MapUpdate(y)
            &&& y.location == x.location
            &&& rewrites_expr(v, *x.map, *y.map)
            &&& rewrites_expr_pairs(v, x.kvs@, y.kvs@)
        },
        Expr::Maybe(x) => {
            &&& m matches Expr::Maybe(y)
            &&& y.location == x.location
            &&& rewrites_body(v, x.body, y.body)
        },
        Expr::MaybeElse(x) => {
            &&& m matches Expr::MaybeElse(y)
            &&& y.location == x.location
            &&& rewrites_body(v, x.body, y.body)
            &&& rewrites_clauses(v, x.else_clauses@, y.else_clauses@)
        },
        Expr::MaybeMatch(x) => {
            &&& m matches Expr::MaybeMatch(y)
            &&& y.location == x.location
            &&& rewrites_pat(v, x.pat, y.pat)
            &&& rewrites_expr(v, *x.arg, *y.arg)
        },
    }
}

pub open spec fn fails_pat<T, V: Transformer<T>>(v: V, n: Pat) -> Option<T>
    decreases n, 1nat,
{
    match v.pat_step(n) {
        Err(t) => Some(t),
        Ok(Rewrite::Replace(_)) => None,
        Ok(Rewrite::Walk(_)) => walk_fails_pat(v, n),
    }
}

pub open spec fn rewrites_pat<T, V: Transformer<T>>(v: V, n: Pat, m: Pat) -> bool
    decreases n, 1nat,
{
    match v.pat_step(n) {
        Err(_) => false,
        Ok(Rewrite::Replace(r)) => m == r,
        Ok(Rewrite::Walk(_)) => walk_rewrites_pat(v, n, m),
    }
}

pub open spec fn walk_fails_pat<T, V: Transformer<T>>(v: V, n: Pat) -> Option<T>
    decreases n, 0nat,
{
    match n {
        Pat::PatWild(_) => None,
        Pat::PatMatch(x) => either(fails_pat(v, *x.pat), fails_pat(v, *x.arg)),
        Pat::PatTuple(x) => fails_pats(v, x.elems@),
        Pat::PatString(_) => None,
        Pat::PatNil(_) => None,
        Pat::PatCons(x) => either(fails_pat(v, *x.h), fails_pat(v, *x.t)),
        Pat::PatInt(_) => None,
        Pat::PatNumber(_) => None,
        Pat::PatAtom(_) => None,
        Pat::PatVar(_) => None,
        Pat::PatRecord(x) => either(
            fails_pat_named_fields(v, x.fields@),
            fails_opt_boxed_pat(v, x.gen_pat),
        ),
        Pat::PatRecordIndex(_) => None,
        Pat::PatUnOp(x) => fails_pat(v, *x.arg),
        Pat::PatBinOp(x) => either(fails_pat(v, *x.arg_1), fails_pat(v, *x.arg_2)),
        Pat::PatBinary(x) => fails_pat_binary_elems(v, x.elems@),
        Pat::PatMap(x) => fails_test_pat_pairs(v, x.kvs@),
    }
}

pub open spec fn walk_rewrites_pat<T, V: Transformer<T>>(v: V, n: Pat, m: Pat) -> bool
    decreases n, 0nat,
{
    match n {
        Pat::PatWild(x) => m == Pat::PatWild(x),
        Pat::PatMatch(x) => {
            &&& m matches Pat::PatMatch(y)
            &&& y.location == x.location
            &&& rewrites_pat(v, *x.pat, *y.pat)
            &&& rewrites_pat(v, *x.arg, *y.arg)
        },
        Pat::PatTuple(x) => {
            &&& m matches Pat::PatTuple(y)
            &&& y.location == x.location
            &&& rewrites_pats(v, x.elems@, y.elems@)
        },
        Pat::PatString(x) => m == Pat::PatString(x),
        Pat::PatNil(x) => m == Pat::PatNil(x),
        Pat::PatCons(x) => {
            &&& m matches Pat::PatCons(y)
            &&& y.location == x.location
            &&& rewrites_pat(v, *x.h, *y.h)
            &&& rewrites_pat(v, *x.t, *y.t)
        },
        Pat::PatInt(x) => m == Pat::PatInt(x),
        Pat::PatNumber(x) => m == Pat::PatNumber(x),
        Pat::PatAtom(x) => m == Pat::PatAtom(x),
        Pat::PatVar(x) => m == Pat::PatVar(x),
        Pat::PatRecord(x) => {
            &&& m matches Pat::PatRecord(y)
            &&& y.location == x.location
            &&& y.rec_name == x.rec_name
            &&& rewrites_pat_named_fields(v, x.fields@, y.fields@)
            &&& rewrites_opt_boxed_pat(v, x.gen_pat, y.gen_pat)
        },
        Pat::PatRecordIndex(x) => m == Pat::PatRecordIndex(x),
        Pat::PatUnOp(x) => {
            &&& m matches Pat::PatUnOp(y)
            &&& y.location == x.location
            &&& y.op == x.op
            &&& rewrites_pat(v, *x.arg, *y.arg)
        },
        Pat::PatBinOp(x) => {
            &&& m matches Pat::PatBinOp(y)
            &&& y.location == x.location
            &&& y.op == x.op
            &&& rewrites_pat(v, *x.arg_1, *y.arg_1)
            &&& rewrites_pat(v, *x.arg_2, *y.arg_2)
        },
        Pat::PatBinary(x) => {
            &&& m matches Pat::PatBinary(y)
            &&& y.location == x.location
            &&& rewrites_pat_binary_elems(v, x.elems@, y.elems@)
        },
        Pat::PatMap(x) => {
            &&& m matches Pat::PatMap(y)
            &&& y.location == x.location
            &&& rewrites_test_pat_pairs(v, x.kvs@, y.kvs@)
        },
    }
}

pub open spec fn fails_test<T, V: Transformer<T>>(v: V, n: Test) -> Option<T>
    decreases n, 1nat,
{
    match v.test_step(n) {
        Err(t) => Some(t),
        Ok(Rewrite::Replace(_)) => None,
        Ok(Rewrite::Walk(_)) => walk_fails_test(v, n),
    }
}

pub open spec fn rewrites_test<T, V: Transformer<T>>(v: V, n: Test, m: Test) -> bool
    decreases n, 1nat,
{
    match v.test_step(n) {
        Err(_) => false,
        Ok(Rewrite::Replace(r)) => m == r,
        Ok(Rewrite::Walk(_)) => walk_rewrites_test(v, n, m),
    }
}

pub open spec fn walk_fails_test<T, V: Transformer<T>>(v: V, n: Test) -> Option<T>
    decreases n, 0nat,
{
    match n {
        Test::TestVar(_) => None,
        Test::TestAtom(_) => None,
        Test::TestNumber(_) => None,
        Test::TestTuple(x) => fails_tests(v, x.elems@),
        Test::TestString(_) => None,
        Test::TestNil(_) => None,
        Test::TestCons(x) => either(fails_test(v, *x.h), fails_test(v, *x.t)),
        Test::TestCall(x) => fails_tests(v, x.args@),
        Test::TestRecordCreate(x) => fails_test_record_fields(v, x.fields@),
        Test::TestRecordSelect(x) => fails_test(v, *x.rec),
        Test::TestRecordIndex(_) => None,
        Test::TestMapCreate(x) => fails_test_pairs(v, x.kvs@),
        Test::TestMapUpdate(x) => either(fails_test(v, *x.map), fails_test_pairs(v, x.kvs@)),
        Test::TestUnOp(x) => fails_test(v, *x.arg),
        Test::TestBinOp(x) => either(fails_test(v, *x.arg_1), fails_test(v, *x.arg_2)),
        Test::TestBinaryLit(_) => None,
    }
}

pub open spec fn walk_rewrites_test<T, V: Transformer<T>>(v: V, n: Test, m: Test) -> bool
    decreases n, 0nat,
{
    match n {
        Test::TestVar(x) => m == Test::TestVar(x),
        Test::TestAtom(x) => m == Test::TestAtom(x),
        Test::TestNumber(x) => m == Test::TestNumber(x),
        Test::TestTuple(x) => {
            &&& m matches Test::TestTuple(y)
            &&& y.location == x.location
            &&& rewrites_tests(v, x.elems@, y.elems@)
        },
        Test::TestString(x) => m == Test::TestString(x),
        Test::TestNil(x) => m == Test::TestNil(x),
        Test::TestCons(x) => {
            &&& m matches Test::TestCons(y)
            &&& y.location == x.location
            &&& rewrites_test(v, *x.h, *y.h)
            &&& rewrites_test(v, *x.t, *y.t)
        },
        Test::TestCall(x) => {
            &&& m matches Test::TestCall(y)
            &&& y.location == x.location
            &&& y.id == x.id
            &&& rewrites_tests(v, x.args@, y.args@)
        },
        Test::TestRecordCreate(x) => {
            &&& m matches Test::TestRecordCreate(y)
            &&& y.location == x.location
            &&& y.rec_name == x.rec_name
            &&& rewrites_test_record_fields(v, x.fields@, y.fields@)
        },
        Test::TestRecordSelect(x) => {
            &&& m matches Test::TestRecordSelect(y)
            &&& y.location == x.location
            &&& rewrites_test(v, *x.rec, *y.rec)
            &&& y.rec_name == x.rec_name
            &&& y.field_name == x.field_name
        },
        Test::TestRecordIndex(x) => m == Test::TestRecordIndex(x),
        Test::TestMapCreate(x) => {
            &&& m matches Test::TestMapCreate(y)
            &&& y.location == x.location
            &&& rewrites_test_pairs(v, x.kvs@, y.kvs@)
        },
        Test::TestMapUpdate(x) => {
            &&& m matches Test::TestMapUpdate(y)
            &&& y.location == x.location
            &&& rewrites_test(v, *x.map, *y.map)
            &&& rewrites_test_pairs(v, x.kvs@, y.kvs@)
        },
        Test::TestUnOp(x) => {
            &&& m matches Test::TestUnOp(y)
            &&& y.location == x.location
            &&& y.op == x.op
            &&& rewrites_test(v, *x.arg, *y.arg)
        },
        Test::TestBinOp(x) => {
            &&& m matches Test::TestBinOp(y)
            &&& y.location == x.location
            &&& y.op == x.op
            &&& rewrites_test(v, *x.arg_1, *y.arg_1)
            &&& rewrites_test(v, *x.arg_2, *y.arg_2)
        },
        Test::TestBinaryLit(x) => m == Test::TestBinaryLit(x),
    }
}

pub open spec fn fails_form<T, V: Transformer<T>>(v: V, n: ExternalForm) -> Option<T>
    decreases n, 1nat,
{
    match v.form_step(n) {
        Err(t) => Some(t),
        Ok(Rewrite::Replace(_)) => None,
        Ok(Rewrite::Walk(_)) => walk_fails_form(v, n),
    }
}

pub open spec fn rewrites_form<T, V: Transformer<T>>(v: V, n: ExternalForm, m: ExternalForm) -> bool
    decreases n, 1nat,
{
    match v.form_step(n) {
        Err(_) => false,
        Ok(Rewrite::Replace(r)) => m == r,
        Ok(Rewrite::Walk(_)) => walk_rewrites_form(v, n, m),
    }
}

pub open spec fn walk_fails_form<T, V: Transformer<T>>(v: V, n: ExternalForm) -> Option<T>
    decreases n, 0nat,
{
    match n {
        ExternalForm::Module(_) => None,
        ExternalForm::CompileExportAll(_) => None,
        ExternalForm::Export(_) => None,
        ExternalForm::Import(_) => None,
        ExternalForm::ExportType(_) => None,
        ExternalForm::FunDecl(x) => fails_clauses(v, x.clauses@),
        ExternalForm::File(_) => None,
        ExternalForm::ElpMetadata(_) => None,
        ExternalForm::Behaviour(_) => None,
        ExternalForm::EqwalizerNowarnFunction(_) => None,
        ExternalForm::EqwalizerUnlimitedRefinement(_) => None,
        ExternalForm::TypingAttribute(_) => None,
        ExternalForm::ExternalTypeDecl(_) => None,
        ExternalForm::ExternalOpaqueDecl(_) => None,
        ExternalForm::ExternalFunSpec(_) => None,
        ExternalForm::ExternalCallback(_) => None,
        ExternalForm::ExternalOptionalCallbacks(_) => None,
        ExternalForm::ExternalRecDecl(x) => fails_rec_fields(v, x.fields@),
    }
}

pub open spec fn walk_rewrites_form<T, V: Transformer<T>>(v: V, n: ExternalForm, m: ExternalForm) -> bool
    decreases n, 0nat,
{
    match n {
        ExternalForm::Module(x) => m == ExternalForm::Module(x),
        ExternalForm::CompileExportAll(x) => m == ExternalForm::CompileExportAll(x),
        ExternalForm::Export(x) => m == ExternalForm::Export(x),
        ExternalForm::Import(x) => m == ExternalForm::Import(x),
        ExternalForm::ExportType(x) => m == ExternalForm::ExportType(x),
        ExternalForm::FunDecl(x) => {
            &&& m matches ExternalForm::FunDecl(y)
            &&& y.location == x.location
            &&& y.id == x.id
            &&& rewrites_clauses(v, x.clauses@, y.clauses@)
        },
        ExternalForm::File(x) => m == ExternalForm::File(x),
        ExternalForm::ElpMetadata(x) => m == ExternalForm::ElpMetadata(x),
        ExternalForm::Behaviour(x) => m == ExternalForm::Behaviour(x),
        ExternalForm::EqwalizerNowarnFunction(x) => m == ExternalForm::EqwalizerNowarnFunction(x),
        ExternalForm::EqwalizerUnlimitedRefinement(x) => m == ExternalForm::EqwalizerUnlimitedRefinement(x),
        ExternalForm::TypingAttribute(x) => m == ExternalForm::TypingAttribute(x),
        ExternalForm::ExternalTypeDecl(x) => m == ExternalForm::ExternalTypeDecl(x),
        ExternalForm::ExternalOpaqueDecl(x) => m == ExternalForm::ExternalOpaqueDecl(x),
        ExternalForm::ExternalFunSpec(x) => m == ExternalForm::ExternalFunSpec(x),
        ExternalForm::ExternalCallback(x) => m == ExternalForm::ExternalCallback(x),
        ExternalForm::ExternalOptionalCallbacks(x) => m == ExternalForm::ExternalOptionalCallbacks(x),
        ExternalForm::ExternalRecDecl(x) => {
            &&& m matches ExternalForm::ExternalRecDecl(y)
            &&& y.location == x.location
            &&& y.name == x.name
            &&& y.file == x.file
            &&& rewrites_rec_fields(v, x.fields@, y.fields@)
        },
    }
}

pub open spec fn fails_clause<T, V: Transformer<T>>(v: V, n: Clause) -> Option<T>
    decreases n, 1nat,
{
    match v.clause_step(n) {
        Err(t) => Some(t),
        Ok(Rewrite::Replace(_)) => None,
        Ok(Rewrite::Walk(_)) => walk_fails_clause(v, n),
    }
}

pub open spec fn rewrites_clause<T, V: Transformer<T>>(v: V, n: Clause, m: Clause) -> bool
    decreases n, 1nat,
{
    match v.clause_step(n) {
        Err(_) => false,
        Ok(Rewrite::Replace(r)) => m == r,
        Ok(Rewrite::Walk(_)) => walk_rewrites_clause(v, n, m),
    }
}

pub open spec fn walk_fails_clause<T, V: Transformer<T>>(v: V, n: Clause) -> Option<T>
    decreases n, 0nat,
{
    either3(
        fails_pats(v, n.pats@),
        fails_guards(v, n.guards@),
        fails_body(v, n.body),
    )
}

pub open spec fn walk_rewrites_clause<T, V: Transformer<T>>(v: V, n: Clause, m: Clause) -> bool
    decreases n, 0nat,
{
    &&& m.location == n.location
    &&& rewrites_pats(v, n.pats@, m.pats@)
    &&& rewrites_guards(v, n.guards@, m.guards@)
    &&& rewrites_body(v, n.body, m.body)
}

pub open spec fn fails_body<T, V: Transformer<T>>(v: V, n: Body) -> Option<T>
    decreases n, 1nat,
{
    match v.body_step(n) {
        Err(t) => Some(t),
        Ok(Rewrite::Replace(_)) => None,
        Ok(Rewrite::Walk(_)) => walk_fails_body(v, n),
    }
}

pub open spec fn rewrites_body<T, V: Transformer<T>>(v: V, n: Body, m: Body) -> bool
    decreases n, 1nat,
{
    match v.body_step(n) {
        Err(_) => false,
        Ok(Rewrite::Replace(r)) => m == r,
        Ok(Rewrite::Walk(_)) => walk_rewrites_body(v, n, m),
    }
}

pub open spec fn walk_fails_body<T, V: Transformer<T>>(v: V, n: Body) -> Option<T>
    decreases n, 0nat,
{
    fails_exprs(v, n.exprs@)
}

pub open spec fn walk_rewrites_body<T, V: Transformer<T>>(v: V, n: Body, m: Body) -> bool
    decreases n, 0nat,
{
    &&& rewrites_exprs(v, n.exprs@, m.exprs@)
}

pub open spec fn fails_guard<T, V: Transformer<T>>(v: V, n: Guard) -> Option<T>
    decreases n, 1nat,
{
    match v.guard_step(n) {
        Err(t) => Some(t),
        Ok(Rewrite::Replace(_)) => None,
        Ok(Rewrite::Walk(_)) => walk_fails_guard(v, n),
    }
}

pub open spec fn rewrites_guard<T, V: Transformer<T>>(v: V, n: Guard, m: Guard) -> bool
    decreases n, 1nat,
{
    match v.guard_step(n) {
        Err(_) => false,
        Ok(Rewrite::Replace(r)) => m == r,
        Ok(Rewrite::Walk(_)) => walk_rewrites_guard(v, n, m),
    }
}

pub open spec fn walk_fails_guard<T, V: Transformer<T>>(v: V, n: Guard) -> Option<T>
    decreases n, 0nat,
{
    fails_tests(v, n.tests@)
}

pub open spec fn walk_rewrites_guard<T, V: Transformer<T>>(v: V, n: Guard, m: Guard) -> bool
    decreases n, 0nat,
{
    &&& rewrites_tests(v, n.tests@, m.tests@)
}

pub open spec fn fails_qualifier<T, V: Transformer<T>>(v: V, n: Qualifier) -> Option<T>
    decreases n, 1nat,
{
    match v.qualifier_step(n) {
        Err(t) => Some(t),
        Ok(Rewrite::Replace(_)) => None,
        Ok(Rewrite::Walk(_)) => walk_fails_qualifier(v, n),
    }
}

pub open spec fn rewrites_qualifier<T, V: Transformer<T>>(v: V, n: Qualifier, m: Qualifier) -> bool
    decreases n, 1nat,
{
    match v.qualifier_step(n) {
        Err(_) => false,
        Ok(Rewrite::Replace(r)) => m == r,
        Ok(Rewrite::Walk(_)) => walk_rewrites_qualifier(v, n, m),
    }
}

pub open spec fn walk_fails_qualifier<T, V: Transformer<T>>(v: V, n: Qualifier) -> Option<T>
    decreases n, 0nat,
{
    match n {
        Qualifier::LGenerate(x) => either(fails_pat(v, x.pat), fails_expr(v, x.expr)),
        Qualifier::BGenerate(x) => either(fails_pat(v, x.pat), fails_expr(v, x.expr)),
        Qualifier::MGenerate(x) => either3(
            fails_pat(v, x.k_pat),
            fails_pat(v, x.v_pat),
            fails_expr(v, x.expr),
        ),
        Qualifier::Filter(x) => fails_expr(v, x.expr),
    }
}

pub open spec fn walk_rewrites_qualifier<T, V: Transformer<T>>(v: V, n: Qualifier, m: Qualifier) -> bool
    decreases n, 0nat,
{
    match n {
        Qualifier::LGenerate(x) => {
            &&& m matches Qualifier::LGenerate(y)
            &&& rewrites_pat(v, x.pat, y.pat)
            &&& rewrites_expr(v, x.expr, y.expr)
        },
        Qualifier::BGenerate(x) => {
            &&& m matches Qualifier::BGenerate(y)
            &&& rewrites_pat(v, x.pat, y.pat)
            &&& rewrites_expr(v, x.expr, y.expr)
        },
        Qualifier::MGenerate(x) => {
            &&& m matches Qualifier::MGenerate(y)
            &&& rewrites_pat(v, x.k_pat, y.k_pat)
            &&& rewrites_pat(v, x.v_pat, y.v_pat)
            &&& rewrites_expr(v, x.expr, y.expr)
        },
        Qualifier::Filter(x) => {
            &&& m matches Qualifier::Filter(y)
            &&& rewrites_expr(v, x.expr, y.expr)
        },
    }
}

pub open spec fn fails_binary_elem<T, V: Transformer<T>>(v: V, n: BinaryElem) -> Option<T>
    decreases n, 1nat,
{
    match v.binary_elem_step(n) {
        Err(t) => Some(t),
        Ok(Rewrite::Replace(_)) => None,
        Ok(Rewrite::Walk(_)) => walk_fails_binary_elem(v, n),
    }
}

pub open spec fn rewrites_binary_elem<T, V: Transformer<T>>(v: V, n: BinaryElem, m: BinaryElem) -> bool
    decreases n, 1nat,
{
    match v.binary_elem_step(n) {
        Err(_) => false,
        Ok(Rewrite::Replace(r)) => m == r,
        Ok(Rewrite::Walk(_)) => walk_rewrites_binary_elem(v, n, m),
    }
}

pub open spec fn walk_fails_binary_elem<T, V: Transformer<T>>(v: V, n: BinaryElem) -> Option<T>
    decreases n, 0nat,
{
    either(fails_expr(v, n.expr), fails_opt_expr(v, n.size))
}

pub open spec fn walk_rewrites_binary_elem<T, V: Transformer<T>>(v: V, n: BinaryElem, m: BinaryElem) -> bool
    decreases n, 0nat,
{
    &&& m.location == n.location
    &&& rewrites_expr(v, n.expr, m.expr)
    &&& rewrites_opt_expr(v, n.size, m.size)
    &&& m.specifier == n.specifier
}

pub open spec fn fails_pat_binary_elem<T, V: Transformer<T>>(v: V, n: PatBinaryElem) -> Option<T>
    decreases n, 1nat,
{
    match v.pat_binary_elem_step(n) {
        Err(t) => Some(t),
        Ok(Rewrite::Replace(_)) => None,
        Ok(Rewrite::Walk(_)) => walk_fails_pat_binary_elem(v, n),
    }
}

pub open spec fn rewrites_pat_binary_elem<T, V: Transformer<T>>(v: V, n: PatBinaryElem, m: PatBinaryElem) -> bool
    decreases n, 1nat,
{
    match v.pat_binary_elem_step(n) {
        Err(_) => false,
        Ok(Rewrite::Replace(r)) => m == r,
        Ok(Rewrite::Walk(_)) => walk_rewrites_pat_binary_elem(v, n, m),
    }
}

pub open spec fn walk_fails_pat_binary_elem<T, V: Transformer<T>>(v: V, n: PatBinaryElem) -> Option<T>
    decreases n, 0nat,
{
    either(fails_pat(v, n.pat), fails_opt_expr(v, n.size))
}

pub open spec fn walk_rewrites_pat_binary_elem<T, V: Transformer<T>>(v: V, n: PatBinaryElem, m: PatBinaryElem) -> bool
    decreases n, 0nat,
{
    &&& m.location == n.location
    &&& rewrites_pat(v, n.pat, m.pat)
    &&& rewrites_opt_expr(v, n.size, m.size)
    &&& m.specifier == n.specifier
}

pub open spec fn fails_record_field<T, V: Transformer<T>>(v: V, n: RecordField) -> Option<T>
    decreases n, 1nat,
{
    match v.record_field_step(n) {
        Err(t) => Some(t),
        Ok(Rewrite::Replace(_)) => None,
        Ok(Rewrite::Walk(_)) => walk_fails_record_field(v, n),
    }
}

pub open spec fn rewrites_record_field<T, V: Transformer<T>>(v: V, n: RecordField, m: RecordField) -> bool
    decreases n, 1nat,
{
    match v.record_field_step(n) {
        Err(_) => false,
        Ok(Rewrite::Replace(r)) => m == r,
        Ok(Rewrite::Walk(_)) => walk_rewrites_record_field(v, n, m),
    }
}

pub open spec fn walk_fails_record_field<T, V: Transformer<T>>(v: V, n: RecordField) -> Option<T>
    decreases n, 0nat,
{
    match n {
        RecordField::RecordFieldGen(x) => fails_expr(v, x.value),
        RecordField::RecordFieldNamed(x) => fails_expr(v, x.value),
    }
}

pub open spec fn walk_rewrites_record_field<T, V: Transformer<T>>(v: V, n: RecordField, m: RecordField) -> bool
    decreases n, 0nat,
{
    match n {
        RecordField::RecordFieldGen(x) => {
            &&& m matches RecordField::RecordFieldGen(y)
            &&& rewrites_expr(v, x.value, y.value)
        },
        RecordField::RecordFieldNamed(x) => {
            &&& m matches RecordField::RecordFieldNamed(y)
            &&& y.name == x.name
            &&& rewrites_expr(v, x.value, y.value)
        },
    }
}

pub open spec fn fails_test_record_field<T, V: Transformer<T>>(v: V, n: TestRecordField) -> Option<T>
    decreases n, 1nat,
{
    match v.test_record_field_step(n) {
        Err(t) => Some(t),
        Ok(Rewrite::Replace(_)) => None,
        Ok(Rewrite::Walk(_)) => walk_fails_test_record_field(v, n),
    }
}

pub open spec fn rewrites_test_record_field<T, V: Transformer<T>>(v: V, n: TestRecordField, m: TestRecordField) -> bool
    decreases n, 1nat,
{
    match v.test_record_field_step(n) {
        Err(_) => false,
        Ok(Rewrite::Replace(r)) => m == r,
        Ok(Rewrite::Walk(_)) => walk_rewrites_test_record_field(v, n, m),
    }
}

pub open spec fn walk_fails_test_record_field<T, V: Transformer<T>>(v: V, n: TestRecordField) -> Option<T>
    decreases n, 0nat,
{
    match n {
        TestRecordField::TestRecordFieldNamed(x) => fails_test(v, x.value),
        TestRecordField::TestRecordFieldGen(x) => fails_test(v, x.value),
    }
}

pub open spec fn walk_rewrites_test_record_field<T, V: Transformer<T>>(v: V, n: TestRecordField, m: TestRecordField) -> bool
    decreases n, 0nat,
{
    match n {
        TestRecordField::TestRecordFieldNamed(x) => {
            &&& m matches TestRecordField::TestRecordFieldNamed(y)
            &&& y.name == x.name
            &&& rewrites_test(v, x.value, y.value)
        },
        TestRecordField::TestRecordFieldGen(x) => {
            &&& m matches TestRecordField::TestRecordFieldGen(y)
            &&& rewrites_test(v, x.value, y.value)
        },
    }
}

pub open spec fn fails_named_field<T, V: Transformer<T>>(v: V, n: RecordFieldNamed) -> Option<T>
    decreases n, 0nat,
{
    fails_expr(v, n.value)
}

pub open spec fn rewrites_named_field<T, V: Transformer<T>>(v: V, n: RecordFieldNamed, m: RecordFieldNamed) -> bool
    decreases n, 0nat,
{
    &&& m.name == n.name
    &&& rewrites_expr(v, n.value, m.value)
}

pub open spec fn fails_pat_named_field<T, V: Transformer<T>>(v: V, n: PatRecordFieldNamed) -> Option<T>
    decreases n, 0nat,
{
    fails_pat(v, n.pat)
}

pub open spec fn rewrites_pat_named_field<T, V: Transformer<T>>(v: V, n: PatRecordFieldNamed, m: PatRecordFieldNamed) -> bool
    decreases n, 0nat,
{
    &&& m.name == n.name
    &&& rewrites_pat(v, n.pat, m.pat)
}

pub open spec fn fails_rec_field<T, V: Transformer<T>>(v: V, n: ExternalRecField) -> Option<T>
    decreases n, 0nat,
{
    fails_opt_expr(v, n.default_value)
}

pub open spec fn rewrites_rec_field<T, V: Transformer<T>>(v: V, n: ExternalRecField, m: ExternalRecField) -> bool
    decreases n, 0nat,
{
    &&& m.name == n.name
    &&& rewrites_opt_expr(v, n.default_value, m.default_value)
}

pub open spec fn fails_expr_pair<T, V: Transformer<T>>(v: V, n: (Expr, Expr)) -> Option<T>
    decreases n, 0nat,
{
    either(fails_expr(v, n.0), fails_expr(v, n.1))
}

pub open spec fn rewrites_expr_pair<T, V: Transformer<T>>(v: V, n: (Expr, Expr), m: (Expr, Expr)) -> bool
    decreases n, 0nat,
{
    rewrites_expr(v, n.0, m.0) && rewrites_expr(v, n.1, m.1)
}

pub open spec fn fails_test_pat_pair<T, V: Transformer<T>>(v: V, n: (Test, Pat)) -> Option<T>
    decreases n, 0nat,
{
    either(fails_test(v, n.0), fails_pat(v, n.1))
}

pub open spec fn rewrites_test_pat_pair<T, V: Transformer<T>>(v: V, n: (Test, Pat), m: (Test, Pat)) -> bool
    decreases n, 0nat,
{
    rewrites_test(v, n.0, m.0) && rewrites_pat(v, n.1, m.1)
}

pub open spec fn fails_test_pair<T, V: Transformer<T>>(v: V, n: (Test, Test)) -> Option<T>
    decreases n, 0nat,
{
    either(fails_test(v, n.0), fails_test(v, n.1))
}

pub open spec fn rewrites_test_pair<T, V: Transformer<T>>(v: V, n: (Test, Test), m: (Test, Test)) -> bool
    decreases n, 0nat,
{
    rewrites_test(v, n.0, m.0) && rewrites_test(v, n.1, m.1)
}

pub open spec fn fails_forms<T, V: Transformer<T>>(v: V, s: Seq<ExternalForm>) -> Option<T>
    decreases s, 0nat,
{
    if s.len() == 0 {
        None
    } else {
        either(fails_form(v, s[0]), fails_forms(v, s.drop_first()))
    }
}

pub open spec fn rewrites_forms<T, V: Transformer<T>>(v: V, s: Seq<ExternalForm>, s2: Seq<ExternalForm>) -> bool
    decreases s, 0nat,
{
    &&& s2.len() == s.len()
    &&& forall|i: int| 0 <= i < s.len() ==> rewrites_form(v, #[trigger] s[i], s2[i])
}

pub open spec fn fails_exprs<T, V: Transformer<T>>(v: V, s: Seq<Expr>) -> Option<T>
    decreases s, 0nat,
{
    if s.len() == 0 {
        None
    } else {
        either(fails_expr(v, s[0]), fails_exprs(v, s.drop_first()))
    }
}

pub open spec fn rewrites_exprs<T, V: Transformer<T>>(v: V, s: Seq<Expr>, s2: Seq<Expr>) -> bool
    decreases s, 0nat,
{
    &&& s2.len() == s.len()
    &&& forall|i: int| 0 <= i < s.len() ==> rewrites_expr(v, #[trigger] s[i], s2[i])
}

pub open spec fn fails_clauses<T, V: Transformer<T>>(v: V, s: Seq<Clause>) -> Option<T>
    decreases s, 0nat,
{
    if s.len() == 0 {
        None
    } else {
        either(fails_clause(v, s[0]), fails_clauses(v, s.drop_first()))
    }
}

pub open spec fn rewrites_clauses<T, V: Transformer<T>>(v: V, s: Seq<Clause>, s2: Seq<Clause>) -> bool
    decreases s, 0nat,
{
    &&& s2.len() == s.len()
    &&& forall|i: int| 0 <= i < s.len() ==> rewrites_clause(v, #[trigger] s[i], s2[i])
}

pub open spec fn fails_qualifiers<T, V: Transformer<T>>(v: V, s: Seq<Qualifier>) -> Option<T>
    decreases s, 0nat,
{
    if s.len() == 0 {
        None
    } else {
        either(fails_qualifier(v, s[0]), fails_qualifiers(v, s.drop_first()))
    }
}

pub open spec fn rewrites_qualifiers<T, V: Transformer<T>>(v: V, s: Seq<Qualifier>, s2: Seq<Qualifier>) -> bool
    decreases s, 0nat,
{
    &&& s2.len() == s.len()
    &&& forall|i: int| 0 <= i < s.len() ==> rewrites_qualifier(v, #[trigger] s[i], s2[i])
}

pub open spec fn fails_binary_elems<T, V: Transformer<T>>(v: V, s: Seq<BinaryElem>) -> Option<T>
    decreases s, 0nat,
{
    if s.len() == 0 {
        None
    } else {
        either(fails_binary_elem(v, s[0]), fails_binary_elems(v, s.drop_first()))
    }
}

pub open spec fn rewrites_binary_elems<T, V: Transformer<T>>(v: V, s: Seq<BinaryElem>, s2: Seq<BinaryElem>) -> bool
    decreases s, 0nat,
{
    &&& s2.len() == s.len()
    &&& forall|i: int| 0 <= i < s.len() ==> rewrites_binary_elem(v, #[trigger] s[i], s2[i])
}

pub open spec fn fails_record_fields<T, V: Transformer<T>>(v: V, s: Seq<RecordField>) -> Option<T>
    decreases s, 0nat,
{
    if s.len() == 0 {
        None
    } else {
        either(fails_record_field(v, s[0]), fails_record_fields(v, s.drop_first()))
    }
}

pub open spec fn rewrites_record_fields<T, V: Transformer<T>>(v: V, s: Seq<RecordField>, s2: Seq<RecordField>) -> bool
    decreases s, 0nat,
{
    &&& s2.len() == s.len()
    &&& forall|i: int| 0 <= i < s.len() ==> rewrites_record_field(v, #[trigger] s[i], s2[i])
}

pub open spec fn fails_named_fields<T, V: Transformer<T>>(v: V, s: Seq<RecordFieldNamed>) -> Option<T>
    decreases s, 0nat,
{
    if s.len() == 0 {
        None
    } else {
        either(fails_named_field(v, s[0]), fails_named_fields(v, s.drop_first()))
    }
}

pub open spec fn rewrites_named_fields<T, V: Transformer<T>>(v: V, s: Seq<RecordFieldNamed>, s2: Seq<RecordFieldNamed>) -> bool
    decreases s, 0nat,
{
    &&& s2.len() == s.len()
    &&& forall|i: int| 0 <= i < s.len() ==> rewrites_named_field(v, #[trigger] s[i], s2[i])
}

pub open spec fn fails_expr_pairs<T, V: Transformer<T>>(v: V, s: Seq<(Expr, Expr)>) -> Option<T>
    decreases s, 0nat,
{
    if s.len() == 0 {
        None
    } else {
        either(fails_expr_pair(v, s[0]), fails_expr_pairs(v, s.drop_first()))
    }
}

pub open spec fn rewrites_expr_pairs<T, V: Transformer<T>>(v: V, s: Seq<(Expr, Expr)>, s2: Seq<(Expr, Expr)>) -> bool
    decreases s, 0nat,
{
    &&& s2.len() == s.len()
    &&& forall|i: int| 0 <= i < s.len() ==> rewrites_expr_pair(v, #[trigger] s[i], s2[i])
}

pub open spec fn fails_pats<T, V: Transformer<T>>(v: V, s: Seq<Pat>) -> Option<T>
    decreases s, 0nat,
{
    if s.len() == 0 {
        None
    } else {
        either(fails_pat(v, s[0]), fails_pats(v, s.drop_first()))
    }
}

pub open spec fn rewrites_pats<T, V: Transformer<T>>(v: V, s: Seq<Pat>, s2: Seq<Pat>) -> bool
    decreases s, 0nat,
{
    &&& s2.len() == s.len()
    &&& forall|i: int| 0 <= i < s.len() ==> rewrites_pat(v, #[trigger] s[i], s2[i])
}

pub open spec fn fails_guards<T, V: Transformer<T>>(v: V, s: Seq<Guard>) -> Option<T>
    decreases s, 0nat,
{
    if s.len() == 0 {
        None
    } else {
        either(fails_guard(v, s[0]), fails_guards(v, s.drop_first()))
    }
}

pub open spec fn rewrites_guards<T, V: Transformer<T>>(v: V, s: Seq<Guard>, s2: Seq<Guard>) -> bool
    decreases s, 0nat,
{
    &&& s2.len() == s.len()
    &&& forall|i: int| 0 <= i < s.len() ==> rewrites_guard(v, #[trigger] s[i], s2[i])
}

pub open spec fn fails_tests<T, V: Transformer<T>>(v: V, s: Seq<Test>) -> Option<T>
    decreases s, 0nat,
{
    if s.len() == 0 {
        None
    } else {
        either(fails_test(v, s[0]), fails_tests(v, s.drop_first()))
    }
}

pub open spec fn rewrites_tests<T, V: Transformer<T>>(v: V, s: Seq<Test>, s2: Seq<Test>) -> bool
    decreases s, 0nat,
{
    &&& s2.len() == s.len()
    &&& forall|i: int| 0 <= i < s.len() ==> rewrites_test(v, #[trigger] s[i], s2[i])
}

pub open spec fn fails_pat_named_fields<T, V: Transformer<T>>(v: V, s: Seq<PatRecordFieldNamed>) -> Option<T>
    decreases s, 0nat,
{
    if s.len() == 0 {
        None
    } else {
        either(fails_pat_named_field(v, s[0]), fails_pat_named_fields(v, s.drop_first()))
    }
}

pub open spec fn rewrites_pat_named_fields<T, V: Transformer<T>>(v: V, s: Seq<PatRecordFieldNamed>, s2: Seq<PatRecordFieldNamed>) -> bool
    decreases s, 0nat,
{
    &&& s2.len() == s.len()
    &&& forall|i: int| 0 <= i < s.len() ==> rewrites_pat_named_field(v, #[trigger] s[i], s2[i])
}

pub open spec fn fails_pat_binary_elems<T, V: Transformer<T>>(v: V, s: Seq<PatBinaryElem>) -> Option<T>
    decreases s, 0nat,
{
    if s.len() == 0 {
        None
    } else {
        either(fails_pat_binary_elem(v, s[0]), fails_pat_binary_elems(v, s.drop_first()))
    }
}

pub open spec fn rewrites_pat_binary_elems<T, V: Transformer<T>>(v: V, s: Seq<PatBinaryElem>, s2: Seq<PatBinaryElem>) -> bool
    decreases s, 0nat,
{
    &&& s2.len() == s.len()
    &&& forall|i: int| 0 <= i < s.len() ==> rewrites_pat_binary_elem(v, #[trigger] s[i], s2[i])
}

pub open spec fn fails_test_pat_pairs<T, V: Transformer<T>>(v: V, s: Seq<(Test, Pat)>) -> Option<T>
    decreases s, 0nat,
{
    if s.len() == 0 {
        None
    } else {
        either(fails_test_pat_pair(v, s[0]), fails_test_pat_pairs(v, s.drop_first()))
    }
}

pub open spec fn rewrites_test_pat_pairs<T, V: Transformer<T>>(v: V, s: Seq<(Test, Pat)>, s2: Seq<(Test, Pat)>) -> bool
    decreases s, 0nat,
{
    &&& s2.len() == s.len()
    &&& forall|i: int| 0 <= i < s.len() ==> rewrites_test_pat_pair(v, #[trigger] s[i], s2[i])
}

pub open spec fn fails_test_record_fields<T, V: Transformer<T>>(v: V, s: Seq<TestRecordField>) -> Option<T>
    decreases s, 0nat,
{
    if s.len() == 0 {
        None
    } else {
        either(fails_test_record_field(v, s[0]), fails_test_record_fields(v, s.drop_first()))
    }
}

pub open spec fn rewrites_test_record_fields<T, V: Transformer<T>>(v: V, s: Seq<TestRecordField>, s2: Seq<TestRecordField>) -> bool
    decreases s, 0nat,
{
    &&& s2.len() == s.len()
    &&& forall|i: int| 0 <= i < s.len() ==> rewrites_test_record_field(v, #[trigger] s[i], s2[i])
}

pub open spec fn fails_test_pairs<T, V: Transformer<T>>(v: V, s: Seq<(Test, Test)>) -> Option<T>
    decreases s, 0nat,
{
    if s.len() == 0 {
        None
    } else {
        either(fails_test_pair(v, s[0]), fails_test_pairs(v, s.drop_first()))
    }
}

pub open spec fn rewrites_test_pairs<T, V: Transformer<T>>(v: V, s: Seq<(Test, Test)>, s2: Seq<(Test, Test)>) -> bool
    decreases s, 0nat,
{
    &&& s2.len() == s.len()
    &&& forall|i: int| 0 <= i < s.len() ==> rewrites_test_pair(v, #[trigger] s[i], s2[i])
}

pub open spec fn fails_rec_fields<T, V: Transformer<T>>(v: V, s: Seq<ExternalRecField>) -> Option<T>
    decreases s, 0nat,
{
    if s.len() == 0 {
        None
    } else {
        either(fails_rec_field(v, s[0]), fails_rec_fields(v, s.drop_first()))
    }
}

pub open spec fn rewrites_rec_fields<T, V: Transformer<T>>(v: V, s: Seq<ExternalRecField>, s2: Seq<ExternalRecField>) -> bool
    decreases s, 0nat,
{
    &&& s2.len() == s.len()
    &&& forall|i: int| 0 <= i < s.len() ==> rewrites_rec_field(v, #[trigger] s[i], s2[i])
}

/// The failure of a chain of cons cells: heads in order, then the final tail.
/// The cells of the chain below the first are not handed to the pass.
pub open spec fn fails_cons<T, V: Transformer<T>>(v: V, c: Cons) -> Option<T>
    decreases c, 0nat,
{
    either(
        fails_expr(v, *c.h),
        match *c.t {
            Expr::Cons(rest) => fails_cons(v, rest),
            tail => fails_expr(v, tail),
        },
    )
}

/// The same chain, cell for cell, each head transformed and the final tail transformed.
pub open spec fn rewrites_cons<T, V: Transformer<T>>(v: V, c: Cons, m: Expr) -> bool
    decreases c, 0nat,
{
    &&& m matches Expr::Cons(d)
    &&& d.location == c.location
    &&& rewrites_expr(v, *c.h, *d.h)
    &&& match *c.t {
        Expr::Cons(rest) => rewrites_cons(v, rest, *d.t),
        tail => rewrites_expr(v, tail, *d.t),
    }
}

/// The number of cons cells below `c` in its chain.
pub open spec fn cons_depth(c: Cons) -> nat
    decreases c,
{
    match *c.t {
        Expr::Cons(rest) => 1 + cons_depth(rest),
        _ => 0,
    }
}

} // verus!
