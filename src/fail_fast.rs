//! The fail-fast law at any depth. `reaches_c(v, n, t)` holds when
//! transforming `n` with the pass `v` hands the expression `t` to the pass:
//! `t` is `n` itself, or `t` is reached from a child of a node that the pass
//! leaves to the walk. When the pass fails on such an expression, transforming
//! `n` fails; no partly rebuilt node comes back. Guards and guard tests hold no
//! expression, so nothing is reached through them.
use vstd::prelude::*;

use crate::ast::{
    AtomLit,
    BComprehension,
    BGenerate,
    Behaviour,
    BinOp,
    Binary,
    BinaryElem,
    Block,
    Body,
    Case,
    Catch,
    Clause,
    CompileExportAll,
    Cons,
    DynCall,
    DynRemoteFun,
    DynRemoteFunArity,
    ElpMetadata,
    EqwalizerNowarnFunction,
    EqwalizerUnlimitedRefinement,
    Export,
    ExportType,
    Expr,
    ExternalCallback,
    ExternalForm,
    ExternalFunSpec,
    ExternalOpaqueDecl,
    ExternalOptionalCallbacks,
    ExternalRecDecl,
    ExternalRecField,
    ExternalTypeDecl,
    File,
    Filter,
    FloatLit,
    FunDecl,
    If,
    Import,
    IntLit,
    LComprehension,
    LGenerate,
    Lambda,
    LocalCall,
    LocalFun,
    MComprehension,
    MGenerate,
    MapCreate,
    MapUpdate,
    Match,
    Maybe,
    MaybeElse,
    MaybeMatch,
    Module,
    NilLit,
    Pat,
    PatAtom,
    PatBinOp,
    PatBinary,
    PatBinaryElem,
    PatCons,
    PatInt,
    PatMap,
    PatMatch,
    PatNil,
    PatNumber,
    PatRecord,
    PatRecordFieldNamed,
    PatRecordIndex,
    PatString,
    PatTuple,
    PatUnOp,
    PatVar,
    PatWild,
    Qualifier,
    Receive,
    ReceiveWithTimeout,
    RecordCreate,
    RecordField,
    RecordFieldGen,
    RecordFieldNamed,
    RecordIndex,
    RecordSelect,
    RecordUpdate,
    RemoteCall,
    RemoteFun,
    StringLit,
    Test,
    TryCatchExpr,
    TryOfCatchExpr,
    Tuple,
    TypingAttribute,
    UnOp,
    Var,
};

use crate::transform_spec::{
    fails_binary_elem,
    fails_binary_elems,
    fails_body,
    fails_clause,
    fails_clauses,
    fails_cons,
    fails_expr,
    fails_expr_pair,
    fails_expr_pairs,
    fails_exprs,
    fails_form,
    fails_forms,
    fails_named_field,
    fails_named_fields,
    fails_opt_body,
    fails_opt_boxed_pat,
    fails_opt_expr,
    fails_pat,
    fails_pat_binary_elem,
    fails_pat_binary_elems,
    fails_pat_named_field,
    fails_pat_named_fields,
    fails_pats,
    fails_qualifier,
    fails_qualifiers,
    fails_rec_field,
    fails_rec_fields,
    fails_record_field,
    fails_record_fields,
    fails_test_pat_pair,
    fails_test_pat_pairs,
    walk_fails_binary_elem,
    walk_fails_body,
    walk_fails_clause,
    walk_fails_expr,
    walk_fails_form,
    walk_fails_pat,
    walk_fails_pat_binary_elem,
    walk_fails_qualifier,
    walk_fails_record_field,
};
use crate::transformer::{Rewrite, Transformer};

verus! {

pub open spec fn reaches_expr<T, V: Transformer<T>>(v: V, n: Expr, t: Expr) -> bool
    decreases n, 1nat,
{
    n == t || (v.expr_step(n) == Ok::<Rewrite<Expr>, T>(Rewrite::Walk(n)) && walk_reaches_expr(v, n, t))
}

pub open spec fn walk_reaches_expr<T, V: Transformer<T>>(v: V, n: Expr, t: Expr) -> bool
    decreases n, 0nat,
{
    match n {
        Expr::Var(_) => false,
        Expr::AtomLit(_) => false,
        Expr::IntLit(_) => false,
        Expr::FloatLit(_) => false,
        Expr::Block(x) => reaches_body(v, x.body, t),
        Expr::Match(x) => {
            ||| reaches_pat(v, x.pat, t)
            ||| reaches_expr(v, *x.expr, t)
        },
        Expr::Tuple(x) => reaches_exprs(v, x.elems@, t),
        Expr::StringLit(_) => false,
        Expr::NilLit(_) => false,
        Expr::Cons(x) => reaches_cons(v, x, t),
        Expr::Case(x) => {
            ||| reaches_expr(v, *x.expr, t)
            ||| reaches_clauses(v, x.clauses@, t)
        },
        Expr::If(x) => reaches_clauses(v, x.clauses@, t),
        Expr::LocalCall(x) => reaches_exprs(v, x.args@, t),
        Expr::DynCall(x) => {
            ||| reaches_expr(v, *x.f, t)
            ||| reaches_exprs(v, x.args@, t)
        },
        Expr::RemoteCall(x) => reaches_exprs(v, x.args@, t),
        Expr::LocalFun(_) => false,
        Expr::RemoteFun(_) => false,
        Expr::DynRemoteFun(x) => {
            ||| reaches_expr(v, *x.module, t)
            ||| reaches_expr(v, *x.name, t)
        },
        Expr::DynRemoteFunArity(x) => {
            ||| reaches_expr(v, *x.module, t)
            ||| reaches_expr(v, *x.name, t)
            ||| reaches_expr(v, *x.arity, t)
        },
        Expr::Lambda(x) => reaches_clauses(v, x.clauses@, t),
        Expr::UnOp(x) => reaches_expr(v, *x.arg, t),
        Expr::BinOp(x) => {
            ||| reaches_expr(v, *x.arg_1, t)
            ||| reaches_expr(v, *x.arg_2, t)
        },
        Expr::LComprehension(x) => {
            ||| reaches_expr(v, *x.template, t)
            ||| reaches_qualifiers(v, x.qualifiers@, t)
        },
        Expr::BComprehension(x) => {
            ||| reaches_expr(v, *x.template, t)
            ||| reaches_qualifiers(v, x.qualifiers@, t)
        },
        Expr::MComprehension(x) => {
            ||| reaches_expr(v, *x.k_template, t)
            ||| reaches_expr(v, *x.v_template, t)
            ||| reaches_qualifiers(v, x.qualifiers@, t)
        },
        Expr::Binary(x) => reaches_binary_elems(v, x.elems@, t),
        Expr::Catch(x) => reaches_expr(v, *x.expr, t),
        Expr::TryCatchExpr(x) => {
            ||| reaches_body(v, x.try_body, t)
            ||| reaches_clauses(v, x.catch_clauses@, t)
            ||| reaches_opt_body(v, x.after_body, t)
        },
        Expr::TryOfCatchExpr(x) => {
            ||| reaches_body(v, x.try_body, t)
            ||| reaches_clauses(v, x.try_clauses@, t)
            ||| reaches_clauses(v, x.catch_clauses@, t)
            ||| reaches_opt_body(v, x.after_body, t)
        },
        Expr::Receive(x) => reaches_clauses(v, x.clauses@, t),
        Expr::ReceiveWithTimeout(x) => {
            ||| reaches_clauses(v, x.clauses@, t)
            ||| reaches_expr(v, *x.timeout, t)
            ||| reaches_body(v, x.timeout_body, t)
        },
        Expr::RecordCreate(x) => reaches_record_fields(v, x.fields@, t),
        Expr::RecordUpdate(x) => {
            ||| reaches_expr(v, *x.expr, t)
            ||| reaches_named_fields(v, x.fields@, t)
        },
        Expr::RecordSelect(x) => reaches_expr(v, *x.expr, t),
        Expr::RecordIndex(_) => false,
        Expr::MapCreate(x) => reaches_expr_pairs(v, x.kvs@, t),
        Expr::MapUpdate(x) => {
            ||| reaches_expr(v, *x.map, t)
            ||| reaches_expr_pairs(v, x.kvs@, t)
        },
        Expr::Maybe(x) => reaches_body(v, x.body, t),
        Expr::MaybeElse(x) => {
            ||| reaches_body(v, x.body, t)
            ||| reaches_clauses(v, x.else_clauses@, t)
        },
        Expr::MaybeMatch(x) => {
            ||| reaches_pat(v, x.pat, t)
            ||| reaches_expr(v, *x.arg, t)
        },
    }
}

pub open spec fn reaches_pat<T, V: Transformer<T>>(v: V, n: Pat, t: Expr) -> bool
    decreases n, 1nat,
{
    v.pat_step(n) == Ok::<Rewrite<Pat>, T>(Rewrite::Walk(n)) && walk_reaches_pat(v, n, t)
}

pub open spec fn walk_reaches_pat<T, V: Transformer<T>>(v: V, n: Pat, t: Expr) -> bool
    decreases n, 0nat,
{
    match n {
        Pat::PatWild(_) => false,
        Pat::PatMatch(x) => {
            ||| reaches_pat(v, *x.pat, t)
            ||| reaches_pat(v, *x.arg, t)
        },
        Pat::PatTuple(x) => reaches_pats(v, x.elems@, t),
        Pat::PatString(_) => false,
        Pat::PatNil(_) => false,
        Pat::PatCons(x) => {
            ||| reaches_pat(v, *x.h, t)
            ||| reaches_pat(v, *x.t, t)
        },
        Pat::PatInt(_) => false,
        Pat::PatNumber(_) => false,
        Pat::PatAtom(_) => false,
        Pat::PatVar(_) => false,
        Pat::PatRecord(x) => {
            ||| reaches_pat_named_fields(v, x.fields@, t)
            ||| reaches_opt_boxed_pat(v, x.gen_pat, t)
        },
        Pat::PatRecordIndex(_) => false,
        Pat::PatUnOp(x) => reaches_pat(v, *x.arg, t),
        Pat::PatBinOp(x) => {
            ||| reaches_pat(v, *x.arg_1, t)
            ||| reaches_pat(v, *x.arg_2, t)
        },
        Pat::PatBinary(x) => reaches_pat_binary_elems(v, x.elems@, t),
        Pat::PatMap(x) => reaches_test_pat_pairs(v, x.kvs@, t),
    }
}

pub open spec fn reaches_form<T, V: Transformer<T>>(v: V, n: ExternalForm, t: Expr) -> bool
    decreases n, 1nat,
{
    v.form_step(n) == Ok::<Rewrite<ExternalForm>, T>(Rewrite::Walk(n)) && walk_reaches_form(v, n, t)
}

pub open spec fn walk_reaches_form<T, V: Transformer<T>>(v: V, n: ExternalForm, t: Expr) -> bool
    decreases n, 0nat,
{
    match n {
        ExternalForm::Module(_) => false,
        ExternalForm::CompileExportAll(_) => false,
        ExternalForm::Export(_) => false,
        ExternalForm::Import(_) => false,
        ExternalForm::ExportType(_) => false,
        ExternalForm::FunDecl(x) => reaches_clauses(v, x.clauses@, t),
        ExternalForm::File(_) => false,
        ExternalForm::ElpMetadata(_) => false,
        ExternalForm::Behaviour(_) => false,
        ExternalForm::EqwalizerNowarnFunction(_) => false,
        ExternalForm::EqwalizerUnlimitedRefinement(_) => false,
        ExternalForm::TypingAttribute(_) => false,
        ExternalForm::ExternalTypeDecl(_) => false,
        ExternalForm::ExternalOpaqueDecl(_) => false,
        ExternalForm::ExternalFunSpec(_) => false,
        ExternalForm::ExternalCallback(_) => false,
        ExternalForm::ExternalOptionalCallbacks(_) => false,
        ExternalForm::ExternalRecDecl(x) => reaches_rec_fields(v, x.fields@, t),
    }
}

pub open spec fn reaches_clause<T, V: Transformer<T>>(v: V, n: Clause, t: Expr) -> bool
    decreases n, 1nat,
{
    v.clause_step(n) == Ok::<Rewrite<Clause>, T>(Rewrite::Walk(n)) && walk_reaches_clause(v, n, t)
}

pub open spec fn walk_reaches_clause<T, V: Transformer<T>>(v: V, n: Clause, t: Expr) -> bool
    decreases n, 0nat,
{
    ||| reaches_pats(v, n.pats@, t)
    ||| reaches_body(v, n.body, t)
}

pub open spec fn reaches_body<T, V: Transformer<T>>(v: V, n: Body, t: Expr) -> bool
    decreases n, 1nat,
{
    v.body_step(n) == Ok::<Rewrite<Body>, T>(Rewrite::Walk(n)) && walk_reaches_body(v, n, t)
}

pub open spec fn walk_reaches_body<T, V: Transformer<T>>(v: V, n: Body, t: Expr) -> bool
    decreases n, 0nat,
{
    reaches_exprs(v, n.exprs@, t)
}

pub open spec fn reaches_qualifier<T, V: Transformer<T>>(v: V, n: Qualifier, t: Expr) -> bool
    decreases n, 1nat,
{
    v.qualifier_step(n) == Ok::<Rewrite<Qualifier>, T>(Rewrite::Walk(n)) && walk_reaches_qualifier(v, n, t)
}

pub open spec fn walk_reaches_qualifier<T, V: Transformer<T>>(v: V, n: Qualifier, t: Expr) -> bool
    decreases n, 0nat,
{
    match n {
        Qualifier::LGenerate(x) => {
            ||| reaches_pat(v, x.pat, t)
            ||| reaches_expr(v, x.expr, t)
        },
        Qualifier::BGenerate(x) => {
            ||| reaches_pat(v, x.pat, t)
            ||| reaches_expr(v, x.expr, t)
        },
        Qualifier::MGenerate(x) => {
            ||| reaches_pat(v, x.k_pat, t)
            ||| reaches_pat(v, x.v_pat, t)
            ||| reaches_expr(v, x.expr, t)
        },
        Qualifier::Filter(x) => reaches_expr(v, x.expr, t),
    }
}

pub open spec fn reaches_binary_elem<T, V: Transformer<T>>(v: V, n: BinaryElem, t: Expr) -> bool
    decreases n, 1nat,
{
    v.binary_elem_step(n) == Ok::<Rewrite<BinaryElem>, T>(Rewrite::Walk(n)) && walk_reaches_binary_elem(v, n, t)
}

pub open spec fn walk_reaches_binary_elem<T, V: Transformer<T>>(v: V, n: BinaryElem, t: Expr) -> bool
    decreases n, 0nat,
{
    ||| reaches_expr(v, n.expr, t)
    ||| reaches_opt_expr(v, n.size, t)
}

pub open spec fn reaches_pat_binary_elem<T, V: Transformer<T>>(v: V, n: PatBinaryElem, t: Expr) -> bool
    decreases n, 1nat,
{
    v.pat_binary_elem_step(n) == Ok::<Rewrite<PatBinaryElem>, T>(Rewrite::Walk(n)) && walk_reaches_pat_binary_elem(v, n, t)
}

pub open spec fn walk_reaches_pat_binary_elem<T, V: Transformer<T>>(v: V, n: PatBinaryElem, t: Expr) -> bool
    decreases n, 0nat,
{
    ||| reaches_pat(v, n.pat, t)
    ||| reaches_opt_expr(v, n.size, t)
}

pub open spec fn reaches_record_field<T, V: Transformer<T>>(v: V, n: RecordField, t: Expr) -> bool
    decreases n, 1nat,
{
    v.record_field_step(n) == Ok::<Rewrite<RecordField>, T>(Rewrite::Walk(n)) && walk_reaches_record_field(v, n, t)
}

pub open spec fn walk_reaches_record_field<T, V: Transformer<T>>(v: V, n: RecordField, t: Expr) -> bool
    decreases n, 0nat,
{
    match n {
        RecordField::RecordFieldGen(x) => reaches_expr(v, x.value, t),
        RecordField::RecordFieldNamed(x) => reaches_expr(v, x.value, t),
    }
}

pub open spec fn reaches_named_field<T, V: Transformer<T>>(v: V, n: RecordFieldNamed, t: Expr) -> bool
    decreases n, 0nat,
{
    reaches_expr(v, n.value, t)
}

pub open spec fn reaches_pat_named_field<T, V: Transformer<T>>(v: V, n: PatRecordFieldNamed, t: Expr) -> bool
    decreases n, 0nat,
{
    reaches_pat(v, n.pat, t)
}

pub open spec fn reaches_rec_field<T, V: Transformer<T>>(v: V, n: ExternalRecField, t: Expr) -> bool
    decreases n, 0nat,
{
    reaches_opt_expr(v, n.default_value, t)
}

pub open spec fn reaches_expr_pair<T, V: Transformer<T>>(v: V, n: (Expr, Expr), t: Expr) -> bool
    decreases n, 0nat,
{
    reaches_expr(v, n.0, t) || reaches_expr(v, n.1, t)
}

pub open spec fn reaches_test_pat_pair<T, V: Transformer<T>>(v: V, n: (Test, Pat), t: Expr) -> bool
    decreases n, 0nat,
{
    reaches_pat(v, n.1, t)
}

pub open spec fn reaches_opt_expr<T, V: Transformer<T>>(v: V, o: Option<Expr>, t: Expr) -> bool
    decreases o, 0nat,
{
    match o {
        Some(n) => reaches_expr(v, n, t),
        None => false,
    }
}

pub open spec fn reaches_opt_body<T, V: Transformer<T>>(v: V, o: Option<Body>, t: Expr) -> bool
    decreases o, 0nat,
{
    match o {
        Some(n) => reaches_body(v, n, t),
        None => false,
    }
}

pub open spec fn reaches_opt_boxed_pat<T, V: Transformer<T>>(v: V, o: Option<Box<Pat>>, t: Expr) -> bool
    decreases o, 0nat,
{
    match o {
        Some(n) => reaches_pat(v, *n, t),
        None => false,
    }
}

pub open spec fn reaches_forms<T, V: Transformer<T>>(v: V, s: Seq<ExternalForm>, t: Expr) -> bool
    decreases s, 0nat,
{
    exists|i: int| 0 <= i < s.len() && reaches_form(v, #[trigger] s[i], t)
}

pub open spec fn reaches_exprs<T, V: Transformer<T>>(v: V, s: Seq<Expr>, t: Expr) -> bool
    decreases s, 0nat,
{
    exists|i: int| 0 <= i < s.len() && reaches_expr(v, #[trigger] s[i], t)
}

pub open spec fn reaches_clauses<T, V: Transformer<T>>(v: V, s: Seq<Clause>, t: Expr) -> bool
    decreases s, 0nat,
{
    exists|i: int| 0 <= i < s.len() && reaches_clause(v, #[trigger] s[i], t)
}

pub open spec fn reaches_qualifiers<T, V: Transformer<T>>(v: V, s: Seq<Qualifier>, t: Expr) -> bool
    decreases s, 0nat,
{
    exists|i: int| 0 <= i < s.len() && reaches_qualifier(v, #[trigger] s[i], t)
}

pub open spec fn reaches_binary_elems<T, V: Transformer<T>>(v: V, s: Seq<BinaryElem>, t: Expr) -> bool
    decreases s, 0nat,
{
    exists|i: int| 0 <= i < s.len() && reaches_binary_elem(v, #[trigger] s[i], t)
}

pub open spec fn reaches_record_fields<T, V: Transformer<T>>(v: V, s: Seq<RecordField>, t: Expr) -> bool
    decreases s, 0nat,
{
    exists|i: int| 0 <= i < s.len() && reaches_record_field(v, #[trigger] s[i], t)
}

pub open spec fn reaches_named_fields<T, V: Transformer<T>>(v: V, s: Seq<RecordFieldNamed>, t: Expr) -> bool
    decreases s, 0nat,
{
    exists|i: int| 0 <= i < s.len() && reaches_named_field(v, #[trigger] s[i], t)
}

pub open spec fn reaches_expr_pairs<T, V: Transformer<T>>(v: V, s: Seq<(Expr, Expr)>, t: Expr) -> bool
    decreases s, 0nat,
{
    exists|i: int| 0 <= i < s.len() && reaches_expr_pair(v, #[trigger] s[i], t)
}

pub open spec fn reaches_pats<T, V: Transformer<T>>(v: V, s: Seq<Pat>, t: Expr) -> bool
    decreases s, 0nat,
{
    exists|i: int| 0 <= i < s.len() && reaches_pat(v, #[trigger] s[i], t)
}

pub open spec fn reaches_pat_named_fields<T, V: Transformer<T>>(v: V, s: Seq<PatRecordFieldNamed>, t: Expr) -> bool
    decreases s, 0nat,
{
    exists|i: int| 0 <= i < s.len() && reaches_pat_named_field(v, #[trigger] s[i], t)
}

pub open spec fn reaches_pat_binary_elems<T, V: Transformer<T>>(v: V, s: Seq<PatBinaryElem>, t: Expr) -> bool
    decreases s, 0nat,
{
    exists|i: int| 0 <= i < s.len() && reaches_pat_binary_elem(v, #[trigger] s[i], t)
}

pub open spec fn reaches_test_pat_pairs<T, V: Transformer<T>>(v: V, s: Seq<(Test, Pat)>, t: Expr) -> bool
    decreases s, 0nat,
{
    exists|i: int| 0 <= i < s.len() && reaches_test_pat_pair(v, #[trigger] s[i], t)
}

pub open spec fn reaches_rec_fields<T, V: Transformer<T>>(v: V, s: Seq<ExternalRecField>, t: Expr) -> bool
    decreases s, 0nat,
{
    exists|i: int| 0 <= i < s.len() && reaches_rec_field(v, #[trigger] s[i], t)
}

pub open spec fn reaches_cons<T, V: Transformer<T>>(v: V, c: Cons, t: Expr) -> bool
    decreases c, 0nat,
{
    ||| reaches_expr(v, *c.h, t)
    ||| match *c.t {
        Expr::Cons(rest) => reaches_cons(v, rest, t),
        tail => reaches_expr(v, tail, t),
    }
}

/// Fail-fast law for an expression: when the walk hands the pass an
/// expression on which the pass fails, transforming the whole node fails.
pub proof fn failing_expr<T, V: Transformer<T>>(v: V, n: Expr, t: Expr)
    requires
        reaches_expr(v, n, t),
        v.expr_step(t) is Err,
    ensures
        fails_expr(v, n) is Some,
    decreases n, 1nat,
{
    if n != t {
        failing_walk_expr(v, n, t);
    }
}

proof fn failing_walk_expr<T, V: Transformer<T>>(v: V, n: Expr, t: Expr)
    requires
        walk_reaches_expr(v, n, t),
        v.expr_step(t) is Err,
    ensures
        walk_fails_expr(v, n) is Some,
    decreases n, 0nat,
{
    match n {
        Expr::Var(_) => {},
        Expr::AtomLit(_) => {},
        Expr::IntLit(_) => {},
        Expr::FloatLit(_) => {},
        Expr::Block(x) => {
            failing_body(v, x.body, t);
        },
        Expr::Match(x) => {
            if reaches_pat(v, x.pat, t) {
                failing_pat(v, x.pat, t);
            } else {
                failing_expr(v, *x.expr, t);
            }
        },
        Expr::Tuple(x) => {
            failing_exprs(v, x.elems@, t);
        },
        Expr::StringLit(_) => {},
        Expr::NilLit(_) => {},
        Expr::Cons(x) => {
            failing_cons(v, x, t);
        },
        Expr::Case(x) => {
            if reaches_expr(v, *x.expr, t) {
                failing_expr(v, *x.expr, t);
            } else {
                failing_clauses(v, x.clauses@, t);
            }
        },
        Expr::If(x) => {
            failing_clauses(v, x.clauses@, t);
        },
        Expr::LocalCall(x) => {
            failing_exprs(v, x.args@, t);
        },
        Expr::DynCall(x) => {
            if reaches_expr(v, *x.f, t) {
                failing_expr(v, *x.f, t);
            } else {
                failing_exprs(v, x.args@, t);
            }
        },
        Expr::RemoteCall(x) => {
            failing_exprs(v, x.args@, t);
        },
        Expr::LocalFun(_) => {},
        Expr::RemoteFun(_) => {},
        Expr::DynRemoteFun(x) => {
            if reaches_expr(v, *x.module, t) {
                failing_expr(v, *x.module, t);
            } else {
                failing_expr(v, *x.name, t);
            }
        },
        Expr::DynRemoteFunArity(x) => {
            if reaches_expr(v, *x.module, t) {
                failing_expr(v, *x.module, t);
            } else if reaches_expr(v, *x.name, t) {
                failing_expr(v, *x.name, t);
            } else {
                failing_expr(v, *x.arity, t);
            }
        },
        Expr::Lambda(x) => {
            failing_clauses(v, x.clauses@, t);
        },
        Expr::UnOp(x) => {
            failing_expr(v, *x.arg, t);
        },
        Expr::BinOp(x) => {
            if reaches_expr(v, *x.arg_1, t) {
                failing_expr(v, *x.arg_1, t);
            } else {
                failing_expr(v, *x.arg_2, t);
            }
        },
        Expr::LComprehension(x) => {
            if reaches_expr(v, *x.template, t) {
                failing_expr(v, *x.template, t);
            } else {
                failing_qualifiers(v, x.qualifiers@, t);
            }
        },
        Expr::BComprehension(x) => {
            if reaches_expr(v, *x.template, t) {
                failing_expr(v, *x.template, t);
            } else {
                failing_qualifiers(v, x.qualifiers@, t);
            }
        },
        Expr::MComprehension(x) => {
            if reaches_expr(v, *x.k_template, t) {
                failing_expr(v, *x.k_template, t);
            } else if reaches_expr(v, *x.v_template, t) {
                failing_expr(v, *x.v_template, t);
            } else {
                failing_qualifiers(v, x.qualifiers@, t);
            }
        },
        Expr::Binary(x) => {
            failing_binary_elems(v, x.elems@, t);
        },
        Expr::Catch(x) => {
            failing_expr(v, *x.expr, t);
        },
        Expr::TryCatchExpr(x) => {
            if reaches_body(v, x.try_body, t) {
                failing_body(v, x.try_body, t);
            } else if reaches_clauses(v, x.catch_clauses@, t) {
                failing_clauses(v, x.catch_clauses@, t);
            } else {
                failing_opt_body(v, x.after_body, t);
            }
        },
        Expr::TryOfCatchExpr(x) => {
            if reaches_body(v, x.try_body, t) {
                failing_body(v, x.try_body, t);
            } else if reaches_clauses(v, x.try_clauses@, t) {
                failing_clauses(v, x.try_clauses@, t);
            } else if reaches_clauses(v, x.catch_clauses@, t) {
                failing_clauses(v, x.catch_clauses@, t);
            } else {
                failing_opt_body(v, x.after_body, t);
            }
        },
        Expr::Receive(x) => {
            failing_clauses(v, x.clauses@, t);
        },
        Expr::ReceiveWithTimeout(x) => {
            if reaches_clauses(v, x.clauses@, t) {
                failing_clauses(v, x.clauses@, t);
            } else if reaches_expr(v, *x.timeout, t) {
                failing_expr(v, *x.timeout, t);
            } else {
                failing_body(v, x.timeout_body, t);
            }
        },
        Expr::RecordCreate(x) => {
            failing_record_fields(v, x.fields@, t);
        },
        Expr::RecordUpdate(x) => {
            if reaches_expr(v, *x.expr, t) {
                failing_expr(v, *x.expr, t);
            } else {
                failing_named_fields(v, x.fields@, t);
            }
        },
        Expr::RecordSelect(x) => {
            failing_expr(v, *x.expr, t);
        },
        Expr::RecordIndex(_) => {},
        Expr::MapCreate(x) => {
            failing_expr_pairs(v, x.kvs@, t);
        },
        Expr::MapUpdate(x) => {
            if reaches_expr(v, *x.map, t) {
                failing_expr(v, *x.map, t);
            } else {
                failing_expr_pairs(v, x.kvs@, t);
            }
        },
        Expr::Maybe(x) => {
            failing_body(v, x.body, t);
        },
        Expr::MaybeElse(x) => {
            if reaches_body(v, x.body, t) {
                failing_body(v, x.body, t);
            } else {
                failing_clauses(v, x.else_clauses@, t);
            }
        },
        Expr::MaybeMatch(x) => {
            if reaches_pat(v, x.pat, t) {
                failing_pat(v, x.pat, t);
            } else {
                failing_expr(v, *x.arg, t);
            }
        },
    }
}

/// Fail-fast law for a pattern: when the walk hands the pass an
/// expression on which the pass fails, transforming the whole node fails.
pub proof fn failing_pat<T, V: Transformer<T>>(v: V, n: Pat, t: Expr)
    requires
        reaches_pat(v, n, t),
        v.expr_step(t) is Err,
    ensures
        fails_pat(v, n) is Some,
    decreases n, 1nat,
{
    failing_walk_pat(v, n, t);
}

proof fn failing_walk_pat<T, V: Transformer<T>>(v: V, n: Pat, t: Expr)
    requires
        walk_reaches_pat(v, n, t),
        v.expr_step(t) is Err,
    ensures
        walk_fails_pat(v, n) is Some,
    decreases n, 0nat,
{
    match n {
        Pat::PatWild(_) => {},
        Pat::PatMatch(x) => {
            if reaches_pat(v, *x.pat, t) {
                failing_pat(v, *x.pat, t);
            } else {
                failing_pat(v, *x.arg, t);
            }
        },
        Pat::PatTuple(x) => {
            failing_pats(v, x.elems@, t);
        },
        Pat::PatString(_) => {},
        Pat::PatNil(_) => {},
        Pat::PatCons(x) => {
            if reaches_pat(v, *x.h, t) {
                failing_pat(v, *x.h, t);
            } else {
                failing_pat(v, *x.t, t);
            }
        },
        Pat::PatInt(_) => {},
        Pat::PatNumber(_) => {},
        Pat::PatAtom(_) => {},
        Pat::PatVar(_) => {},
        Pat::PatRecord(x) => {
            if reaches_pat_named_fields(v, x.fields@, t) {
                failing_pat_named_fields(v, x.fields@, t);
            } else {
                failing_opt_boxed_pat(v, x.gen_pat, t);
            }
        },
        Pat::PatRecordIndex(_) => {},
        Pat::PatUnOp(x) => {
            failing_pat(v, *x.arg, t);
        },
        Pat::PatBinOp(x) => {
            if reaches_pat(v, *x.arg_1, t) {
                failing_pat(v, *x.arg_1, t);
            } else {
                failing_pat(v, *x.arg_2, t);
            }
        },
        Pat::PatBinary(x) => {
            failing_pat_binary_elems(v, x.elems@, t);
        },
        Pat::PatMap(x) => {
            failing_test_pat_pairs(v, x.kvs@, t);
        },
    }
}

/// Fail-fast law for a form: when the walk hands the pass an
/// expression on which the pass fails, transforming the whole node fails.
pub proof fn failing_form<T, V: Transformer<T>>(v: V, n: ExternalForm, t: Expr)
    requires
        reaches_form(v, n, t),
        v.expr_step(t) is Err,
    ensures
        fails_form(v, n) is Some,
    decreases n, 1nat,
{
    failing_walk_form(v, n, t);
}

proof fn failing_walk_form<T, V: Transformer<T>>(v: V, n: ExternalForm, t: Expr)
    requires
        walk_reaches_form(v, n, t),
        v.expr_step(t) is Err,
    ensures
        walk_fails_form(v, n) is Some,
    decreases n, 0nat,
{
    match n {
        ExternalForm::Module(_) => {},
        ExternalForm::CompileExportAll(_) => {},
        ExternalForm::Export(_) => {},
        ExternalForm::Import(_) => {},
        ExternalForm::ExportType(_) => {},
        ExternalForm::FunDecl(x) => {
            failing_clauses(v, x.clauses@, t);
        },
        ExternalForm::File(_) => {},
        ExternalForm::ElpMetadata(_) => {},
        ExternalForm::Behaviour(_) => {},
        ExternalForm::EqwalizerNowarnFunction(_) => {},
        ExternalForm::EqwalizerUnlimitedRefinement(_) => {},
        ExternalForm::TypingAttribute(_) => {},
        ExternalForm::ExternalTypeDecl(_) => {},
        ExternalForm::ExternalOpaqueDecl(_) => {},
        ExternalForm::ExternalFunSpec(_) => {},
        ExternalForm::ExternalCallback(_) => {},
        ExternalForm::ExternalOptionalCallbacks(_) => {},
        ExternalForm::ExternalRecDecl(x) => {
            failing_rec_fields(v, x.fields@, t);
        },
    }
}

/// Fail-fast law for a clause: when the walk hands the pass an
/// expression on which the pass fails, transforming the whole node fails.
pub proof fn failing_clause<T, V: Transformer<T>>(v: V, n: Clause, t: Expr)
    requires
        reaches_clause(v, n, t),
        v.expr_step(t) is Err,
    ensures
        fails_clause(v, n) is Some,
    decreases n, 1nat,
{
    failing_walk_clause(v, n, t);
}

proof fn failing_walk_clause<T, V: Transformer<T>>(v: V, n: Clause, t: Expr)
    requires
        walk_reaches_clause(v, n, t),
        v.expr_step(t) is Err,
    ensures
        walk_fails_clause(v, n) is Some,
    decreases n, 0nat,
{
    if reaches_pats(v, n.pats@, t) {
        failing_pats(v, n.pats@, t);
    } else {
        failing_body(v, n.body, t);
    }
}

/// Fail-fast law for a body: when the walk hands the pass an
/// expression on which the pass fails, transforming the whole node fails.
pub proof fn failing_body<T, V: Transformer<T>>(v: V, n: Body, t: Expr)
    requires
        reaches_body(v, n, t),
        v.expr_step(t) is Err,
    ensures
        fails_body(v, n) is Some,
    decreases n, 1nat,
{
    failing_walk_body(v, n, t);
}

proof fn failing_walk_body<T, V: Transformer<T>>(v: V, n: Body, t: Expr)
    requires
        walk_reaches_body(v, n, t),
        v.expr_step(t) is Err,
    ensures
        walk_fails_body(v, n) is Some,
    decreases n, 0nat,
{
    failing_exprs(v, n.exprs@, t);
}

/// Fail-fast law for a comprehension qualifier: when the walk hands the pass an
/// expression on which the pass fails, transforming the whole node fails.
pub proof fn failing_qualifier<T, V: Transformer<T>>(v: V, n: Qualifier, t: Expr)
    requires
        reaches_qualifier(v, n, t),
        v.expr_step(t) is Err,
    ensures
        fails_qualifier(v, n) is Some,
    decreases n, 1nat,
{
    failing_walk_qualifier(v, n, t);
}

proof fn failing_walk_qualifier<T, V: Transformer<T>>(v: V, n: Qualifier, t: Expr)
    requires
        walk_reaches_qualifier(v, n, t),
        v.expr_step(t) is Err,
    ensures
        walk_fails_qualifier(v, n) is Some,
    decreases n, 0nat,
{
    match n {
        Qualifier::LGenerate(x) => {
            if reaches_pat(v, x.pat, t) {
                failing_pat(v, x.pat, t);
            } else {
                failing_expr(v, x.expr, t);
            }
        },
        Qualifier::BGenerate(x) => {
            if reaches_pat(v, x.pat, t) {
                failing_pat(v, x.pat, t);
            } else {
                failing_expr(v, x.expr, t);
            }
        },
        Qualifier::MGenerate(x) => {
            if reaches_pat(v, x.k_pat, t) {
                failing_pat(v, x.k_pat, t);
            } else if reaches_pat(v, x.v_pat, t) {
                failing_pat(v, x.v_pat, t);
            } else {
                failing_expr(v, x.expr, t);
            }
        },
        Qualifier::Filter(x) => {
            failing_expr(v, x.expr, t);
        },
    }
}

/// Fail-fast law for a binary segment: when the walk hands the pass an
/// expression on which the pass fails, transforming the whole node fails.
pub proof fn failing_binary_elem<T, V: Transformer<T>>(v: V, n: BinaryElem, t: Expr)
    requires
        reaches_binary_elem(v, n, t),
        v.expr_step(t) is Err,
    ensures
        fails_binary_elem(v, n) is Some,
    decreases n, 1nat,
{
    failing_walk_binary_elem(v, n, t);
}

proof fn failing_walk_binary_elem<T, V: Transformer<T>>(v: V, n: BinaryElem, t: Expr)
    requires
        walk_reaches_binary_elem(v, n, t),
        v.expr_step(t) is Err,
    ensures
        walk_fails_binary_elem(v, n) is Some,
    decreases n, 0nat,
{
    if reaches_expr(v, n.expr, t) {
        failing_expr(v, n.expr, t);
    } else {
        failing_opt_expr(v, n.size, t);
    }
}

/// Fail-fast law for a binary pattern segment: when the walk hands the pass an
/// expression on which the pass fails, transforming the whole node fails.
pub proof fn failing_pat_binary_elem<T, V: Transformer<T>>(v: V, n: PatBinaryElem, t: Expr)
    requires
        reaches_pat_binary_elem(v, n, t),
        v.expr_step(t) is Err,
    ensures
        fails_pat_binary_elem(v, n) is Some,
    decreases n, 1nat,
{
    failing_walk_pat_binary_elem(v, n, t);
}

proof fn failing_walk_pat_binary_elem<T, V: Transformer<T>>(v: V, n: PatBinaryElem, t: Expr)
    requires
        walk_reaches_pat_binary_elem(v, n, t),
        v.expr_step(t) is Err,
    ensures
        walk_fails_pat_binary_elem(v, n) is Some,
    decreases n, 0nat,
{
    if reaches_pat(v, n.pat, t) {
        failing_pat(v, n.pat, t);
    } else {
        failing_opt_expr(v, n.size, t);
    }
}

/// Fail-fast law for a record construction field: when the walk hands the pass an
/// expression on which the pass fails, transforming the whole node fails.
pub proof fn failing_record_field<T, V: Transformer<T>>(v: V, n: RecordField, t: Expr)
    requires
        reaches_record_field(v, n, t),
        v.expr_step(t) is Err,
    ensures
        fails_record_field(v, n) is Some,
    decreases n, 1nat,
{
    failing_walk_record_field(v, n, t);
}

proof fn failing_walk_record_field<T, V: Transformer<T>>(v: V, n: RecordField, t: Expr)
    requires
        walk_reaches_record_field(v, n, t),
        v.expr_step(t) is Err,
    ensures
        walk_fails_record_field(v, n) is Some,
    decreases n, 0nat,
{
    match n {
        RecordField::RecordFieldGen(x) => {
            failing_expr(v, x.value, t);
        },
        RecordField::RecordFieldNamed(x) => {
            failing_expr(v, x.value, t);
        },
    }
}

proof fn failing_named_field<T, V: Transformer<T>>(v: V, n: RecordFieldNamed, t: Expr)
    requires
        reaches_named_field(v, n, t),
        v.expr_step(t) is Err,
    ensures
        fails_named_field(v, n) is Some,
    decreases n, 0nat,
{
    failing_expr(v, n.value, t);
}

proof fn failing_pat_named_field<T, V: Transformer<T>>(v: V, n: PatRecordFieldNamed, t: Expr)
    requires
        reaches_pat_named_field(v, n, t),
        v.expr_step(t) is Err,
    ensures
        fails_pat_named_field(v, n) is Some,
    decreases n, 0nat,
{
    failing_pat(v, n.pat, t);
}

proof fn failing_rec_field<T, V: Transformer<T>>(v: V, n: ExternalRecField, t: Expr)
    requires
        reaches_rec_field(v, n, t),
        v.expr_step(t) is Err,
    ensures
        fails_rec_field(v, n) is Some,
    decreases n, 0nat,
{
    failing_opt_expr(v, n.default_value, t);
}

proof fn failing_expr_pair<T, V: Transformer<T>>(v: V, n: (Expr, Expr), t: Expr)
    requires
        reaches_expr_pair(v, n, t),
        v.expr_step(t) is Err,
    ensures
        fails_expr_pair(v, n) is Some,
    decreases n, 0nat,
{
    if reaches_expr(v, n.0, t) {
        failing_expr(v, n.0, t);
    } else {
        failing_expr(v, n.1, t);
    }
}

proof fn failing_test_pat_pair<T, V: Transformer<T>>(v: V, n: (Test, Pat), t: Expr)
    requires
        reaches_test_pat_pair(v, n, t),
        v.expr_step(t) is Err,
    ensures
        fails_test_pat_pair(v, n) is Some,
    decreases n, 0nat,
{
    failing_pat(v, n.1, t);
}

proof fn failing_opt_expr<T, V: Transformer<T>>(v: V, o: Option<Expr>, t: Expr)
    requires
        reaches_opt_expr(v, o, t),
        v.expr_step(t) is Err,
    ensures
        fails_opt_expr(v, o) is Some,
    decreases o, 0nat,
{
    if let Some(n) = o {
        failing_expr(v, n, t);
    }
}

proof fn failing_opt_body<T, V: Transformer<T>>(v: V, o: Option<Body>, t: Expr)
    requires
        reaches_opt_body(v, o, t),
        v.expr_step(t) is Err,
    ensures
        fails_opt_body(v, o) is Some,
    decreases o, 0nat,
{
    if let Some(n) = o {
        failing_body(v, n, t);
    }
}

proof fn failing_opt_boxed_pat<T, V: Transformer<T>>(v: V, o: Option<Box<Pat>>, t: Expr)
    requires
        reaches_opt_boxed_pat(v, o, t),
        v.expr_step(t) is Err,
    ensures
        fails_opt_boxed_pat(v, o) is Some,
    decreases o, 0nat,
{
    if let Some(n) = o {
        failing_pat(v, *n, t);
    }
}

proof fn failing_forms<T, V: Transformer<T>>(v: V, s: Seq<ExternalForm>, t: Expr)
    requires
        reaches_forms(v, s, t),
        v.expr_step(t) is Err,
    ensures
        fails_forms(v, s) is Some,
    decreases s, 0nat,
{
    let i = choose|i: int| 0 <= i < s.len() && reaches_form(v, #[trigger] s[i], t);
    failing_form(v, s[i], t);
    failing_at_forms(v, s, i);
}

proof fn failing_at_forms<T, V: Transformer<T>>(v: V, s: Seq<ExternalForm>, i: int)
    requires
        0 <= i < s.len(),
        fails_form(v, s[i]) is Some,
    ensures
        fails_forms(v, s) is Some,
    decreases i,
{
    if i > 0 && fails_form(v, s[0]) is None {
        assert(s.drop_first()[i - 1] == s[i]);
        failing_at_forms(v, s.drop_first(), i - 1);
    }
}

proof fn failing_exprs<T, V: Transformer<T>>(v: V, s: Seq<Expr>, t: Expr)
    requires
        reaches_exprs(v, s, t),
        v.expr_step(t) is Err,
    ensures
        fails_exprs(v, s) is Some,
    decreases s, 0nat,
{
    let i = choose|i: int| 0 <= i < s.len() && reaches_expr(v, #[trigger] s[i], t);
    failing_expr(v, s[i], t);
    failing_at_exprs(v, s, i);
}

proof fn failing_at_exprs<T, V: Transformer<T>>(v: V, s: Seq<Expr>, i: int)
    requires
        0 <= i < s.len(),
        fails_expr(v, s[i]) is Some,
    ensures
        fails_exprs(v, s) is Some,
    decreases i,
{
    if i > 0 && fails_expr(v, s[0]) is None {
        assert(s.drop_first()[i - 1] == s[i]);
        failing_at_exprs(v, s.drop_first(), i - 1);
    }
}

proof fn failing_clauses<T, V: Transformer<T>>(v: V, s: Seq<Clause>, t: Expr)
    requires
        reaches_clauses(v, s, t),
        v.expr_step(t) is Err,
    ensures
        fails_clauses(v, s) is Some,
    decreases s, 0nat,
{
    let i = choose|i: int| 0 <= i < s.len() && reaches_clause(v, #[trigger] s[i], t);
    failing_clause(v, s[i], t);
    failing_at_clauses(v, s, i);
}

proof fn failing_at_clauses<T, V: Transformer<T>>(v: V, s: Seq<Clause>, i: int)
    requires
        0 <= i < s.len(),
        fails_clause(v, s[i]) is Some,
    ensures
        fails_clauses(v, s) is Some,
    decreases i,
{
    if i > 0 && fails_clause(v, s[0]) is None {
        assert(s.drop_first()[i - 1] == s[i]);
        failing_at_clauses(v, s.drop_first(), i - 1);
    }
}

proof fn failing_qualifiers<T, V: Transformer<T>>(v: V, s: Seq<Qualifier>, t: Expr)
    requires
        reaches_qualifiers(v, s, t),
        v.expr_step(t) is Err,
    ensures
        fails_qualifiers(v, s) is Some,
    decreases s, 0nat,
{
    let i = choose|i: int| 0 <= i < s.len() && reaches_qualifier(v, #[trigger] s[i], t);
    failing_qualifier(v, s[i], t);
    failing_at_qualifiers(v, s, i);
}

proof fn failing_at_qualifiers<T, V: Transformer<T>>(v: V, s: Seq<Qualifier>, i: int)
    requires
        0 <= i < s.len(),
        fails_qualifier(v, s[i]) is Some,
    ensures
        fails_qualifiers(v, s) is Some,
    decreases i,
{
    if i > 0 && fails_qualifier(v, s[0]) is None {
        assert(s.drop_first()[i - 1] == s[i]);
        failing_at_qualifiers(v, s.drop_first(), i - 1);
    }
}

proof fn failing_binary_elems<T, V: Transformer<T>>(v: V, s: Seq<BinaryElem>, t: Expr)
    requires
        reaches_binary_elems(v, s, t),
        v.expr_step(t) is Err,
    ensures
        fails_binary_elems(v, s) is Some,
    decreases s, 0nat,
{
    let i = choose|i: int| 0 <= i < s.len() && reaches_binary_elem(v, #[trigger] s[i], t);
    failing_binary_elem(v, s[i], t);
    failing_at_binary_elems(v, s, i);
}

proof fn failing_at_binary_elems<T, V: Transformer<T>>(v: V, s: Seq<BinaryElem>, i: int)
    requires
        0 <= i < s.len(),
        fails_binary_elem(v, s[i]) is Some,
    ensures
        fails_binary_elems(v, s) is Some,
    decreases i,
{
    if i > 0 && fails_binary_elem(v, s[0]) is None {
        assert(s.drop_first()[i - 1] == s[i]);
        failing_at_binary_elems(v, s.drop_first(), i - 1);
    }
}

proof fn failing_record_fields<T, V: Transformer<T>>(v: V, s: Seq<RecordField>, t: Expr)
    requires
        reaches_record_fields(v, s, t),
        v.expr_step(t) is Err,
    ensures
        fails_record_fields(v, s) is Some,
    decreases s, 0nat,
{
    let i = choose|i: int| 0 <= i < s.len() && reaches_record_field(v, #[trigger] s[i], t);
    failing_record_field(v, s[i], t);
    failing_at_record_fields(v, s, i);
}

proof fn failing_at_record_fields<T, V: Transformer<T>>(v: V, s: Seq<RecordField>, i: int)
    requires
        0 <= i < s.len(),
        fails_record_field(v, s[i]) is Some,
    ensures
        fails_record_fields(v, s) is Some,
    decreases i,
{
    if i > 0 && fails_record_field(v, s[0]) is None {
        assert(s.drop_first()[i - 1] == s[i]);
        failing_at_record_fields(v, s.drop_first(), i - 1);
    }
}

proof fn failing_named_fields<T, V: Transformer<T>>(v: V, s: Seq<RecordFieldNamed>, t: Expr)
    requires
        reaches_named_fields(v, s, t),
        v.expr_step(t) is Err,
    ensures
        fails_named_fields(v, s) is Some,
    decreases s, 0nat,
{
    let i = choose|i: int| 0 <= i < s.len() && reaches_named_field(v, #[trigger] s[i], t);
    failing_named_field(v, s[i], t);
    failing_at_named_fields(v, s, i);
}

proof fn failing_at_named_fields<T, V: Transformer<T>>(v: V, s: Seq<RecordFieldNamed>, i: int)
    requires
        0 <= i < s.len(),
        fails_named_field(v, s[i]) is Some,
    ensures
        fails_named_fields(v, s) is Some,
    decreases i,
{
    if i > 0 && fails_named_field(v, s[0]) is None {
        assert(s.drop_first()[i - 1] == s[i]);
        failing_at_named_fields(v, s.drop_first(), i - 1);
    }
}

proof fn failing_expr_pairs<T, V: Transformer<T>>(v: V, s: Seq<(Expr, Expr)>, t: Expr)
    requires
        reaches_expr_pairs(v, s, t),
        v.expr_step(t) is Err,
    ensures
        fails_expr_pairs(v, s) is Some,
    decreases s, 0nat,
{
    let i = choose|i: int| 0 <= i < s.len() && reaches_expr_pair(v, #[trigger] s[i], t);
    failing_expr_pair(v, s[i], t);
    failing_at_expr_pairs(v, s, i);
}

proof fn failing_at_expr_pairs<T, V: Transformer<T>>(v: V, s: Seq<(Expr, Expr)>, i: int)
    requires
        0 <= i < s.len(),
        fails_expr_pair(v, s[i]) is Some,
    ensures
        fails_expr_pairs(v, s) is Some,
    decreases i,
{
    if i > 0 && fails_expr_pair(v, s[0]) is None {
        assert(s.drop_first()[i - 1] == s[i]);
        failing_at_expr_pairs(v, s.drop_first(), i - 1);
    }
}

proof fn failing_pats<T, V: Transformer<T>>(v: V, s: Seq<Pat>, t: Expr)
    requires
        reaches_pats(v, s, t),
        v.expr_step(t) is Err,
    ensures
        fails_pats(v, s) is Some,
    decreases s, 0nat,
{
    let i = choose|i: int| 0 <= i < s.len() && reaches_pat(v, #[trigger] s[i], t);
    failing_pat(v, s[i], t);
    failing_at_pats(v, s, i);
}

proof fn failing_at_pats<T, V: Transformer<T>>(v: V, s: Seq<Pat>, i: int)
    requires
        0 <= i < s.len(),
        fails_pat(v, s[i]) is Some,
    ensures
        fails_pats(v, s) is Some,
    decreases i,
{
    if i > 0 && fails_pat(v, s[0]) is None {
        assert(s.drop_first()[i - 1] == s[i]);
        failing_at_pats(v, s.drop_first(), i - 1);
    }
}

proof fn failing_pat_named_fields<T, V: Transformer<T>>(v: V, s: Seq<PatRecordFieldNamed>, t: Expr)
    requires
        reaches_pat_named_fields(v, s, t),
        v.expr_step(t) is Err,
    ensures
        fails_pat_named_fields(v, s) is Some,
    decreases s, 0nat,
{
    let i = choose|i: int| 0 <= i < s.len() && reaches_pat_named_field(v, #[trigger] s[i], t);
    failing_pat_named_field(v, s[i], t);
    failing_at_pat_named_fields(v, s, i);
}

proof fn failing_at_pat_named_fields<T, V: Transformer<T>>(v: V, s: Seq<PatRecordFieldNamed>, i: int)
    requires
        0 <= i < s.len(),
        fails_pat_named_field(v, s[i]) is Some,
    ensures
        fails_pat_named_fields(v, s) is Some,
    decreases i,
{
    if i > 0 && fails_pat_named_field(v, s[0]) is None {
        assert(s.drop_first()[i - 1] == s[i]);
        failing_at_pat_named_fields(v, s.drop_first(), i - 1);
    }
}

proof fn failing_pat_binary_elems<T, V: Transformer<T>>(v: V, s: Seq<PatBinaryElem>, t: Expr)
    requires
        reaches_pat_binary_elems(v, s, t),
        v.expr_step(t) is Err,
    ensures
        fails_pat_binary_elems(v, s) is Some,
    decreases s, 0nat,
{
    let i = choose|i: int| 0 <= i < s.len() && reaches_pat_binary_elem(v, #[trigger] s[i], t);
    failing_pat_binary_elem(v, s[i], t);
    failing_at_pat_binary_elems(v, s, i);
}

proof fn failing_at_pat_binary_elems<T, V: Transformer<T>>(v: V, s: Seq<PatBinaryElem>, i: int)
    requires
        0 <= i < s.len(),
        fails_pat_binary_elem(v, s[i]) is Some,
    ensures
        fails_pat_binary_elems(v, s) is Some,
    decreases i,
{
    if i > 0 && fails_pat_binary_elem(v, s[0]) is None {
        assert(s.drop_first()[i - 1] == s[i]);
        failing_at_pat_binary_elems(v, s.drop_first(), i - 1);
    }
}

proof fn failing_test_pat_pairs<T, V: Transformer<T>>(v: V, s: Seq<(Test, Pat)>, t: Expr)
    requires
        reaches_test_pat_pairs(v, s, t),
        v.expr_step(t) is Err,
    ensures
        fails_test_pat_pairs(v, s) is Some,
    decreases s, 0nat,
{
    let i = choose|i: int| 0 <= i < s.len() && reaches_test_pat_pair(v, #[trigger] s[i], t);
    failing_test_pat_pair(v, s[i], t);
    failing_at_test_pat_pairs(v, s, i);
}

proof fn failing_at_test_pat_pairs<T, V: Transformer<T>>(v: V, s: Seq<(Test, Pat)>, i: int)
    requires
        0 <= i < s.len(),
        fails_test_pat_pair(v, s[i]) is Some,
    ensures
        fails_test_pat_pairs(v, s) is Some,
    decreases i,
{
    if i > 0 && fails_test_pat_pair(v, s[0]) is None {
        assert(s.drop_first()[i - 1] == s[i]);
        failing_at_test_pat_pairs(v, s.drop_first(), i - 1);
    }
}

proof fn failing_rec_fields<T, V: Transformer<T>>(v: V, s: Seq<ExternalRecField>, t: Expr)
    requires
        reaches_rec_fields(v, s, t),
        v.expr_step(t) is Err,
    ensures
        fails_rec_fields(v, s) is Some,
    decreases s, 0nat,
{
    let i = choose|i: int| 0 <= i < s.len() && reaches_rec_field(v, #[trigger] s[i], t);
    failing_rec_field(v, s[i], t);
    failing_at_rec_fields(v, s, i);
}

proof fn failing_at_rec_fields<T, V: Transformer<T>>(v: V, s: Seq<ExternalRecField>, i: int)
    requires
        0 <= i < s.len(),
        fails_rec_field(v, s[i]) is Some,
    ensures
        fails_rec_fields(v, s) is Some,
    decreases i,
{
    if i > 0 && fails_rec_field(v, s[0]) is None {
        assert(s.drop_first()[i - 1] == s[i]);
        failing_at_rec_fields(v, s.drop_first(), i - 1);
    }
}

proof fn failing_cons<T, V: Transformer<T>>(v: V, c: Cons, t: Expr)
    requires
        reaches_cons(v, c, t),
        v.expr_step(t) is Err,
    ensures
        fails_cons(v, c) is Some,
    decreases c, 0nat,
{
    if reaches_expr(v, *c.h, t) {
        failing_expr(v, *c.h, t);
    } else {
        match *c.t {
            Expr::Cons(rest) => failing_cons(v, rest, t),
            tail => failing_expr(v, tail, t),
        }
    }
}

/// Fail-fast law for a whole module: when the walk hands the pass an
/// expression on which it fails, transforming the module fails.
pub proof fn failing_module<T, V: Transformer<T>>(v: V, ast: Seq<ExternalForm>, t: Expr)
    requires
        reaches_forms(v, ast, t),
        v.expr_step(t) is Err,
    ensures
        fails_forms(v, ast) is Some,
{
    failing_forms(v, ast, t);
}

} // verus!
