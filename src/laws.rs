//! Laws of the transformation framework: identity, fail-fast and order
//! preservation, proved over the spec functions that the walks' contracts use.
use vstd::prelude::*;

use crate::ast::{
    BComprehension,
    BGenerate,
    BinOp,
    Binary,
    BinaryElem,
    Block,
    Body,
    Case,
    Catch,
    Clause,
    Cons,
    DynCall,
    DynRemoteFun,
    DynRemoteFunArity,
    Expr,
    ExternalForm,
    ExternalRecDecl,
    ExternalRecField,
    Filter,
    FunDecl,
    Guard,
    If,
    LComprehension,
    LGenerate,
    Lambda,
    LocalCall,
    MComprehension,
    MGenerate,
    MapCreate,
    MapUpdate,
    Match,
    Maybe,
    MaybeElse,
    MaybeMatch,
    Pat,
    PatBinOp,
    PatBinary,
    PatBinaryElem,
    PatCons,
    PatMap,
    PatMatch,
    PatRecord,
    PatRecordFieldNamed,
    PatTuple,
    PatUnOp,
    Qualifier,
    Receive,
    ReceiveWithTimeout,
    RecordCreate,
    RecordField,
    RecordFieldGen,
    RecordFieldNamed,
    RecordSelect,
    RecordUpdate,
    RemoteCall,
    Test,
    TestBinOp,
    TestCall,
    TestCons,
    TestMapCreate,
    TestMapUpdate,
    TestRecordCreate,
    TestRecordField,
    TestRecordFieldGen,
    TestRecordFieldNamed,
    TestRecordSelect,
    TestTuple,
    TestUnOp,
    TryCatchExpr,
    TryOfCatchExpr,
    Tuple,
    UnOp,
};

use crate::transform_spec::{
    fails_binary_elem,
    fails_binary_elems,
    fails_body,
    fails_clause,
    fails_clauses,
    fails_cons,
    fails_expr,
    fails_expr_pair,
    fails_expr_pairs,
    fails_exprs,
    fails_form,
    fails_forms,
    fails_guard,
    fails_guards,
    fails_named_field,
    fails_named_fields,
    fails_opt_body,
    fails_opt_boxed_pat,
    fails_opt_expr,
    fails_pat,
    fails_pat_binary_elem,
    fails_pat_binary_elems,
    fails_pat_named_field,
    fails_pat_named_fields,
    fails_pats,
    fails_qualifier,
    fails_qualifiers,
    fails_rec_field,
    fails_rec_fields,
    fails_record_field,
    fails_record_fields,
    fails_test,
    fails_test_pair,
    fails_test_pairs,
    fails_test_pat_pair,
    fails_test_pat_pairs,
    fails_test_record_field,
    fails_test_record_fields,
    fails_tests,
    rewrites_binary_elem,
    rewrites_binary_elems,
    rewrites_body,
    rewrites_clause,
    rewrites_clauses,
    rewrites_cons,
    rewrites_expr,
    rewrites_expr_pair,
    rewrites_expr_pairs,
    rewrites_exprs,
    rewrites_form,
    rewrites_forms,
    rewrites_guard,
    rewrites_guards,
    rewrites_named_field,
    rewrites_named_fields,
    rewrites_opt_body,
    rewrites_opt_boxed_pat,
    rewrites_opt_expr,
    rewrites_pat,
    rewrites_pat_binary_elem,
    rewrites_pat_binary_elems,
    rewrites_pat_named_field,
    rewrites_pat_named_fields,
    rewrites_pats,
    rewrites_qualifier,
    rewrites_qualifiers,
    rewrites_rec_field,
    rewrites_rec_fields,
    rewrites_record_field,
    rewrites_record_fields,
    rewrites_test,
    rewrites_test_pair,
    rewrites_test_pairs,
    rewrites_test_pat_pair,
    rewrites_test_pat_pairs,
    rewrites_test_record_field,
    rewrites_test_record_fields,
    rewrites_tests,
    walk_fails_binary_elem,
    walk_fails_body,
    walk_fails_clause,
    walk_fails_expr,
    walk_fails_form,
    walk_fails_guard,
    walk_fails_pat,
    walk_fails_pat_binary_elem,
    walk_fails_qualifier,
    walk_fails_record_field,
    walk_fails_test,
    walk_fails_test_record_field,
    walk_rewrites_binary_elem,
    walk_rewrites_body,
    walk_rewrites_clause,
    walk_rewrites_expr,
    walk_rewrites_form,
    walk_rewrites_guard,
    walk_rewrites_pat,
    walk_rewrites_pat_binary_elem,
    walk_rewrites_qualifier,
    walk_rewrites_record_field,
    walk_rewrites_test,
    walk_rewrites_test_record_field,
};
use crate::transformer::{Identity, Rewrite, Transformer};

verus! {

/// A pass that leaves every node of every category to the structural walk.
pub open spec fn walks_everywhere<T, V: Transformer<T>>(v: V) -> bool {
    &&& forall|n: Expr| #[trigger] v.expr_step(n) == Ok::<Rewrite<Expr>, T>(Rewrite::Walk(n))
    &&& forall|n: Pat| #[trigger] v.pat_step(n) == Ok::<Rewrite<Pat>, T>(Rewrite::Walk(n))
    &&& forall|n: Test| #[trigger] v.test_step(n) == Ok::<Rewrite<Test>, T>(Rewrite::Walk(n))
    &&& forall|n: ExternalForm| #[trigger] v.form_step(n) == Ok::<Rewrite<ExternalForm>, T>(Rewrite::Walk(n))
    &&& forall|n: Clause| #[trigger] v.clause_step(n) == Ok::<Rewrite<Clause>, T>(Rewrite::Walk(n))
    &&& forall|n: Body| #[trigger] v.body_step(n) == Ok::<Rewrite<Body>, T>(Rewrite::Walk(n))
    &&& forall|n: Guard| #[trigger] v.guard_step(n) == Ok::<Rewrite<Guard>, T>(Rewrite::Walk(n))
    &&& forall|n: Qualifier| #[trigger] v.qualifier_step(n) == Ok::<Rewrite<Qualifier>, T>(Rewrite::Walk(n))
    &&& forall|n: BinaryElem| #[trigger] v.binary_elem_step(n) == Ok::<Rewrite<BinaryElem>, T>(Rewrite::Walk(n))
    &&& forall|n: PatBinaryElem| #[trigger] v.pat_binary_elem_step(n) == Ok::<Rewrite<PatBinaryElem>, T>(Rewrite::Walk(n))
    &&& forall|n: RecordField| #[trigger] v.record_field_step(n) == Ok::<Rewrite<RecordField>, T>(Rewrite::Walk(n))
    &&& forall|n: TestRecordField| #[trigger] v.test_record_field_step(n) == Ok::<Rewrite<TestRecordField>, T>(Rewrite::Walk(n))
}

/// Identity law for an expression: with a pass that leaves every node to
/// the structural walk, the transformation does not fail, and the relation
/// that its result meets holds of the input itself: every node comes back with
/// the same variant, the same plain fields and the same children.
pub proof fn identity_expr<T, V: Transformer<T>>(v: V, n: Expr)
    requires
        walks_everywhere(v),
    ensures
        fails_expr(v, n) is None,
        rewrites_expr(v, n, n),
    decreases n, 1nat,
{
    identity_walk_expr(v, n);
}

proof fn identity_walk_expr<T, V: Transformer<T>>(v: V, n: Expr)
    requires
        walks_everywhere(v),
    ensures
        walk_fails_expr(v, n) is None,
        walk_rewrites_expr(v, n, n),
    decreases n, 0nat,
{
    match n {
        Expr::Block(x) => {
            identity_body(v, x.body);
        },
        Expr::Match(x) => {
            identity_pat(v, x.pat);
            identity_expr(v, *x.expr);
        },
        Expr::Tuple(x) => {
            identity_exprs(v, x.elems@);
        },
        Expr::Cons(x) => {
            identity_cons(v, x);
        },
        Expr::Case(x) => {
            identity_expr(v, *x.expr);
            identity_clauses(v, x.clauses@);
        },
        Expr::If(x) => {
            identity_clauses(v, x.clauses@);
        },
        Expr::LocalCall(x) => {
            identity_exprs(v, x.args@);
        },
        Expr::DynCall(x) => {
            identity_expr(v, *x.f);
            identity_exprs(v, x.args@);
        },
        Expr::RemoteCall(x) => {
            identity_exprs(v, x.args@);
        },
        Expr::DynRemoteFun(x) => {
            identity_expr(v, *x.module);
            identity_expr(v, *x.name);
        },
        Expr::DynRemoteFunArity(x) => {
            identity_expr(v, *x.module);
            identity_expr(v, *x.name);
            identity_expr(v, *x.arity);
        },
        Expr::Lambda(x) => {
            identity_clauses(v, x.clauses@);
        },
        Expr::UnOp(x) => {
            identity_expr(v, *x.arg);
        },
        Expr::BinOp(x) => {
            identity_expr(v, *x.arg_1);
            identity_expr(v, *x.arg_2);
        },
        Expr::LComprehension(x) => {
            identity_expr(v, *x.template);
            identity_qualifiers(v, x.qualifiers@);
        },
        Expr::BComprehension(x) => {
            identity_expr(v, *x.template);
            identity_qualifiers(v, x.qualifiers@);
        },
        Expr::MComprehension(x) => {
            identity_expr(v, *x.k_template);
            identity_expr(v, *x.v_template);
            identity_qualifiers(v, x.qualifiers@);
        },
        Expr::Binary(x) => {
            identity_binary_elems(v, x.elems@);
        },
        Expr::Catch(x) => {
            identity_expr(v, *x.expr);
        },
        Expr::TryCatchExpr(x) => {
            identity_body(v, x.try_body);
            identity_clauses(v, x.catch_clauses@);
            identity_opt_body(v, x.after_body);
        },
        Expr::TryOfCatchExpr(x) => {
            identity_body(v, x.try_body);
            identity_clauses(v, x.try_clauses@);
            identity_clauses(v, x.catch_clauses@);
            identity_opt_body(v, x.after_body);
        },
        Expr::Receive(x) => {
            identity_clauses(v, x.clauses@);
        },
        Expr::ReceiveWithTimeout(x) => {
            identity_clauses(v, x.clauses@);
            identity_expr(v, *x.timeout);
            identity_body(v, x.timeout_body);
        },
        Expr::RecordCreate(x) => {
            identity_record_fields(v, x.fields@);
        },
        Expr::RecordUpdate(x) => {
            identity_expr(v, *x.expr);
            identity_named_fields(v, x.fields@);
        },
        Expr::RecordSelect(x) => {
            identity_expr(v, *x.expr);
        },
        Expr::MapCreate(x) => {
            identity_expr_pairs(v, x.kvs@);
        },
        Expr::MapUpdate(x) => {
            identity_expr(v, *x.map);
            identity_expr_pairs(v, x.kvs@);
        },
        Expr::Maybe(x) => {
            identity_body(v, x.body);
        },
        Expr::MaybeElse(x) => {
            identity_body(v, x.body);
            identity_clauses(v, x.else_clauses@);
        },
        Expr::MaybeMatch(x) => {
            identity_pat(v, x.pat);
            identity_expr(v, *x.arg);
        },
        _ => {},
    }
}

/// Identity law for a pattern: with a pass that leaves every node to
/// the structural walk, the transformation does not fail, and the relation
/// that its result meets holds of the input itself: every node comes back with
/// the same variant, the same plain fields and the same children.
pub proof fn identity_pat<T, V: Transformer<T>>(v: V, n: Pat)
    requires
        walks_everywhere(v),
    ensures
        fails_pat(v, n) is None,
        rewrites_pat(v, n, n),
    decreases n, 1nat,
{
    identity_walk_pat(v, n);
}

proof fn identity_walk_pat<T, V: Transformer<T>>(v: V, n: Pat)
    requires
        walks_everywhere(v),
    ensures
        walk_fails_pat(v, n) is None,
        walk_rewrites_pat(v, n, n),
    decreases n, 0nat,
{
    match n {
        Pat::PatMatch(x) => {
            identity_pat(v, *x.pat);
            identity_pat(v, *x.arg);
        },
        Pat::PatTuple(x) => {
            identity_pats(v, x.elems@);
        },
        Pat::PatCons(x) => {
            identity_pat(v, *x.h);
            identity_pat(v, *x.t);
        },
        Pat::PatRecord(x) => {
            identity_pat_named_fields(v, x.fields@);
            identity_opt_boxed_pat(v, x.gen_pat);
        },
        Pat::PatUnOp(x) => {
            identity_pat(v, *x.arg);
        },
        Pat::PatBinOp(x) => {
            identity_pat(v, *x.arg_1);
            identity_pat(v, *x.arg_2);
        },
        Pat::PatBinary(x) => {
            identity_pat_binary_elems(v, x.elems@);
        },
        Pat::PatMap(x) => {
            identity_test_pat_pairs(v, x.kvs@);
        },
        _ => {},
    }
}

/// Identity law for a guard test: with a pass that leaves every node to
/// the structural walk, the transformation does not fail, and the relation
/// that its result meets holds of the input itself: every node comes back with
/// the same variant, the same plain fields and the same children.
pub proof fn identity_test<T, V: Transformer<T>>(v: V, n: Test)
    requires
        walks_everywhere(v),
    ensures
        fails_test(v, n) is None,
        rewrites_test(v, n, n),
    decreases n, 1nat,
{
    identity_walk_test(v, n);
}

proof fn identity_walk_test<T, V: Transformer<T>>(v: V, n: Test)
    requires
        walks_everywhere(v),
    ensures
        walk_fails_test(v, n) is None,
        walk_rewrites_test(v, n, n),
    decreases n, 0nat,
{
    match n {
        Test::TestTuple(x) => {
            identity_tests(v, x.elems@);
        },
        Test::TestCons(x) => {
            identity_test(v, *x.h);
            identity_test(v, *x.t);
        },
        Test::TestCall(x) => {
            identity_tests(v, x.args@);
        },
        Test::TestRecordCreate(x) => {
            identity_test_record_fields(v, x.fields@);
        },
        Test::TestRecordSelect(x) => {
            identity_test(v, *x.rec);
        },
        Test::TestMapCreate(x) => {
            identity_test_pairs(v, x.kvs@);
        },
        Test::TestMapUpdate(x) => {
            identity_test(v, *x.map);
            identity_test_pairs(v, x.kvs@);
        },
        Test::TestUnOp(x) => {
            identity_test(v, *x.arg);
        },
        Test::TestBinOp(x) => {
            identity_test(v, *x.arg_1);
            identity_test(v, *x.arg_2);
        },
        _ => {},
    }
}

/// Identity law for a form: with a pass that leaves every node to
/// the structural walk, the transformation does not fail, and the relation
/// that its result meets holds of the input itself: every node comes back with
/// the same variant, the same plain fields and the same children.
pub proof fn identity_form<T, V: Transformer<T>>(v: V, n: ExternalForm)
    requires
        walks_everywhere(v),
    ensures
        fails_form(v, n) is None,
        rewrites_form(v, n, n),
    decreases n, 1nat,
{
    identity_walk_form(v, n);
}

proof fn identity_walk_form<T, V: Transformer<T>>(v: V, n: ExternalForm)
    requires
        walks_everywhere(v),
    ensures
        walk_fails_form(v, n) is None,
        walk_rewrites_form(v, n, n),
    decreases n, 0nat,
{
    match n {
        ExternalForm::FunDecl(x) => {
            identity_clauses(v, x.clauses@);
        },
        ExternalForm::ExternalRecDecl(x) => {
            identity_rec_fields(v, x.fields@);
        },
        _ => {},
    }
}

/// Identity law for a clause: with a pass that leaves every node to
/// the structural walk, the transformation does not fail, and the relation
/// that its result meets holds of the input itself: every node comes back with
/// the same variant, the same plain fields and the same children.
pub proof fn identity_clause<T, V: Transformer<T>>(v: V, n: Clause)
    requires
        walks_everywhere(v),
    ensures
        fails_clause(v, n) is None,
        rewrites_clause(v, n, n),
    decreases n, 1nat,
{
    identity_walk_clause(v, n);
}

proof fn identity_walk_clause<T, V: Transformer<T>>(v: V, n: Clause)
    requires
        walks_everywhere(v),
    ensures
        walk_fails_clause(v, n) is None,
        walk_rewrites_clause(v, n, n),
    decreases n, 0nat,
{
    identity_pats(v, n.pats@);
    identity_guards(v, n.guards@);
    identity_body(v, n.body);
}

/// Identity law for a body: with a pass that leaves every node to
/// the structural walk, the transformation does not fail, and the relation
/// that its result meets holds of the input itself: every node comes back with
/// the same variant, the same plain fields and the same children.
pub proof fn identity_body<T, V: Transformer<T>>(v: V, n: Body)
    requires
        walks_everywhere(v),
    ensures
        fails_body(v, n) is None,
        rewrites_body(v, n, n),
    decreases n, 1nat,
{
    identity_walk_body(v, n);
}

proof fn identity_walk_body<T, V: Transformer<T>>(v: V, n: Body)
    requires
        walks_everywhere(v),
    ensures
        walk_fails_body(v, n) is None,
        walk_rewrites_body(v, n, n),
    decreases n, 0nat,
{
    identity_exprs(v, n.exprs@);
}

/// Identity law for a guard: with a pass that leaves every node to
/// the structural walk, the transformation does not fail, and the relation
/// that its result meets holds of the input itself: every node comes back with
/// the same variant, the same plain fields and the same children.
pub proof fn identity_guard<T, V: Transformer<T>>(v: V, n: Guard)
    requires
        walks_everywhere(v),
    ensures
        fails_guard(v, n) is None,
        rewrites_guard(v, n, n),
    decreases n, 1nat,
{
    identity_walk_guard(v, n);
}

proof fn identity_walk_guard<T, V: Transformer<T>>(v: V, n: Guard)
    requires
        walks_everywhere(v),
    ensures
        walk_fails_guard(v, n) is None,
        walk_rewrites_guard(v, n, n),
    decreases n, 0nat,
{
    identity_tests(v, n.tests@);
}

/// Identity law for a comprehension qualifier: with a pass that leaves every node to
/// the structural walk, the transformation does not fail, and the relation
/// that its result meets holds of the input itself: every node comes back with
/// the same variant, the same plain fields and the same children.
pub proof fn identity_qualifier<T, V: Transformer<T>>(v: V, n: Qualifier)
    requires
        walks_everywhere(v),
    ensures
        fails_qualifier(v, n) is None,
        rewrites_qualifier(v, n, n),
    decreases n, 1nat,
{
    identity_walk_qualifier(v, n);
}

proof fn identity_walk_qualifier<T, V: Transformer<T>>(v: V, n: Qualifier)
    requires
        walks_everywhere(v),
    ensures
        walk_fails_qualifier(v, n) is None,
        walk_rewrites_qualifier(v, n, n),
    decreases n, 0nat,
{
    match n {
        Qualifier::LGenerate(x) => {
            identity_pat(v, x.pat);
            identity_expr(v, x.expr);
        },
        Qualifier::BGenerate(x) => {
            identity_pat(v, x.pat);
            identity_expr(v, x.expr);
        },
        Qualifier::MGenerate(x) => {
            identity_pat(v, x.k_pat);
            identity_pat(v, x.v_pat);
            identity_expr(v, x.expr);
        },
        Qualifier::Filter(x) => {
            identity_expr(v, x.expr);
        },
    }
}

/// Identity law for a binary segment: with a pass that leaves every node to
/// the structural walk, the transformation does not fail, and the relation
/// that its result meets holds of the input itself: every node comes back with
/// the same variant, the same plain fields and the same children.
pub proof fn identity_binary_elem<T, V: Transformer<T>>(v: V, n: BinaryElem)
    requires
        walks_everywhere(v),
    ensures
        fails_binary_elem(v, n) is None,
        rewrites_binary_elem(v, n, n),
    decreases n, 1nat,
{
    identity_walk_binary_elem(v, n);
}

proof fn identity_walk_binary_elem<T, V: Transformer<T>>(v: V, n: BinaryElem)
    requires
        walks_everywhere(v),
    ensures
        walk_fails_binary_elem(v, n) is None,
        walk_rewrites_binary_elem(v, n, n),
    decreases n, 0nat,
{
    identity_expr(v, n.expr);
    identity_opt_expr(v, n.size);
}

/// Identity law for a binary pattern segment: with a pass that leaves every node to
/// the structural walk, the transformation does not fail, and the relation
/// that its result meets holds of the input itself: every node comes back with
/// the same variant, the same plain fields and the same children.
pub proof fn identity_pat_binary_elem<T, V: Transformer<T>>(v: V, n: PatBinaryElem)
    requires
        walks_everywhere(v),
    ensures
        fails_pat_binary_elem(v, n) is None,
        rewrites_pat_binary_elem(v, n, n),
    decreases n, 1nat,
{
    identity_walk_pat_binary_elem(v, n);
}

proof fn identity_walk_pat_binary_elem<T, V: Transformer<T>>(v: V, n: PatBinaryElem)
    requires
        walks_everywhere(v),
    ensures
        walk_fails_pat_binary_elem(v, n) is None,
        walk_rewrites_pat_binary_elem(v, n, n),
    decreases n, 0nat,
{
    identity_pat(v, n.pat);
    identity_opt_expr(v, n.size);
}

/// Identity law for a record construction field: with a pass that leaves every node to
/// the structural walk, the transformation does not fail, and the relation
/// that its result meets holds of the input itself: every node comes back with
/// the same variant, the same plain fields and the same children.
pub proof fn identity_record_field<T, V: Transformer<T>>(v: V, n: RecordField)
    requires
        walks_everywhere(v),
    ensures
        fails_record_field(v, n) is None,
        rewrites_record_field(v, n, n),
    decreases n, 1nat,
{
    identity_walk_record_field(v, n);
}

proof fn identity_walk_record_field<T, V: Transformer<T>>(v: V, n: RecordField)
    requires
        walks_everywhere(v),
    ensures
        walk_fails_record_field(v, n) is None,
        walk_rewrites_record_field(v, n, n),
    decreases n, 0nat,
{
    match n {
        RecordField::RecordFieldGen(x) => {
            identity_expr(v, x.value);
        },
        RecordField::RecordFieldNamed(x) => {
            identity_expr(v, x.value);
        },
    }
}

/// Identity law for a record field in a guard: with a pass that leaves every node to
/// the structural walk, the transformation does not fail, and the relation
/// that its result meets holds of the input itself: every node comes back with
/// the same variant, the same plain fields and the same children.
pub proof fn identity_test_record_field<T, V: Transformer<T>>(v: V, n: TestRecordField)
    requires
        walks_everywhere(v),
    ensures
        fails_test_record_field(v, n) is None,
        rewrites_test_record_field(v, n, n),
    decreases n, 1nat,
{
    identity_walk_test_record_field(v, n);
}

proof fn identity_walk_test_record_field<T, V: Transformer<T>>(v: V, n: TestRecordField)
    requires
        walks_everywhere(v),
    ensures
        walk_fails_test_record_field(v, n) is None,
        walk_rewrites_test_record_field(v, n, n),
    decreases n, 0nat,
{
    match n {
        TestRecordField::TestRecordFieldNamed(x) => {
            identity_test(v, x.value);
        },
        TestRecordField::TestRecordFieldGen(x) => {
            identity_test(v, x.value);
        },
    }
}

proof fn identity_named_field<T, V: Transformer<T>>(v: V, n: RecordFieldNamed)
    requires
        walks_everywhere(v),
    ensures
        fails_named_field(v, n) is None,
        rewrites_named_field(v, n, n),
    decreases n, 0nat,
{
    identity_expr(v, n.value);
}

proof fn identity_pat_named_field<T, V: Transformer<T>>(v: V, n: PatRecordFieldNamed)
    requires
        walks_everywhere(v),
    ensures
        fails_pat_named_field(v, n) is None,
        rewrites_pat_named_field(v, n, n),
    decreases n, 0nat,
{
    identity_pat(v, n.pat);
}

proof fn identity_rec_field<T, V: Transformer<T>>(v: V, n: ExternalRecField)
    requires
        walks_everywhere(v),
    ensures
        fails_rec_field(v, n) is None,
        rewrites_rec_field(v, n, n),
    decreases n, 0nat,
{
    identity_opt_expr(v, n.default_value);
}

proof fn identity_expr_pair<T, V: Transformer<T>>(v: V, n: (Expr, Expr))
    requires
        walks_everywhere(v),
    ensures
        fails_expr_pair(v, n) is None,
        rewrites_expr_pair(v, n, n),
    decreases n, 0nat,
{
    identity_expr(v, n.0);
    identity_expr(v, n.1);
}

proof fn identity_test_pat_pair<T, V: Transformer<T>>(v: V, n: (Test, Pat))
    requires
        walks_everywhere(v),
    ensures
        fails_test_pat_pair(v, n) is None,
        rewrites_test_pat_pair(v, n, n),
    decreases n, 0nat,
{
    identity_test(v, n.0);
    identity_pat(v, n.1);
}

proof fn identity_test_pair<T, V: Transformer<T>>(v: V, n: (Test, Test))
    requires
        walks_everywhere(v),
    ensures
        fails_test_pair(v, n) is None,
        rewrites_test_pair(v, n, n),
    decreases n, 0nat,
{
    identity_test(v, n.0);
    identity_test(v, n.1);
}

/// Identity law for a whole module: with a pass that leaves every node to
/// the walk, no form fails and every form comes back as it was, in order.
pub proof fn identity_forms<T, V: Transformer<T>>(v: V, s: Seq<ExternalForm>)
    requires
        walks_everywhere(v),
    ensures
        fails_forms(v, s) is None,
        rewrites_forms(v, s, s),
    decreases s, 0nat,
{
    if s.len() > 0 {
        identity_form(v, s[0]);
        identity_forms(v, s.drop_first());
    }
    assert forall|i: int| 0 <= i < s.len() implies rewrites_form(v, #[trigger] s[i], s[i]) by {
        identity_form(v, s[i]);
    }
}

proof fn identity_exprs<T, V: Transformer<T>>(v: V, s: Seq<Expr>)
    requires
        walks_everywhere(v),
    ensures
        fails_exprs(v, s) is None,
        rewrites_exprs(v, s, s),
    decreases s, 0nat,
{
    if s.len() > 0 {
        identity_expr(v, s[0]);
        identity_exprs(v, s.drop_first());
    }
    assert forall|i: int| 0 <= i < s.len() implies rewrites_expr(v, #[trigger] s[i], s[i]) by {
        identity_expr(v, s[i]);
    }
}

proof fn identity_clauses<T, V: Transformer<T>>(v: V, s: Seq<Clause>)
    requires
        walks_everywhere(v),
    ensures
        fails_clauses(v, s) is None,
        rewrites_clauses(v, s, s),
    decreases s, 0nat,
{
    if s.len() > 0 {
        identity_clause(v, s[0]);
        identity_clauses(v, s.drop_first());
    }
    assert forall|i: int| 0 <= i < s.len() implies rewrites_clause(v, #[trigger] s[i], s[i]) by {
        identity_clause(v, s[i]);
    }
}

proof fn identity_qualifiers<T, V: Transformer<T>>(v: V, s: Seq<Qualifier>)
    requires
        walks_everywhere(v),
    ensures
        fails_qualifiers(v, s) is None,
        rewrites_qualifiers(v, s, s),
    decreases s, 0nat,
{
    if s.len() > 0 {
        identity_qualifier(v, s[0]);
        identity_qualifiers(v, s.drop_first());
    }
    assert forall|i: int| 0 <= i < s.len() implies rewrites_qualifier(v, #[trigger] s[i], s[i]) by {
        identity_qualifier(v, s[i]);
    }
}

proof fn identity_binary_elems<T, V: Transformer<T>>(v: V, s: Seq<BinaryElem>)
    requires
        walks_everywhere(v),
    ensures
        fails_binary_elems(v, s) is None,
        rewrites_binary_elems(v, s, s),
    decreases s, 0nat,
{
    if s.len() > 0 {
        identity_binary_elem(v, s[0]);
        identity_binary_elems(v, s.drop_first());
    }
    assert forall|i: int| 0 <= i < s.len() implies rewrites_binary_elem(v, #[trigger] s[i], s[i]) by {
        identity_binary_elem(v, s[i]);
    }
}

proof fn identity_record_fields<T, V: Transformer<T>>(v: V, s: Seq<RecordField>)
    requires
        walks_everywhere(v),
    ensures
        fails_record_fields(v, s) is None,
        rewrites_record_fields(v, s, s),
    decreases s, 0nat,
{
    if s.len() > 0 {
        identity_record_field(v, s[0]);
        identity_record_fields(v, s.drop_first());
    }
    assert forall|i: int| 0 <= i < s.len() implies rewrites_record_field(v, #[trigger] s[i], s[i]) by {
        identity_record_field(v, s[i]);
    }
}

proof fn identity_named_fields<T, V: Transformer<T>>(v: V, s: Seq<RecordFieldNamed>)
    requires
        walks_everywhere(v),
    ensures
        fails_named_fields(v, s) is None,
        rewrites_named_fields(v, s, s),
    decreases s, 0nat,
{
    if s.len() > 0 {
        identity_named_field(v, s[0]);
        identity_named_fields(v, s.drop_first());
    }
    assert forall|i: int| 0 <= i < s.len() implies rewrites_named_field(v, #[trigger] s[i], s[i]) by {
        identity_named_field(v, s[i]);
    }
}

proof fn identity_expr_pairs<T, V: Transformer<T>>(v: V, s: Seq<(Expr, Expr)>)
    requires
        walks_everywhere(v),
    ensures
        fails_expr_pairs(v, s) is None,
        rewrites_expr_pairs(v, s, s),
    decreases s, 0nat,
{
    if s.len() > 0 {
        identity_expr_pair(v, s[0]);
        identity_expr_pairs(v, s.drop_first());
    }
    assert forall|i: int| 0 <= i < s.len() implies rewrites_expr_pair(v, #[trigger] s[i], s[i]) by {
        identity_expr_pair(v, s[i]);
    }
}

proof fn identity_pats<T, V: Transformer<T>>(v: V, s: Seq<Pat>)
    requires
        walks_everywhere(v),
    ensures
        fails_pats(v, s) is None,
        rewrites_pats(v, s, s),
    decreases s, 0nat,
{
    if s.len() > 0 {
        identity_pat(v, s[0]);
        identity_pats(v, s.drop_first());
    }
    assert forall|i: int| 0 <= i < s.len() implies rewrites_pat(v, #[trigger] s[i], s[i]) by {
        identity_pat(v, s[i]);
    }
}

proof fn identity_guards<T, V: Transformer<T>>(v: V, s: Seq<Guard>)
    requires
        walks_everywhere(v),
    ensures
        fails_guards(v, s) is None,
        rewrites_guards(v, s, s),
    decreases s, 0nat,
{
    if s.len() > 0 {
        identity_guard(v, s[0]);
        identity_guards(v, s.drop_first());
    }
    assert forall|i: int| 0 <= i < s.len() implies rewrites_guard(v, #[trigger] s[i], s[i]) by {
        identity_guard(v, s[i]);
    }
}

proof fn identity_tests<T, V: Transformer<T>>(v: V, s: Seq<Test>)
    requires
        walks_everywhere(v),
    ensures
        fails_tests(v, s) is None,
        rewrites_tests(v, s, s),
    decreases s, 0nat,
{
    if s.len() > 0 {
        identity_test(v, s[0]);
        identity_tests(v, s.drop_first());
    }
    assert forall|i: int| 0 <= i < s.len() implies rewrites_test(v, #[trigger] s[i], s[i]) by {
        identity_test(v, s[i]);
    }
}

proof fn identity_pat_named_fields<T, V: Transformer<T>>(v: V, s: Seq<PatRecordFieldNamed>)
    requires
        walks_everywhere(v),
    ensures
        fails_pat_named_fields(v, s) is None,
        rewrites_pat_named_fields(v, s, s),
    decreases s, 0nat,
{
    if s.len() > 0 {
        identity_pat_named_field(v, s[0]);
        identity_pat_named_fields(v, s.drop_first());
    }
    assert forall|i: int| 0 <= i < s.len() implies rewrites_pat_named_field(v, #[trigger] s[i], s[i]) by {
        identity_pat_named_field(v, s[i]);
    }
}

proof fn identity_pat_binary_elems<T, V: Transformer<T>>(v: V, s: Seq<PatBinaryElem>)
    requires
        walks_everywhere(v),
    ensures
        fails_pat_binary_elems(v, s) is None,
        rewrites_pat_binary_elems(v, s, s),
    decreases s, 0nat,
{
    if s.len() > 0 {
        identity_pat_binary_elem(v, s[0]);
        identity_pat_binary_elems(v, s.drop_first());
    }
    assert forall|i: int| 0 <= i < s.len() implies rewrites_pat_binary_elem(v, #[trigger] s[i], s[i]) by {
        identity_pat_binary_elem(v, s[i]);
    }
}

proof fn identity_test_pat_pairs<T, V: Transformer<T>>(v: V, s: Seq<(Test, Pat)>)
    requires
        walks_everywhere(v),
    ensures
        fails_test_pat_pairs(v, s) is None,
        rewrites_test_pat_pairs(v, s, s),
    decreases s, 0nat,
{
    if s.len() > 0 {
        identity_test_pat_pair(v, s[0]);
        identity_test_pat_pairs(v, s.drop_first());
    }
    assert forall|i: int| 0 <= i < s.len() implies rewrites_test_pat_pair(v, #[trigger] s[i], s[i]) by {
        identity_test_pat_pair(v, s[i]);
    }
}

proof fn identity_test_record_fields<T, V: Transformer<T>>(v: V, s: Seq<TestRecordField>)
    requires
        walks_everywhere(v),
    ensures
        fails_test_record_fields(v, s) is None,
        rewrites_test_record_fields(v, s, s),
    decreases s, 0nat,
{
    if s.len() > 0 {
        identity_test_record_field(v, s[0]);
        identity_test_record_fields(v, s.drop_first());
    }
    assert forall|i: int| 0 <= i < s.len() implies rewrites_test_record_field(v, #[trigger] s[i], s[i]) by {
        identity_test_record_field(v, s[i]);
    }
}

proof fn identity_test_pairs<T, V: Transformer<T>>(v: V, s: Seq<(Test, Test)>)
    requires
        walks_everywhere(v),
    ensures
        fails_test_pairs(v, s) is None,
        rewrites_test_pairs(v, s, s),
    decreases s, 0nat,
{
    if s.len() > 0 {
        identity_test_pair(v, s[0]);
        identity_test_pairs(v, s.drop_first());
    }
    assert forall|i: int| 0 <= i < s.len() implies rewrites_test_pair(v, #[trigger] s[i], s[i]) by {
        identity_test_pair(v, s[i]);
    }
}

proof fn identity_rec_fields<T, V: Transformer<T>>(v: V, s: Seq<ExternalRecField>)
    requires
        walks_everywhere(v),
    ensures
        fails_rec_fields(v, s) is None,
        rewrites_rec_fields(v, s, s),
    decreases s, 0nat,
{
    if s.len() > 0 {
        identity_rec_field(v, s[0]);
        identity_rec_fields(v, s.drop_first());
    }
    assert forall|i: int| 0 <= i < s.len() implies rewrites_rec_field(v, #[trigger] s[i], s[i]) by {
        identity_rec_field(v, s[i]);
    }
}

proof fn identity_opt_expr<T, V: Transformer<T>>(v: V, o: Option<Expr>)
    requires
        walks_everywhere(v),
    ensures
        fails_opt_expr(v, o) is None,
        rewrites_opt_expr(v, o, o),
    decreases o, 0nat,
{
    if let Some(n) = o {
        identity_expr(v, n);
    }
}

proof fn identity_opt_body<T, V: Transformer<T>>(v: V, o: Option<Body>)
    requires
        walks_everywhere(v),
    ensures
        fails_opt_body(v, o) is None,
        rewrites_opt_body(v, o, o),
    decreases o, 0nat,
{
    if let Some(n) = o {
        identity_body(v, n);
    }
}

proof fn identity_opt_boxed_pat<T, V: Transformer<T>>(v: V, o: Option<Box<Pat>>)
    requires
        walks_everywhere(v),
    ensures
        fails_opt_boxed_pat(v, o) is None,
        rewrites_opt_boxed_pat(v, o, o),
    decreases o, 0nat,
{
    if let Some(n) = o {
        identity_pat(v, *n);
    }
}

proof fn identity_cons<T, V: Transformer<T>>(v: V, c: Cons)
    requires
        walks_everywhere(v),
    ensures
        fails_cons(v, c) is None,
        rewrites_cons(v, c, Expr::Cons(c)),
    decreases c, 0nat,
{
    identity_expr(v, *c.h);
    match *c.t {
        Expr::Cons(rest) => identity_cons(v, rest),
        tail => identity_expr(v, tail),
    }
}

/// The `Identity` pass leaves every node of every category to the walk.
pub proof fn identity_walks_everywhere<T>()
    ensures
        walks_everywhere::<T, Identity>(Identity),
{
}

/// Fail-fast law for a list of expressions (a tuple, call arguments, a body):
/// when the pass fails on any one element, transforming the list fails, and
/// with the failure of the first element that fails.
pub proof fn fail_fast_exprs<T, V: Transformer<T>>(v: V, s: Seq<Expr>, i: int)
    requires
        0 <= i < s.len(),
        fails_expr(v, s[i]) is Some,
    ensures
        fails_exprs(v, s) is Some,
        exists|j: int|
            0 <= j <= i && fails_exprs(v, s) == fails_expr(v, #[trigger] s[j]) && forall|k: int|
                0 <= k < j ==> fails_expr(v, #[trigger] s[k]) is None,
    decreases i,
{
    if fails_expr(v, s[0]) is Some {
        assert(fails_exprs(v, s) == fails_expr(v, s[0]));
    } else {
        let rest = s.drop_first();
        fail_fast_exprs(v, rest, i - 1);
        let j = choose|j: int|
            0 <= j <= i - 1 && fails_exprs(v, rest) == fails_expr(v, #[trigger] rest[j]) && forall|k: int|
                0 <= k < j ==> fails_expr(v, #[trigger] rest[k]) is None;
        assert(s[j + 1] == rest[j]);
        assert forall|k: int| 0 <= k < j + 1 implies fails_expr(v, #[trigger] s[k]) is None by {
            if k > 0 {
                assert(s[k] == rest[k - 1]);
            }
        }
    }
}

/// Order preservation for a tuple that the pass leaves to the walk: the result
/// is a tuple with as many elements, each the transformation of the element at
/// the same place.
pub proof fn order_preserved_tuple<T, V: Transformer<T>>(v: V, e: Expr, m: Expr)
    requires
        e is Tuple,
        v.expr_step(e) == Ok::<Rewrite<Expr>, T>(Rewrite::Walk(e)),
        rewrites_expr(v, e, m),
    ensures
        m matches Expr::Tuple(y) && y.elems.len() == e->Tuple_0.elems.len() && forall|i: int|
            0 <= i < y.elems.len() ==> rewrites_expr(v, #[trigger] e->Tuple_0.elems[i], y.elems[i]),
{
    assert(walk_rewrites_expr(v, e, m));
}

/// Order preservation for the qualifiers of a list comprehension.
pub proof fn order_preserved_comprehension<T, V: Transformer<T>>(v: V, e: Expr, m: Expr)
    requires
        e is LComprehension,
        v.expr_step(e) == Ok::<Rewrite<Expr>, T>(Rewrite::Walk(e)),
        rewrites_expr(v, e, m),
    ensures
        m matches Expr::LComprehension(y) && y.qualifiers.len() == e->LComprehension_0.qualifiers.len()
            && forall|i: int|
            0 <= i < y.qualifiers.len() ==> rewrites_qualifier(
                v,
                #[trigger] e->LComprehension_0.qualifiers[i],
                y.qualifiers[i],
            ),
{
    assert(walk_rewrites_expr(v, e, m));
}

/// The clause lists of an expression, in field order.
pub open spec fn clause_lists(e: Expr) -> Seq<Seq<Clause>> {
    match e {
        Expr::Case(x) => seq![x.clauses@],
        Expr::If(x) => seq![x.clauses@],
        Expr::Lambda(x) => seq![x.clauses@],
        Expr::TryCatchExpr(x) => seq![x.catch_clauses@],
        Expr::TryOfCatchExpr(x) => seq![x.try_clauses@, x.catch_clauses@],
        Expr::Receive(x) => seq![x.clauses@],
        Expr::ReceiveWithTimeout(x) => seq![x.clauses@],
        Expr::MaybeElse(x) => seq![x.else_clauses@],
        _ => seq![],
    }
}

/// Order preservation for the clause lists of an expression (`case`, `if`,
/// `fun`, `try`, `receive`, `maybe ... else`) that the pass leaves to the
/// walk: the result has the same variant, and each of its clause lists is as
/// long as the one it comes from, each clause the transformation of the clause
/// at the same place.
pub proof fn order_preserved_clause_lists<T, V: Transformer<T>>(v: V, e: Expr, m: Expr)
    requires
        v.expr_step(e) == Ok::<Rewrite<Expr>, T>(Rewrite::Walk(e)),
        rewrites_expr(v, e, m),
    ensures
        clause_lists(m).len() == clause_lists(e).len(),
        forall|k: int|
            0 <= k < clause_lists(e).len() ==> #[trigger] clause_lists(m)[k].len() == clause_lists(e)[k].len()
                && forall|i: int|
                0 <= i < clause_lists(e)[k].len() ==> rewrites_clause(
                    v,
                    #[trigger] clause_lists(e)[k][i],
                    clause_lists(m)[k][i],
                ),
        e is Case ==> m is Case,
        e is If ==> m is If,
        e is Lambda ==> m is Lambda,
        e is TryCatchExpr ==> m is TryCatchExpr,
        e is TryOfCatchExpr ==> m is TryOfCatchExpr,
        e is Receive ==> m is Receive,
        e is ReceiveWithTimeout ==> m is ReceiveWithTimeout,
        e is MaybeElse ==> m is MaybeElse,
{
    assert(walk_rewrites_expr(v, e, m));
}

/// Order preservation for the clauses of a function declaration.
pub proof fn order_preserved_clauses<T, V: Transformer<T>>(v: V, f: ExternalForm, m: ExternalForm)
    requires
        f is FunDecl,
        v.form_step(f) == Ok::<Rewrite<ExternalForm>, T>(Rewrite::Walk(f)),
        rewrites_form(v, f, m),
    ensures
        m matches ExternalForm::FunDecl(y) && y.clauses.len() == f->FunDecl_0.clauses.len() && forall|i: int|
            0 <= i < y.clauses.len() ==> rewrites_clause(v, #[trigger] f->FunDecl_0.clauses[i], y.clauses[i]),
{
}

/// Order preservation for a whole module: as many forms, in the same order.
pub proof fn order_preserved_forms<T, V: Transformer<T>>(v: V, s: Seq<ExternalForm>, m: Seq<ExternalForm>)
    requires
        rewrites_forms(v, s, m),
    ensures
        m.len() == s.len(),
        forall|i: int| 0 <= i < s.len() ==> rewrites_form(v, #[trigger] s[i], m[i]),
{
}

} // verus!
