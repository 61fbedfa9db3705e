//! The transformation framework: a pass decides, node by node, whether to
//! keep walking, to put another node in place, or to fail; the walk functions
//! here do the exhaustive structural recursion and rebuild the tree.
use vstd::prelude::*;

use crate::ast::{
    AST,
    AtomLit,
    BComprehension,
    BGenerate,
    Behaviour,
    BinOp,
    Binary,
    BinaryElem,
    Block,
    Body,
    Case,
    Catch,
    Clause,
    CompileExportAll,
    Cons,
    DynCall,
    DynRemoteFun,
    DynRemoteFunArity,
    ElpMetadata,
    EqwalizerNowarnFunction,
    EqwalizerUnlimitedRefinement,
    Export,
    ExportType,
    Expr,
    ExternalCallback,
    ExternalForm,
    ExternalFunSpec,
    ExternalOpaqueDecl,
    ExternalOptionalCallbacks,
    ExternalRecDecl,
    ExternalRecField,
    ExternalTypeDecl,
    File,
    Filter,
    FloatLit,
    FunDecl,
    Guard,
    If,
    Import,
    IntLit,
    LComprehension,
    LGenerate,
    Lambda,
    LocalCall,
    LocalFun,
    Location,
    MComprehension,
    MGenerate,
    MapCreate,
    MapUpdate,
    Match,
    Maybe,
    MaybeElse,
    MaybeMatch,
    Module,
    NilLit,
    Pat,
    PatAtom,
    PatBinOp,
    PatBinary,
    PatBinaryElem,
    PatCons,
    PatInt,
    PatMap,
    PatMatch,
    PatNil,
    PatNumber,
    PatRecord,
    PatRecordFieldNamed,
    PatRecordIndex,
    PatString,
    PatTuple,
    PatUnOp,
    PatVar,
    PatWild,
    Qualifier,
    Receive,
    ReceiveWithTimeout,
    RecordCreate,
    RecordField,
    RecordFieldGen,
    RecordFieldNamed,
    RecordIndex,
    RecordSelect,
    RecordUpdate,
    RemoteCall,
    RemoteFun,
    StringLit,
    Test,
    TestAtom,
    TestBinOp,
    TestBinaryLit,
    TestCall,
    TestCons,
    TestMapCreate,
    TestMapUpdate,
    TestNil,
    TestNumber,
    TestRecordCreate,
    TestRecordField,
    TestRecordFieldGen,
    TestRecordFieldNamed,
    TestRecordIndex,
    TestRecordSelect,
    TestString,
    TestTuple,
    TestUnOp,
    TestVar,
    TryCatchExpr,
    TryOfCatchExpr,
    Tuple,
    TypingAttribute,
    UnOp,
    Var,
};
use crate::transform_spec::{
    cons_depth,
    fails_binary_elem,
    fails_binary_elems,
    fails_body,
    fails_clause,
    fails_clauses,
    fails_cons,
    fails_expr,
    fails_expr_pair,
    fails_expr_pairs,
    fails_exprs,
    fails_form,
    fails_forms,
    fails_guard,
    fails_guards,
    fails_named_field,
    fails_named_fields,
    fails_pat,
    fails_pat_binary_elem,
    fails_pat_binary_elems,
    fails_pat_named_field,
    fails_pat_named_fields,
    fails_pats,
    fails_qualifier,
    fails_qualifiers,
    fails_rec_field,
    fails_rec_fields,
    fails_record_field,
    fails_record_fields,
    fails_test,
    fails_test_pair,
    fails_test_pairs,
    fails_test_pat_pair,
    fails_test_pat_pairs,
    fails_test_record_field,
    fails_test_record_fields,
    fails_tests,
    rewrites_binary_elem,
    rewrites_binary_elems,
    rewrites_body,
    rewrites_clause,
    rewrites_clauses,
    rewrites_cons,
    rewrites_expr,
    rewrites_expr_pair,
    rewrites_expr_pairs,
    rewrites_exprs,
    rewrites_form,
    rewrites_forms,
    rewrites_guard,
    rewrites_guards,
    rewrites_named_field,
    rewrites_named_fields,
    rewrites_pat,
    rewrites_pat_binary_elem,
    rewrites_pat_binary_elems,
    rewrites_pat_named_field,
    rewrites_pat_named_fields,
    rewrites_pats,
    rewrites_qualifier,
    rewrites_qualifiers,
    rewrites_rec_field,
    rewrites_rec_fields,
    rewrites_record_field,
    rewrites_record_fields,
    rewrites_test,
    rewrites_test_pair,
    rewrites_test_pairs,
    rewrites_test_pat_pair,
    rewrites_test_pat_pairs,
    rewrites_test_record_field,
    rewrites_test_record_fields,
    rewrites_tests,
    walk_fails_binary_elem,
    walk_fails_body,
    walk_fails_clause,
    walk_fails_expr,
    walk_fails_form,
    walk_fails_guard,
    walk_fails_pat,
    walk_fails_pat_binary_elem,
    walk_fails_qualifier,
    walk_fails_record_field,
    walk_fails_test,
    walk_fails_test_record_field,
    walk_rewrites_binary_elem,
    walk_rewrites_body,
    walk_rewrites_clause,
    walk_rewrites_expr,
    walk_rewrites_form,
    walk_rewrites_guard,
    walk_rewrites_pat,
    walk_rewrites_pat_binary_elem,
    walk_rewrites_qualifier,
    walk_rewrites_record_field,
    walk_rewrites_test,
    walk_rewrites_test_record_field,
};

verus! {

/// What a pass decides for one node.
#[derive(Clone, Debug, PartialEq, Eq)]
pub enum Rewrite<N> {
    /// Leave the node, handed back unchanged, to the structural walk: its
    /// children are transformed and it is rebuilt with the same variant.
    Walk(N),
    /// Put this node in place of the one given, without walking into it.
    Replace(N),
}

/// A pass over the syntax tree, generic over its failure type `T`.
///
/// The walk asks the pass about every node it reaches, one method per
/// category, and hands it the node by value. A method returns
/// `Ok(Rewrite::Walk(node))`, giving the node back, to let the structural walk
/// transform its children and rebuild it; `Ok(Rewrite::Replace(n))` to put `n`
/// in place without walking into the node (`n` may be built from the node's
/// own parts); or `Err(t)` to stop the whole transformation. A pass implements
/// every method; those of the categories it leaves alone return
/// `Ok(Rewrite::Walk(node))`.
///
/// The spec function of each category (`expr_step` for `transform_expr`, and
/// so on) states the method's result as a function of the pass and the node.
/// Its default is `Walk(node)`, so a pass restates only those of the categories it
/// changes. The walks' contracts are stated over these spec functions.
pub trait Transformer<T>: Sized {
    /// The pass's decision for an expression.
    open spec fn expr_step(&self, node: Expr) -> Result<Rewrite<Expr>, T> {
        Ok(Rewrite::Walk(node))
    }

    /// The pass's decision for a pattern.
    open spec fn pat_step(&self, node: Pat) -> Result<Rewrite<Pat>, T> {
        Ok(Rewrite::Walk(node))
    }

    /// The pass's decision for a guard test.
    open spec fn test_step(&self, node: Test) -> Result<Rewrite<Test>, T> {
        Ok(Rewrite::Walk(node))
    }

    /// The pass's decision for a form.
    open spec fn form_step(&self, node: ExternalForm) -> Result<Rewrite<ExternalForm>, T> {
        Ok(Rewrite::Walk(node))
    }

    /// The pass's decision for a clause.
    open spec fn clause_step(&self, node: Clause) -> Result<Rewrite<Clause>, T> {
        Ok(Rewrite::Walk(node))
    }

    /// The pass's decision for a body.
    open spec fn body_step(&self, node: Body) -> Result<Rewrite<Body>, T> {
        Ok(Rewrite::Walk(node))
    }

    /// The pass's decision for a guard.
    open spec fn guard_step(&self, node: Guard) -> Result<Rewrite<Guard>, T> {
        Ok(Rewrite::Walk(node))
    }

    /// The pass's decision for a comprehension qualifier.
    open spec fn qualifier_step(&self, node: Qualifier) -> Result<Rewrite<Qualifier>, T> {
        Ok(Rewrite::Walk(node))
    }

    /// The pass's decision for a binary segment.
    open spec fn binary_elem_step(&self, node: BinaryElem) -> Result<Rewrite<BinaryElem>, T> {
        Ok(Rewrite::Walk(node))
    }

    /// The pass's decision for a binary pattern segment.
    open spec fn pat_binary_elem_step(&self, node: PatBinaryElem) -> Result<Rewrite<PatBinaryElem>, T> {
        Ok(Rewrite::Walk(node))
    }

    /// The pass's decision for a record construction field.
    open spec fn record_field_step(&self, node: RecordField) -> Result<Rewrite<RecordField>, T> {
        Ok(Rewrite::Walk(node))
    }

    /// The pass's decision for a record field in a guard.
    open spec fn test_record_field_step(&self, node: TestRecordField) -> Result<Rewrite<TestRecordField>, T> {
        Ok(Rewrite::Walk(node))
    }

    /// Decides what becomes of an expression.
    fn transform_expr(&self, node: Expr) -> (r: Result<Rewrite<Expr>, T>)
        ensures
            r == self.expr_step(node),
            r matches Ok(Rewrite::Walk(n)) ==> n == node,
    ;

    /// Decides what becomes of a pattern.
    fn transform_pat(&self, node: Pat) -> (r: Result<Rewrite<Pat>, T>)
        ensures
            r == self.pat_step(node),
            r matches Ok(Rewrite::Walk(n)) ==> n == node,
    ;

    /// Decides what becomes of a guard test.
    fn transform_test(&self, node: Test) -> (r: Result<Rewrite<Test>, T>)
        ensures
            r == self.test_step(node),
            r matches Ok(Rewrite::Walk(n)) ==> n == node,
    ;

    /// Decides what becomes of a form.
    fn transform_form(&self, node: ExternalForm) -> (r: Result<Rewrite<ExternalForm>, T>)
        ensures
            r == self.form_step(node),
            r matches Ok(Rewrite::Walk(n)) ==> n == node,
    ;

    /// Decides what becomes of a clause.
    fn transform_clause(&self, node: Clause) -> (r: Result<Rewrite<Clause>, T>)
        ensures
            r == self.clause_step(node),
            r matches Ok(Rewrite::Walk(n)) ==> n == node,
    ;

    /// Decides what becomes of a body.
    fn transform_body(&self, node: Body) -> (r: Result<Rewrite<Body>, T>)
        ensures
            r == self.body_step(node),
            r matches Ok(Rewrite::Walk(n)) ==> n == node,
    ;

    /// Decides what becomes of a guard.
    fn transform_guard(&self, node: Guard) -> (r: Result<Rewrite<Guard>, T>)
        ensures
            r == self.guard_step(node),
            r matches Ok(Rewrite::Walk(n)) ==> n == node,
    ;

    /// Decides what becomes of a comprehension qualifier.
    fn transform_qualifier(&self, node: Qualifier) -> (r: Result<Rewrite<Qualifier>, T>)
        ensures
            r == self.qualifier_step(node),
            r matches Ok(Rewrite::Walk(n)) ==> n == node,
    ;

    /// Decides what becomes of a binary segment.
    fn transform_binary_elem(&self, node: BinaryElem) -> (r: Result<Rewrite<BinaryElem>, T>)
        ensures
            r == self.binary_elem_step(node),
            r matches Ok(Rewrite::Walk(n)) ==> n == node,
    ;

    /// Decides what becomes of a binary pattern segment.
    fn transform_pat_binary_elem(&self, node: PatBinaryElem) -> (r: Result<Rewrite<PatBinaryElem>, T>)
        ensures
            r == self.pat_binary_elem_step(node),
            r matches Ok(Rewrite::Walk(n)) ==> n == node,
    ;

    /// Decides what becomes of a record construction field.
    fn transform_record_field(&self, node: RecordField) -> (r: Result<Rewrite<RecordField>, T>)
        ensures
            r == self.record_field_step(node),
            r matches Ok(Rewrite::Walk(n)) ==> n == node,
    ;

    /// Decides what becomes of a record field in a guard.
    fn transform_test_record_field(&self, node: TestRecordField) -> (r: Result<Rewrite<TestRecordField>, T>)
        ensures
            r == self.test_record_field_step(node),
            r matches Ok(Rewrite::Walk(n)) ==> n == node,
    ;
}

/// The pass that leaves every node to the structural walk.
pub struct Identity;

impl<T> Transformer<T> for Identity {
    fn transform_expr(&self, node: Expr) -> (r: Result<Rewrite<Expr>, T>) {
        Ok(Rewrite::Walk(node))
    }

    fn transform_pat(&self, node: Pat) -> (r: Result<Rewrite<Pat>, T>) {
        Ok(Rewrite::Walk(node))
    }

    fn transform_test(&self, node: Test) -> (r: Result<Rewrite<Test>, T>) {
        Ok(Rewrite::Walk(node))
    }

    fn transform_form(&self, node: ExternalForm) -> (r: Result<Rewrite<ExternalForm>, T>) {
        Ok(Rewrite::Walk(node))
    }

    fn transform_clause(&self, node: Clause) -> (r: Result<Rewrite<Clause>, T>) {
        Ok(Rewrite::Walk(node))
    }

    fn transform_body(&self, node: Body) -> (r: Result<Rewrite<Body>, T>) {
        Ok(Rewrite::Walk(node))
    }

    fn transform_guard(&self, node: Guard) -> (r: Result<Rewrite<Guard>, T>) {
        Ok(Rewrite::Walk(node))
    }

    fn transform_qualifier(&self, node: Qualifier) -> (r: Result<Rewrite<Qualifier>, T>) {
        Ok(Rewrite::Walk(node))
    }

    fn transform_binary_elem(&self, node: BinaryElem) -> (r: Result<Rewrite<BinaryElem>, T>) {
        Ok(Rewrite::Walk(node))
    }

    fn transform_pat_binary_elem(&self, node: PatBinaryElem) -> (r: Result<Rewrite<PatBinaryElem>, T>) {
        Ok(Rewrite::Walk(node))
    }

    fn transform_record_field(&self, node: RecordField) -> (r: Result<Rewrite<RecordField>, T>) {
        Ok(Rewrite::Walk(node))
    }

    fn transform_test_record_field(&self, node: TestRecordField) -> (r: Result<Rewrite<TestRecordField>, T>) {
        Ok(Rewrite::Walk(node))
    }
}

/// Transforms a whole module, form by form, in order.
pub fn transform_ast<T, V: Transformer<T>>(transformer: &V, ast: AST) -> (r: Result<AST, T>)
    ensures
        r matches Ok(m) ==> fails_forms(*transformer, ast@) is None && rewrites_forms(*transformer, ast@, m@),
        r matches Err(t) ==> fails_forms(*transformer, ast@) == Some(t),
{
    visit_forms(transformer, ast)
}

/// Transforms an expression: asks the pass, then walks where it says so.
pub fn visit_expr<T, V: Transformer<T>>(transformer: &V, node: Expr) -> (r: Result<Expr, T>)
    ensures
        r matches Ok(m) ==> fails_expr(*transformer, node) is None && rewrites_expr(*transformer, node, m),
        r matches Err(t) ==> fails_expr(*transformer, node) == Some(t),
    decreases node, 1nat,
{
    match transformer.transform_expr(node) {
        Err(t) => Err(t),
        Ok(Rewrite::Replace(m)) => Ok(m),
        Ok(Rewrite::Walk(n)) => walk_expr(transformer, n),
    }
}

/// The structural walk of an expression: each child is transformed, left to
/// right, and the node is rebuilt; the first failure stops the walk.
pub fn walk_expr<T, V: Transformer<T>>(transformer: &V, node: Expr) -> (r: Result<Expr, T>)
    ensures
        r matches Ok(m) ==> walk_fails_expr(*transformer, node) is None && walk_rewrites_expr(*transformer, node, m),
        r matches Err(t) ==> walk_fails_expr(*transformer, node) == Some(t),
    decreases node, 0nat,
{
    match node {
        Expr::Var(x) => Ok(Expr::Var(x)),
        Expr::AtomLit(x) => Ok(Expr::AtomLit(x)),
        Expr::IntLit(x) => Ok(Expr::IntLit(x)),
        Expr::FloatLit(x) => Ok(Expr::FloatLit(x)),
        Expr::Block(x) => {
            let body = visit_body(transformer, x.body)?;
            Ok(Expr::Block(Block { location: x.location, body }))
        },
        Expr::Match(x) => {
            let pat = visit_pat(transformer, x.pat)?;
            let expr = visit_expr(transformer, *x.expr)?;
            Ok(Expr::Match(Match { location: x.location, pat, expr: Box::new(expr) }))
        },
        Expr::Tuple(x) => {
            let elems = visit_exprs(transformer, x.elems)?;
            Ok(Expr::Tuple(Tuple { location: x.location, elems }))
        },
        Expr::StringLit(x) => Ok(Expr::StringLit(x)),
        Expr::NilLit(x) => Ok(Expr::NilLit(x)),
        Expr::Cons(x) => walk_cons(transformer, x),
        Expr::Case(x) => {
            let expr = visit_expr(transformer, *x.expr)?;
            let clauses = visit_clauses(transformer, x.clauses)?;
            Ok(Expr::Case(Case { location: x.location, expr: Box::new(expr), clauses }))
        },
        Expr::If(x) => {
            let clauses = visit_clauses(transformer, x.clauses)?;
            Ok(Expr::If(If { location: x.location, clauses }))
        },
        Expr::LocalCall(x) => {
            let args = visit_exprs(transformer, x.args)?;
            Ok(Expr::LocalCall(LocalCall { location: x.location, id: x.id, args }))
        },
        Expr::DynCall(x) => {
            let f = visit_expr(transformer, *x.f)?;
            let args = visit_exprs(transformer, x.args)?;
            Ok(Expr::DynCall(DynCall { location: x.location, f: Box::new(f), args }))
        },
        Expr::RemoteCall(x) => {
            let args = visit_exprs(transformer, x.args)?;
            Ok(Expr::RemoteCall(RemoteCall { location: x.location, id: x.id, args }))
        },
        Expr::LocalFun(x) => Ok(Expr::LocalFun(x)),
        Expr::RemoteFun(x) => Ok(Expr::RemoteFun(x)),
        Expr::DynRemoteFun(x) => {
            let module = visit_expr(transformer, *x.module)?;
            let name = visit_expr(transformer, *x.name)?;
            Ok(Expr::DynRemoteFun(DynRemoteFun {
                location: x.location,
                module: Box::new(module),
                name: Box::new(name),
            }))
        },
        Expr::DynRemoteFunArity(x) => {
            let module = visit_expr(transformer, *x.module)?;
            let name = visit_expr(transformer, *x.name)?;
            let arity = visit_expr(transformer, *x.arity)?;
            Ok(Expr::DynRemoteFunArity(DynRemoteFunArity {
                location: x.location,
                module: Box::new(module),
                name: Box::new(name),
                arity: Box::new(arity),
            }))
        },
        Expr::Lambda(x) => {
            let clauses = visit_clauses(transformer, x.clauses)?;
            Ok(Expr::Lambda(Lambda { location: x.location, clauses, name: x.name }))
        },
        Expr::UnOp(x) => {
            let arg = visit_expr(transformer, *x.arg)?;
            Ok(Expr::UnOp(UnOp { location: x.location, op: x.op, arg: Box::new(arg) }))
        },
        Expr::BinOp(x) => {
            let arg_1 = visit_expr(transformer, *x.arg_1)?;
            let arg_2 = visit_expr(transformer, *x.arg_2)?;
            Ok(Expr::BinOp(BinOp {
                location: x.location,
                op: x.op,
                arg_1: Box::new(arg_1),
                arg_2: Box::new(arg_2),
            }))
        },
        Expr::LComprehension(x) => {
            let template = visit_expr(transformer, *x.template)?;
            let qualifiers = visit_qualifiers(transformer, x.qualifiers)?;
            Ok(Expr::LComprehension(LComprehension {
                location: x.location,
                template: Box::new(template),
                qualifiers,
            }))
        },
        Expr::BComprehension(x) => {
            let template = visit_expr(transformer, *x.template)?;
            let qualifiers = visit_qualifiers(transformer, x.qualifiers)?;
            Ok(Expr::BComprehension(BComprehension {
                location: x.location,
                template: Box::new(template),
                qualifiers,
            }))
        },
        Expr::MComprehension(x) => {
            let k_template = visit_expr(transformer, *x.k_template)?;
            let v_template = visit_expr(transformer, *x.v_template)?;
            let qualifiers = visit_qualifiers(transformer, x.qualifiers)?;
            Ok(Expr::MComprehension(MComprehension {
                location: x.location,
                k_template: Box::new(k_template),
                v_template: Box::new(v_template),
                qualifiers,
            }))
        },
        Expr::Binary(x) => {
            let elems = visit_binary_elems(transformer, x.elems)?;
            Ok(Expr::Binary(Binary { location: x.location, elems }))
        },
        Expr::Catch(x) => {
            let expr = visit_expr(transformer, *x.expr)?;
            Ok(Expr::Catch(Catch { location: x.location, expr: Box::new(expr) }))
        },
        Expr::TryCatchExpr(x) => {
            let try_body = visit_body(transformer, x.try_body)?;
            let catch_clauses = visit_clauses(transformer, x.catch_clauses)?;
            let after_body = match x.after_body {
                Some(o) => Some(visit_body(transformer, o)?),
                None => None,
            };
            Ok(Expr::TryCatchExpr(TryCatchExpr {
                location: x.location,
                try_body,
                catch_clauses,
                after_body,
            }))
        },
        Expr::TryOfCatchExpr(x) => {
            let try_body = visit_body(transformer, x.try_body)?;
            let try_clauses = visit_clauses(transformer, x.try_clauses)?;
            let catch_clauses = visit_clauses(transformer, x.catch_clauses)?;
            let after_body = match x.after_body {
                Some(o) => Some(visit_body(transformer, o)?),
                None => None,
            };
            Ok(Expr::TryOfCatchExpr(TryOfCatchExpr {
                location: x.location,
                try_body,
                try_clauses,
                catch_clauses,
                after_body,
            }))
        },
        Expr::Receive(x) => {
            let clauses = visit_clauses(transformer, x.clauses)?;
            Ok(Expr::Receive(Receive { location: x.location, clauses }))
        },
        Expr::ReceiveWithTimeout(x) => {
            let clauses = visit_clauses(transformer, x.clauses)?;
            let timeout = visit_expr(transformer, *x.timeout)?;
            let timeout_body = visit_body(transformer, x.timeout_body)?;
            Ok(Expr::ReceiveWithTimeout(ReceiveWithTimeout {
                location: x.location,
                clauses,
                timeout: Box::new(timeout),
                timeout_body,
            }))
        },
        Expr::RecordCreate(x) => {
            let fields = visit_record_fields(transformer, x.fields)?;
            Ok(Expr::RecordCreate(RecordCreate {
                location: x.location,
                rec_name: x.rec_name,
                fields,
            }))
        },
        Expr::RecordUpdate(x) => {
            let expr = visit_expr(transformer, *x.expr)?;
            let fields = visit_named_fields(transformer, x.fields)?;
            Ok(Expr::RecordUpdate(RecordUpdate {
                location: x.location,
                rec_name: x.rec_name,
                expr: Box::new(expr),
                fields,
            }))
        },
        Expr::RecordSelect(x) => {
            let expr = visit_expr(transformer, *x.expr)?;
            Ok(Expr::RecordSelect(RecordSelect {
                location: x.location,
                rec_name: x.rec_name,
                field_name: x.field_name,
                expr: Box::new(expr),
            }))
        },
        Expr::RecordIndex(x) => Ok(Expr::RecordIndex(x)),
        Expr::MapCreate(x) => {
            let kvs = visit_expr_pairs(transformer, x.kvs)?;
            Ok(Expr::MapCreate(MapCreate { location: x.location, kvs }))
        },
        Expr::MapUpdate(x) => {
            let map = visit_expr(transformer, *x.map)?;
            let kvs = visit_expr_pairs(transformer, x.kvs)?;
            Ok(Expr::MapUpdate(MapUpdate { location: x.location, map: Box::new(map), kvs }))
        },
        Expr::Maybe(x) => {
            let body = visit_body(transformer, x.body)?;
            Ok(Expr::Maybe(Maybe { location: x.location, body }))
        },
        Expr::MaybeElse(x) => {
            let body = visit_body(transformer, x.body)?;
            let else_clauses = visit_clauses(transformer, x.else_clauses)?;
            Ok(Expr::MaybeElse(MaybeElse { location: x.location, body, else_clauses }))
        },
        Expr::MaybeMatch(x) => {
            let pat = visit_pat(transformer, x.pat)?;
            let arg = visit_expr(transformer, *x.arg)?;
            Ok(Expr::MaybeMatch(MaybeMatch { location: x.location, pat, arg: Box::new(arg) }))
        },
    }
}

/// Transforms a pattern: asks the pass, then walks where it says so.
pub fn visit_pat<T, V: Transformer<T>>(transformer: &V, node: Pat) -> (r: Result<Pat, T>)
    ensures
        r matches Ok(m) ==> fails_pat(*transformer, node) is None && rewrites_pat(*transformer, node, m),
        r matches Err(t) ==> fails_pat(*transformer, node) == Some(t),
    decreases node, 1nat,
{
    match transformer.transform_pat(node) {
        Err(t) => Err(t),
        Ok(Rewrite::Replace(m)) => Ok(m),
        Ok(Rewrite::Walk(n)) => walk_pat(transformer, n),
    }
}

/// The structural walk of a pattern: each child is transformed, left to
/// right, and the node is rebuilt; the first failure stops the walk.
pub fn walk_pat<T, V: Transformer<T>>(transformer: &V, node: Pat) -> (r: Result<Pat, T>)
    ensures
        r matches Ok(m) ==> walk_fails_pat(*transformer, node) is None && walk_rewrites_pat(*transformer, node, m),
        r matches Err(t) ==> walk_fails_pat(*transformer, node) == Some(t),
    decreases node, 0nat,
{
    match node {
        Pat::PatWild(x) => Ok(Pat::PatWild(x)),
        Pat::PatMatch(x) => {
            let pat = visit_pat(transformer, *x.pat)?;
            let arg = visit_pat(transformer, *x.arg)?;
            Ok(Pat::PatMatch(PatMatch {
                location: x.location,
                pat: Box::new(pat),
                arg: Box::new(arg),
            }))
        },
        Pat::PatTuple(x) => {
            let elems = visit_pats(transformer, x.elems)?;
            Ok(Pat::PatTuple(PatTuple { location: x.location, elems }))
        },
        Pat::PatString(x) => Ok(Pat::PatString(x)),
        Pat::PatNil(x) => Ok(Pat::PatNil(x)),
        Pat::PatCons(x) => {
            let h = visit_pat(transformer, *x.h)?;
            let t = visit_pat(transformer, *x.t)?;
            Ok(Pat::PatCons(PatCons { location: x.location, h: Box::new(h), t: Box::new(t) }))
        },
        Pat::PatInt(x) => Ok(Pat::PatInt(x)),
        Pat::PatNumber(x) => Ok(Pat::PatNumber(x)),
        Pat::PatAtom(x) => Ok(Pat::PatAtom(x)),
        Pat::PatVar(x) => Ok(Pat::PatVar(x)),
        Pat::PatRecord(x) => {
            let fields = visit_pat_named_fields(transformer, x.fields)?;
            let gen_pat = match x.gen_pat {
                Some(o) => Some(Box::new(visit_pat(transformer, *o)?)),
                None => None,
            };
            Ok(Pat::PatRecord(PatRecord {
                location: x.location,
                rec_name: x.rec_name,
                fields,
                gen_pat,
            }))
        },
        Pat::PatRecordIndex(x) => Ok(Pat::PatRecordIndex(x)),
        Pat::PatUnOp(x) => {
            let arg = visit_pat(transformer, *x.arg)?;
            Ok(Pat::PatUnOp(PatUnOp { location: x.location, op: x.op, arg: Box::new(arg) }))
        },
        Pat::PatBinOp(x) => {
            let arg_1 = visit_pat(transformer, *x.arg_1)?;
            let arg_2 = visit_pat(transformer, *x.arg_2)?;
            Ok(Pat::PatBinOp(PatBinOp {
                location: x.location,
                op: x.op,
                arg_1: Box::new(arg_1),
                arg_2: Box::new(arg_2),
            }))
        },
        Pat::PatBinary(x) => {
            let elems = visit_pat_binary_elems(transformer, x.elems)?;
            Ok(Pat::PatBinary(PatBinary { location: x.location, elems }))
        },
        Pat::PatMap(x) => {
            let kvs = visit_test_pat_pairs(transformer, x.kvs)?;
            Ok(Pat::PatMap(PatMap { location: x.location, kvs }))
        },
    }
}

/// Transforms a guard test: asks the pass, then walks where it says so.
pub fn visit_test<T, V: Transformer<T>>(transformer: &V, node: Test) -> (r: Result<Test, T>)
    ensures
        r matches Ok(m) ==> fails_test(*transformer, node) is None && rewrites_test(*transformer, node, m),
        r matches Err(t) ==> fails_test(*transformer, node) == Some(t),
    decreases node, 1nat,
{
    match transformer.transform_test(node) {
        Err(t) => Err(t),
        Ok(Rewrite::Replace(m)) => Ok(m),
        Ok(Rewrite::Walk(n)) => walk_test(transformer, n),
    }
}

/// The structural walk of a guard test: each child is transformed, left to
/// right, and the node is rebuilt; the first failure stops the walk.
pub fn walk_test<T, V: Transformer<T>>(transformer: &V, node: Test) -> (r: Result<Test, T>)
    ensures
        r matches Ok(m) ==> walk_fails_test(*transformer, node) is None && walk_rewrites_test(*transformer, node, m),
        r matches Err(t) ==> walk_fails_test(*transformer, node) == Some(t),
    decreases node, 0nat,
{
    match node {
        Test::TestVar(x) => Ok(Test::TestVar(x)),
        Test::TestAtom(x) => Ok(Test::TestAtom(x)),
        Test::TestNumber(x) => Ok(Test::TestNumber(x)),
        Test::TestTuple(x) => {
            let elems = visit_tests(transformer, x.elems)?;
            Ok(Test::TestTuple(TestTuple { location: x.location, elems }))
        },
        Test::TestString(x) => Ok(Test::TestString(x)),
        Test::TestNil(x) => Ok(Test::TestNil(x)),
        Test::TestCons(x) => {
            let h = visit_test(transformer, *x.h)?;
            let t = visit_test(transformer, *x.t)?;
            Ok(Test::TestCons(TestCons {
                location: x.location,
                h: Box::new(h),
                t: Box::new(t),
            }))
        },
        Test::TestCall(x) => {
            let args = visit_tests(transformer, x.args)?;
            Ok(Test::TestCall(TestCall { location: x.location, id: x.id, args }))
        },
        Test::TestRecordCreate(x) => {
            let fields = visit_test_record_fields(transformer, x.fields)?;
            Ok(Test::TestRecordCreate(TestRecordCreate {
                location: x.location,
                rec_name: x.rec_name,
                fields,
            }))
        },
        Test::TestRecordSelect(x) => {
            let rec = visit_test(transformer, *x.rec)?;
            Ok(Test::TestRecordSelect(TestRecordSelect {
                location: x.location,
                rec: Box::new(rec),
                rec_name: x.rec_name,
                field_name: x.field_name,
            }))
        },
        Test::TestRecordIndex(x) => Ok(Test::TestRecordIndex(x)),
        Test::TestMapCreate(x) => {
            let kvs = visit_test_pairs(transformer, x.kvs)?;
            Ok(Test::TestMapCreate(TestMapCreate { location: x.location, kvs }))
        },
        Test::TestMapUpdate(x) => {
            let map = visit_test(transformer, *x.map)?;
            let kvs = visit_test_pairs(transformer, x.kvs)?;
            Ok(Test::TestMapUpdate(TestMapUpdate { location: x.location, map: Box::new(map), kvs }))
        },
        Test::TestUnOp(x) => {
            let arg = visit_test(transformer, *x.arg)?;
            Ok(Test::TestUnOp(TestUnOp { location: x.location, op: x.op, arg: Box::new(arg) }))
        },
        Test::TestBinOp(x) => {
            let arg_1 = visit_test(transformer, *x.arg_1)?;
            let arg_2 = visit_test(transformer, *x.arg_2)?;
            Ok(Test::TestBinOp(TestBinOp {
                location: x.location,
                op: x.op,
                arg_1: Box::new(arg_1),
                arg_2: Box::new(arg_2),
            }))
        },
        Test::TestBinaryLit(x) => Ok(Test::TestBinaryLit(x)),
    }
}

/// Transforms a form: asks the pass, then walks where it says so.
pub fn visit_form<T, V: Transformer<T>>(transformer: &V, node: ExternalForm) -> (r: Result<ExternalForm, T>)
    ensures
        r matches Ok(m) ==> fails_form(*transformer, node) is None && rewrites_form(*transformer, node, m),
        r matches Err(t) ==> fails_form(*transformer, node) == Some(t),
    decreases node, 1nat,
{
    match transformer.transform_form(node) {
        Err(t) => Err(t),
        Ok(Rewrite::Replace(m)) => Ok(m),
        Ok(Rewrite::Walk(n)) => walk_form(transformer, n),
    }
}

/// The structural walk of a form: each child is transformed, left to
/// right, and the node is rebuilt; the first failure stops the walk.
pub fn walk_form<T, V: Transformer<T>>(transformer: &V, node: ExternalForm) -> (r: Result<ExternalForm, T>)
    ensures
        r matches Ok(m) ==> walk_fails_form(*transformer, node) is None && walk_rewrites_form(*transformer, node, m),
        r matches Err(t) ==> walk_fails_form(*transformer, node) == Some(t),
    decreases node, 0nat,
{
    match node {
        ExternalForm::Module(x) => Ok(ExternalForm::Module(x)),
        ExternalForm::CompileExportAll(x) => Ok(ExternalForm::CompileExportAll(x)),
        ExternalForm::Export(x) => Ok(ExternalForm::Export(x)),
        ExternalForm::Import(x) => Ok(ExternalForm::Import(x)),
        ExternalForm::ExportType(x) => Ok(ExternalForm::ExportType(x)),
        ExternalForm::FunDecl(x) => {
            let clauses = visit_clauses(transformer, x.clauses)?;
            Ok(ExternalForm::FunDecl(FunDecl { location: x.location, id: x.id, clauses }))
        },
        ExternalForm::File(x) => Ok(ExternalForm::File(x)),
        ExternalForm::ElpMetadata(x) => Ok(ExternalForm::ElpMetadata(x)),
        ExternalForm::Behaviour(x) => Ok(ExternalForm::Behaviour(x)),
        ExternalForm::EqwalizerNowarnFunction(x) => Ok(ExternalForm::EqwalizerNowarnFunction(x)),
        ExternalForm::EqwalizerUnlimitedRefinement(x) => Ok(ExternalForm::EqwalizerUnlimitedRefinement(x)),
        ExternalForm::TypingAttribute(x) => Ok(ExternalForm::TypingAttribute(x)),
        ExternalForm::ExternalTypeDecl(x) => Ok(ExternalForm::ExternalTypeDecl(x)),
        ExternalForm::ExternalOpaqueDecl(x) => Ok(ExternalForm::ExternalOpaqueDecl(x)),
        ExternalForm::ExternalFunSpec(x) => Ok(ExternalForm::ExternalFunSpec(x)),
        ExternalForm::ExternalCallback(x) => Ok(ExternalForm::ExternalCallback(x)),
        ExternalForm::ExternalOptionalCallbacks(x) => Ok(ExternalForm::ExternalOptionalCallbacks(x)),
        ExternalForm::ExternalRecDecl(x) => {
            let fields = visit_rec_fields(transformer, x.fields)?;
            Ok(ExternalForm::ExternalRecDecl(ExternalRecDecl {
                location: x.location,
                name: x.name,
                file: x.file,
                fields,
            }))
        },
    }
}

/// Transforms a clause: asks the pass, then walks where it says so.
pub fn visit_clause<T, V: Transformer<T>>(transformer: &V, node: Clause) -> (r: Result<Clause, T>)
    ensures
        r matches Ok(m) ==> fails_clause(*transformer, node) is None && rewrites_clause(*transformer, node, m),
        r matches Err(t) ==> fails_clause(*transformer, node) == Some(t),
    decreases node, 1nat,
{
    match transformer.transform_clause(node) {
        Err(t) => Err(t),
        Ok(Rewrite::Replace(m)) => Ok(m),
        Ok(Rewrite::Walk(n)) => walk_clause(transformer, n),
    }
}

/// The structural walk of a clause: each child is transformed, left to
/// right, and the node is rebuilt; the first failure stops the walk.
pub fn walk_clause<T, V: Transformer<T>>(transformer: &V, node: Clause) -> (r: Result<Clause, T>)
    ensures
        r matches Ok(m) ==> walk_fails_clause(*transformer, node) is None && walk_rewrites_clause(*transformer, node, m),
        r matches Err(t) ==> walk_fails_clause(*transformer, node) == Some(t),
    decreases node, 0nat,
{
    let pats = visit_pats(transformer, node.pats)?;
    let guards = visit_guards(transformer, node.guards)?;
    let body = visit_body(transformer, node.body)?;
    Ok(Clause { location: node.location, pats, guards, body })
}

/// Transforms a body: asks the pass, then walks where it says so.
pub fn visit_body<T, V: Transformer<T>>(transformer: &V, node: Body) -> (r: Result<Body, T>)
    ensures
        r matches Ok(m) ==> fails_body(*transformer, node) is None && rewrites_body(*transformer, node, m),
        r matches Err(t) ==> fails_body(*transformer, node) == Some(t),
    decreases node, 1nat,
{
    match transformer.transform_body(node) {
        Err(t) => Err(t),
        Ok(Rewrite::Replace(m)) => Ok(m),
        Ok(Rewrite::Walk(n)) => walk_body(transformer, n),
    }
}

/// The structural walk of a body: each child is transformed, left to
/// right, and the node is rebuilt; the first failure stops the walk.
pub fn walk_body<T, V: Transformer<T>>(transformer: &V, node: Body) -> (r: Result<Body, T>)
    ensures
        r matches Ok(m) ==> walk_fails_body(*transformer, node) is None && walk_rewrites_body(*transformer, node, m),
        r matches Err(t) ==> walk_fails_body(*transformer, node) == Some(t),
    decreases node, 0nat,
{
    let exprs = visit_exprs(transformer, node.exprs)?;
    Ok(Body { exprs })
}

/// Transforms a guard: asks the pass, then walks where it says so.
pub fn visit_guard<T, V: Transformer<T>>(transformer: &V, node: Guard) -> (r: Result<Guard, T>)
    ensures
        r matches Ok(m) ==> fails_guard(*transformer, node) is None && rewrites_guard(*transformer, node, m),
        r matches Err(t) ==> fails_guard(*transformer, node) == Some(t),
    decreases node, 1nat,
{
    match transformer.transform_guard(node) {
        Err(t) => Err(t),
        Ok(Rewrite::Replace(m)) => Ok(m),
        Ok(Rewrite::Walk(n)) => walk_guard(transformer, n),
    }
}

/// The structural walk of a guard: each child is transformed, left to
/// right, and the node is rebuilt; the first failure stops the walk.
pub fn walk_guard<T, V: Transformer<T>>(transformer: &V, node: Guard) -> (r: Result<Guard, T>)
    ensures
        r matches Ok(m) ==> walk_fails_guard(*transformer, node) is None && walk_rewrites_guard(*transformer, node, m),
        r matches Err(t) ==> walk_fails_guard(*transformer, node) == Some(t),
    decreases node, 0nat,
{
    let tests = visit_tests(transformer, node.tests)?;
    Ok(Guard { tests })
}

/// Transforms a comprehension qualifier: asks the pass, then walks where it says so.
pub fn visit_qualifier<T, V: Transformer<T>>(transformer: &V, node: Qualifier) -> (r: Result<Qualifier, T>)
    ensures
        r matches Ok(m) ==> fails_qualifier(*transformer, node) is None && rewrites_qualifier(*transformer, node, m),
        r matches Err(t) ==> fails_qualifier(*transformer, node) == Some(t),
    decreases node, 1nat,
{
    match transformer.transform_qualifier(node) {
        Err(t) => Err(t),
        Ok(Rewrite::Replace(m)) => Ok(m),
        Ok(Rewrite::Walk(n)) => walk_qualifier(transformer, n),
    }
}

/// The structural walk of a comprehension qualifier: each child is transformed, left to
/// right, and the node is rebuilt; the first failure stops the walk.
pub fn walk_qualifier<T, V: Transformer<T>>(transformer: &V, node: Qualifier) -> (r: Result<Qualifier, T>)
    ensures
        r matches Ok(m) ==> walk_fails_qualifier(*transformer, node) is None && walk_rewrites_qualifier(*transformer, node, m),
        r matches Err(t) ==> walk_fails_qualifier(*transformer, node) == Some(t),
    decreases node, 0nat,
{
    match node {
        Qualifier::LGenerate(x) => {
            let pat = visit_pat(transformer, x.pat)?;
            let expr = visit_expr(transformer, x.expr)?;
            Ok(Qualifier::LGenerate(LGenerate { pat, expr }))
        },
        Qualifier::BGenerate(x) => {
            let pat = visit_pat(transformer, x.pat)?;
            let expr = visit_expr(transformer, x.expr)?;
            Ok(Qualifier::BGenerate(BGenerate { pat, expr }))
        },
        Qualifier::MGenerate(x) => {
            let k_pat = visit_pat(transformer, x.k_pat)?;
            let v_pat = visit_pat(transformer, x.v_pat)?;
            let expr = visit_expr(transformer, x.expr)?;
            Ok(Qualifier::MGenerate(MGenerate { k_pat, v_pat, expr }))
        },
        Qualifier::Filter(x) => {
            let expr = visit_expr(transformer, x.expr)?;
            Ok(Qualifier::Filter(Filter { expr }))
        },
    }
}

/// Transforms a binary segment: asks the pass, then walks where it says so.
pub fn visit_binary_elem<T, V: Transformer<T>>(transformer: &V, node: BinaryElem) -> (r: Result<BinaryElem, T>)
    ensures
        r matches Ok(m) ==> fails_binary_elem(*transformer, node) is None && rewrites_binary_elem(*transformer, node, m),
        r matches Err(t) ==> fails_binary_elem(*transformer, node) == Some(t),
    decreases node, 1nat,
{
    match transformer.transform_binary_elem(node) {
        Err(t) => Err(t),
        Ok(Rewrite::Replace(m)) => Ok(m),
        Ok(Rewrite::Walk(n)) => walk_binary_elem(transformer, n),
    }
}

/// The structural walk of a binary segment: each child is transformed, left to
/// right, and the node is rebuilt; the first failure stops the walk.
pub fn walk_binary_elem<T, V: Transformer<T>>(transformer: &V, node: BinaryElem) -> (r: Result<BinaryElem, T>)
    ensures
        r matches Ok(m) ==> walk_fails_binary_elem(*transformer, node) is None && walk_rewrites_binary_elem(*transformer, node, m),
        r matches Err(t) ==> walk_fails_binary_elem(*transformer, node) == Some(t),
    decreases node, 0nat,
{
    let expr = visit_expr(transformer, node.expr)?;
    let size = match node.size {
        Some(o) => Some(visit_expr(transformer, o)?),
        None => None,
    };
    Ok(BinaryElem {
        location: node.location,
        expr,
        size,
        specifier: node.specifier,
    })
}

/// Transforms a binary pattern segment: asks the pass, then walks where it says so.
pub fn visit_pat_binary_elem<T, V: Transformer<T>>(transformer: &V, node: PatBinaryElem) -> (r: Result<PatBinaryElem, T>)
    ensures
        r matches Ok(m) ==> fails_pat_binary_elem(*transformer, node) is None && rewrites_pat_binary_elem(*transformer, node, m),
        r matches Err(t) ==> fails_pat_binary_elem(*transformer, node) == Some(t),
    decreases node, 1nat,
{
    match transformer.transform_pat_binary_elem(node) {
        Err(t) => Err(t),
        Ok(Rewrite::Replace(m)) => Ok(m),
        Ok(Rewrite::Walk(n)) => walk_pat_binary_elem(transformer, n),
    }
}

/// The structural walk of a binary pattern segment: each child is transformed, left to
/// right, and the node is rebuilt; the first failure stops the walk.
pub fn walk_pat_binary_elem<T, V: Transformer<T>>(transformer: &V, node: PatBinaryElem) -> (r: Result<PatBinaryElem, T>)
    ensures
        r matches Ok(m) ==> walk_fails_pat_binary_elem(*transformer, node) is None && walk_rewrites_pat_binary_elem(*transformer, node, m),
        r matches Err(t) ==> walk_fails_pat_binary_elem(*transformer, node) == Some(t),
    decreases node, 0nat,
{
    let pat = visit_pat(transformer, node.pat)?;
    let size = match node.size {
        Some(o) => Some(visit_expr(transformer, o)?),
        None => None,
    };
    Ok(PatBinaryElem {
        location: node.location,
        pat,
        size,
        specifier: node.specifier,
    })
}

/// Transforms a record construction field: asks the pass, then walks where it says so.
pub fn visit_record_field<T, V: Transformer<T>>(transformer: &V, node: RecordField) -> (r: Result<RecordField, T>)
    ensures
        r matches Ok(m) ==> fails_record_field(*transformer, node) is None && rewrites_record_field(*transformer, node, m),
        r matches Err(t) ==> fails_record_field(*transformer, node) == Some(t),
    decreases node, 1nat,
{
    match transformer.transform_record_field(node) {
        Err(t) => Err(t),
        Ok(Rewrite::Replace(m)) => Ok(m),
        Ok(Rewrite::Walk(n)) => walk_record_field(transformer, n),
    }
}

/// The structural walk of a record construction field: each child is transformed, left to
/// right, and the node is rebuilt; the first failure stops the walk.
pub fn walk_record_field<T, V: Transformer<T>>(transformer: &V, node: RecordField) -> (r: Result<RecordField, T>)
    ensures
        r matches Ok(m) ==> walk_fails_record_field(*transformer, node) is None && walk_rewrites_record_field(*transformer, node, m),
        r matches Err(t) ==> walk_fails_record_field(*transformer, node) == Some(t),
    decreases node, 0nat,
{
    match node {
        RecordField::RecordFieldGen(x) => {
            let value = visit_expr(transformer, x.value)?;
            Ok(RecordField::RecordFieldGen(RecordFieldGen { value }))
        },
        RecordField::RecordFieldNamed(x) => {
            let value = visit_expr(transformer, x.value)?;
            Ok(RecordField::RecordFieldNamed(RecordFieldNamed { name: x.name, value }))
        },
    }
}

/// Transforms a record field in a guard: asks the pass, then walks where it says so.
pub fn visit_test_record_field<T, V: Transformer<T>>(transformer: &V, node: TestRecordField) -> (r: Result<TestRecordField, T>)
    ensures
        r matches Ok(m) ==> fails_test_record_field(*transformer, node) is None && rewrites_test_record_field(*transformer, node, m),
        r matches Err(t) ==> fails_test_record_field(*transformer, node) == Some(t),
    decreases node, 1nat,
{
    match transformer.transform_test_record_field(node) {
        Err(t) => Err(t),
        Ok(Rewrite::Replace(m)) => Ok(m),
        Ok(Rewrite::Walk(n)) => walk_test_record_field(transformer, n),
    }
}

/// The structural walk of a record field in a guard: each child is transformed, left to
/// right, and the node is rebuilt; the first failure stops the walk.
pub fn walk_test_record_field<T, V: Transformer<T>>(transformer: &V, node: TestRecordField) -> (r: Result<TestRecordField, T>)
    ensures
        r matches Ok(m) ==> walk_fails_test_record_field(*transformer, node) is None && walk_rewrites_test_record_field(*transformer, node, m),
        r matches Err(t) ==> walk_fails_test_record_field(*transformer, node) == Some(t),
    decreases node, 0nat,
{
    match node {
        TestRecordField::TestRecordFieldNamed(x) => {
            let value = visit_test(transformer, x.value)?;
            Ok(TestRecordField::TestRecordFieldNamed(TestRecordFieldNamed { name: x.name, value }))
        },
        TestRecordField::TestRecordFieldGen(x) => {
            let value = visit_test(transformer, x.value)?;
            Ok(TestRecordField::TestRecordFieldGen(TestRecordFieldGen { value }))
        },
    }
}

fn walk_named_field<T, V: Transformer<T>>(transformer: &V, node: RecordFieldNamed) -> (r: Result<RecordFieldNamed, T>)
    ensures
        r matches Ok(m) ==> fails_named_field(*transformer, node) is None && rewrites_named_field(*transformer, node, m),
        r matches Err(t) ==> fails_named_field(*transformer, node) == Some(t),
    decreases node, 0nat,
{
    let value = visit_expr(transformer, node.value)?;
    Ok(RecordFieldNamed { name: node.name, value })
}

fn walk_pat_named_field<T, V: Transformer<T>>(transformer: &V, node: PatRecordFieldNamed) -> (r: Result<PatRecordFieldNamed, T>)
    ensures
        r matches Ok(m) ==> fails_pat_named_field(*transformer, node) is None && rewrites_pat_named_field(*transformer, node, m),
        r matches Err(t) ==> fails_pat_named_field(*transformer, node) == Some(t),
    decreases node, 0nat,
{
    let pat = visit_pat(transformer, node.pat)?;
    Ok(PatRecordFieldNamed { name: node.name, pat })
}

fn walk_rec_field<T, V: Transformer<T>>(transformer: &V, node: ExternalRecField) -> (r: Result<ExternalRecField, T>)
    ensures
        r matches Ok(m) ==> fails_rec_field(*transformer, node) is None && rewrites_rec_field(*transformer, node, m),
        r matches Err(t) ==> fails_rec_field(*transformer, node) == Some(t),
    decreases node, 0nat,
{
    let default_value = match node.default_value {
        Some(o) => Some(visit_expr(transformer, o)?),
        None => None,
    };
    Ok(ExternalRecField { name: node.name, default_value })
}

fn walk_expr_pair<T, V: Transformer<T>>(transformer: &V, node: (Expr, Expr)) -> (r: Result<(Expr, Expr), T>)
    ensures
        r matches Ok(m) ==> fails_expr_pair(*transformer, node) is None && rewrites_expr_pair(*transformer, node, m),
        r matches Err(t) ==> fails_expr_pair(*transformer, node) == Some(t),
    decreases node, 0nat,
{
    let (a, b) = node;
    let a = visit_expr(transformer, a)?;
    let b = visit_expr(transformer, b)?;
    Ok((a, b))
}

fn walk_test_pat_pair<T, V: Transformer<T>>(transformer: &V, node: (Test, Pat)) -> (r: Result<(Test, Pat), T>)
    ensures
        r matches Ok(m) ==> fails_test_pat_pair(*transformer, node) is None && rewrites_test_pat_pair(*transformer, node, m),
        r matches Err(t) ==> fails_test_pat_pair(*transformer, node) == Some(t),
    decreases node, 0nat,
{
    let (a, b) = node;
    let a = visit_test(transformer, a)?;
    let b = visit_pat(transformer, b)?;
    Ok((a, b))
}

fn walk_test_pair<T, V: Transformer<T>>(transformer: &V, node: (Test, Test)) -> (r: Result<(Test, Test), T>)
    ensures
        r matches Ok(m) ==> fails_test_pair(*transformer, node) is None && rewrites_test_pair(*transformer, node, m),
        r matches Err(t) ==> fails_test_pair(*transformer, node) == Some(t),
    decreases node, 0nat,
{
    let (a, b) = node;
    let a = visit_test(transformer, a)?;
    let b = visit_test(transformer, b)?;
    Ok((a, b))
}

fn visit_forms<T, V: Transformer<T>>(transformer: &V, nodes: Vec<ExternalForm>) -> (r: Result<Vec<ExternalForm>, T>)
    ensures
        r matches Ok(m) ==> fails_forms(*transformer, nodes@) is None && rewrites_forms(*transformer, nodes@, m@),
        r matches Err(t) ==> fails_forms(*transformer, nodes@) == Some(t),
    decreases nodes, 0nat,
{
    let ghost v = *transformer;
    let ghost all = nodes@;
    let mut out: Vec<ExternalForm> = Vec::new();
    proof {
        assert(all.skip(0) =~= all);
    }
    for node in it: nodes.into_iter()
        invariant
            it.seq() == all,
            all == nodes@,
            v == *transformer,
            fails_forms(v, all) == fails_forms(v, all.skip(it.index() as int)),
            out@.len() == it.index(),
            forall|i: int| 0 <= i < it.index() ==> rewrites_form(v, #[trigger] all[i], out@[i]),
    {
        proof {
            assert(all.skip(it.index() as int).drop_first() =~= all.skip(it.index() + 1));
            assert(decreases_to!(nodes => node));
        }
        let m = visit_form(transformer, node)?;
        out.push(m);
    }
    proof {
        assert(all.skip(all.len() as int) =~= Seq::<ExternalForm>::empty());
    }
    Ok(out)
}

fn visit_exprs<T, V: Transformer<T>>(transformer: &V, nodes: Vec<Expr>) -> (r: Result<Vec<Expr>, T>)
    ensures
        r matches Ok(m) ==> fails_exprs(*transformer, nodes@) is None && rewrites_exprs(*transformer, nodes@, m@),
        r matches Err(t) ==> fails_exprs(*transformer, nodes@) == Some(t),
    decreases nodes, 0nat,
{
    let ghost v = *transformer;
    let ghost all = nodes@;
    let mut out: Vec<Expr> = Vec::new();
    proof {
        assert(all.skip(0) =~= all);
    }
    for node in it: nodes.into_iter()
        invariant
            it.seq() == all,
            all == nodes@,
            v == *transformer,
            fails_exprs(v, all) == fails_exprs(v, all.skip(it.index() as int)),
            out@.len() == it.index(),
            forall|i: int| 0 <= i < it.index() ==> rewrites_expr(v, #[trigger] all[i], out@[i]),
    {
        proof {
            assert(all.skip(it.index() as int).drop_first() =~= all.skip(it.index() + 1));
            assert(decreases_to!(nodes => node));
        }
        let m = visit_expr(transformer, node)?;
        out.push(m);
    }
    proof {
        assert(all.skip(all.len() as int) =~= Seq::<Expr>::empty());
    }
    Ok(out)
}

fn visit_clauses<T, V: Transformer<T>>(transformer: &V, nodes: Vec<Clause>) -> (r: Result<Vec<Clause>, T>)
    ensures
        r matches Ok(m) ==> fails_clauses(*transformer, nodes@) is None && rewrites_clauses(*transformer, nodes@, m@),
        r matches Err(t) ==> fails_clauses(*transformer, nodes@) == Some(t),
    decreases nodes, 0nat,
{
    let ghost v = *transformer;
    let ghost all = nodes@;
    let mut out: Vec<Clause> = Vec::new();
    proof {
        assert(all.skip(0) =~= all);
    }
    for node in it: nodes.into_iter()
        invariant
            it.seq() == all,
            all == nodes@,
            v == *transformer,
            fails_clauses(v, all) == fails_clauses(v, all.skip(it.index() as int)),
            out@.len() == it.index(),
            forall|i: int| 0 <= i < it.index() ==> rewrites_clause(v, #[trigger] all[i], out@[i]),
    {
        proof {
            assert(all.skip(it.index() as int).drop_first() =~= all.skip(it.index() + 1));
            assert(decreases_to!(nodes => node));
        }
        let m = visit_clause(transformer, node)?;
        out.push(m);
    }
    proof {
        assert(all.skip(all.len() as int) =~= Seq::<Clause>::empty());
    }
    Ok(out)
}

fn visit_qualifiers<T, V: Transformer<T>>(transformer: &V, nodes: Vec<Qualifier>) -> (r: Result<Vec<Qualifier>, T>)
    ensures
        r matches Ok(m) ==> fails_qualifiers(*transformer, nodes@) is None && rewrites_qualifiers(*transformer, nodes@, m@),
        r matches Err(t) ==> fails_qualifiers(*transformer, nodes@) == Some(t),
    decreases nodes, 0nat,
{
    let ghost v = *transformer;
    let ghost all = nodes@;
    let mut out: Vec<Qualifier> = Vec::new();
    proof {
        assert(all.skip(0) =~= all);
    }
    for node in it: nodes.into_iter()
        invariant
            it.seq() == all,
            all == nodes@,
            v == *transformer,
            fails_qualifiers(v, all) == fails_qualifiers(v, all.skip(it.index() as int)),
            out@.len() == it.index(),
            forall|i: int| 0 <= i < it.index() ==> rewrites_qualifier(v, #[trigger] all[i], out@[i]),
    {
        proof {
            assert(all.skip(it.index() as int).drop_first() =~= all.skip(it.index() + 1));
            assert(decreases_to!(nodes => node));
        }
        let m = visit_qualifier(transformer, node)?;
        out.push(m);
    }
    proof {
        assert(all.skip(all.len() as int) =~= Seq::<Qualifier>::empty());
    }
    Ok(out)
}

fn visit_binary_elems<T, V: Transformer<T>>(transformer: &V, nodes: Vec<BinaryElem>) -> (r: Result<Vec<BinaryElem>, T>)
    ensures
        r matches Ok(m) ==> fails_binary_elems(*transformer, nodes@) is None && rewrites_binary_elems(*transformer, nodes@, m@),
        r matches Err(t) ==> fails_binary_elems(*transformer, nodes@) == Some(t),
    decreases nodes, 0nat,
{
    let ghost v = *transformer;
    let ghost all = nodes@;
    let mut out: Vec<BinaryElem> = Vec::new();
    proof {
        assert(all.skip(0) =~= all);
    }
    for node in it: nodes.into_iter()
        invariant
            it.seq() == all,
            all == nodes@,
            v == *transformer,
            fails_binary_elems(v, all) == fails_binary_elems(v, all.skip(it.index() as int)),
            out@.len() == it.index(),
            forall|i: int| 0 <= i < it.index() ==> rewrites_binary_elem(v, #[trigger] all[i], out@[i]),
    {
        proof {
            assert(all.skip(it.index() as int).drop_first() =~= all.skip(it.index() + 1));
            assert(decreases_to!(nodes => node));
        }
        let m = visit_binary_elem(transformer, node)?;
        out.push(m);
    }
    proof {
        assert(all.skip(all.len() as int) =~= Seq::<BinaryElem>::empty());
    }
    Ok(out)
}

fn visit_record_fields<T, V: Transformer<T>>(transformer: &V, nodes: Vec<RecordField>) -> (r: Result<Vec<RecordField>, T>)
    ensures
        r matches Ok(m) ==> fails_record_fields(*transformer, nodes@) is None && rewrites_record_fields(*transformer, nodes@, m@),
        r matches Err(t) ==> fails_record_fields(*transformer, nodes@) == Some(t),
    decreases nodes, 0nat,
{
    let ghost v = *transformer;
    let ghost all = nodes@;
    let mut out: Vec<RecordField> = Vec::new();
    proof {
        assert(all.skip(0) =~= all);
    }
    for node in it: nodes.into_iter()
        invariant
            it.seq() == all,
            all == nodes@,
            v == *transformer,
            fails_record_fields(v, all) == fails_record_fields(v, all.skip(it.index() as int)),
            out@.len() == it.index(),
            forall|i: int| 0 <= i < it.index() ==> rewrites_record_field(v, #[trigger] all[i], out@[i]),
    {
        proof {
            assert(all.skip(it.index() as int).drop_first() =~= all.skip(it.index() + 1));
            assert(decreases_to!(nodes => node));
        }
        let m = visit_record_field(transformer, node)?;
        out.push(m);
    }
    proof {
        assert(all.skip(all.len() as int) =~= Seq::<RecordField>::empty());
    }
    Ok(out)
}

fn visit_named_fields<T, V: Transformer<T>>(transformer: &V, nodes: Vec<RecordFieldNamed>) -> (r: Result<Vec<RecordFieldNamed>, T>)
    ensures
        r matches Ok(m) ==> fails_named_fields(*transformer, nodes@) is None && rewrites_named_fields(*transformer, nodes@, m@),
        r matches Err(t) ==> fails_named_fields(*transformer, nodes@) == Some(t),
    decreases nodes, 0nat,
{
    let ghost v = *transformer;
    let ghost all = nodes@;
    let mut out: Vec<RecordFieldNamed> = Vec::new();
    proof {
        assert(all.skip(0) =~= all);
    }
    for node in it: nodes.into_iter()
        invariant
            it.seq() == all,
            all == nodes@,
            v == *transformer,
            fails_named_fields(v, all) == fails_named_fields(v, all.skip(it.index() as int)),
            out@.len() == it.index(),
            forall|i: int| 0 <= i < it.index() ==> rewrites_named_field(v, #[trigger] all[i], out@[i]),
    {
        proof {
            assert(all.skip(it.index() as int).drop_first() =~= all.skip(it.index() + 1));
            assert(decreases_to!(nodes => node));
        }
        let m = walk_named_field(transformer, node)?;
        out.push(m);
    }
    proof {
        assert(all.skip(all.len() as int) =~= Seq::<RecordFieldNamed>::empty());
    }
    Ok(out)
}

fn visit_expr_pairs<T, V: Transformer<T>>(transformer: &V, nodes: Vec<(Expr, Expr)>) -> (r: Result<Vec<(Expr, Expr)>, T>)
    ensures
        r matches Ok(m) ==> fails_expr_pairs(*transformer, nodes@) is None && rewrites_expr_pairs(*transformer, nodes@, m@),
        r matches Err(t) ==> fails_expr_pairs(*transformer, nodes@) == Some(t),
    decreases nodes, 0nat,
{
    let ghost v = *transformer;
    let ghost all = nodes@;
    let mut out: Vec<(Expr, Expr)> = Vec::new();
    proof {
        assert(all.skip(0) =~= all);
    }
    for node in it: nodes.into_iter()
        invariant
            it.seq() == all,
            all == nodes@,
            v == *transformer,
            fails_expr_pairs(v, all) == fails_expr_pairs(v, all.skip(it.index() as int)),
            out@.len() == it.index(),
            forall|i: int| 0 <= i < it.index() ==> rewrites_expr_pair(v, #[trigger] all[i], out@[i]),
    {
        proof {
            assert(all.skip(it.index() as int).drop_first() =~= all.skip(it.index() + 1));
            assert(decreases_to!(nodes => node));
        }
        let m = walk_expr_pair(transformer, node)?;
        out.push(m);
    }
    proof {
        assert(all.skip(all.len() as int) =~= Seq::<(Expr, Expr)>::empty());
    }
    Ok(out)
}

fn visit_pats<T, V: Transformer<T>>(transformer: &V, nodes: Vec<Pat>) -> (r: Result<Vec<Pat>, T>)
    ensures
        r matches Ok(m) ==> fails_pats(*transformer, nodes@) is None && rewrites_pats(*transformer, nodes@, m@),
        r matches Err(t) ==> fails_pats(*transformer, nodes@) == Some(t),
    decreases nodes, 0nat,
{
    let ghost v = *transformer;
    let ghost all = nodes@;
    let mut out: Vec<Pat> = Vec::new();
    proof {
        assert(all.skip(0) =~= all);
    }
    for node in it: nodes.into_iter()
        invariant
            it.seq() == all,
            all == nodes@,
            v == *transformer,
            fails_pats(v, all) == fails_pats(v, all.skip(it.index() as int)),
            out@.len() == it.index(),
            forall|i: int| 0 <= i < it.index() ==> rewrites_pat(v, #[trigger] all[i], out@[i]),
    {
        proof {
            assert(all.skip(it.index() as int).drop_first() =~= all.skip(it.index() + 1));
            assert(decreases_to!(nodes => node));
        }
        let m = visit_pat(transformer, node)?;
        out.push(m);
    }
    proof {
        assert(all.skip(all.len() as int) =~= Seq::<Pat>::empty());
    }
    Ok(out)
}

fn visit_guards<T, V: Transformer<T>>(transformer: &V, nodes: Vec<Guard>) -> (r: Result<Vec<Guard>, T>)
    ensures
        r matches Ok(m) ==> fails_guards(*transformer, nodes@) is None && rewrites_guards(*transformer, nodes@, m@),
        r matches Err(t) ==> fails_guards(*transformer, nodes@) == Some(t),
    decreases nodes, 0nat,
{
    let ghost v = *transformer;
    let ghost all = nodes@;
    let mut out: Vec<Guard> = Vec::new();
    proof {
        assert(all.skip(0) =~= all);
    }
    for node in it: nodes.into_iter()
        invariant
            it.seq() == all,
            all == nodes@,
            v == *transformer,
            fails_guards(v, all) == fails_guards(v, all.skip(it.index() as int)),
            out@.len() == it.index(),
            forall|i: int| 0 <= i < it.index() ==> rewrites_guard(v, #[trigger] all[i], out@[i]),
    {
        proof {
            assert(all.skip(it.index() as int).drop_first() =~= all.skip(it.index() + 1));
            assert(decreases_to!(nodes => node));
        }
        let m = visit_guard(transformer, node)?;
        out.push(m);
    }
    proof {
        assert(all.skip(all.len() as int) =~= Seq::<Guard>::empty());
    }
    Ok(out)
}

fn visit_tests<T, V: Transformer<T>>(transformer: &V, nodes: Vec<Test>) -> (r: Result<Vec<Test>, T>)
    ensures
        r matches Ok(m) ==> fails_tests(*transformer, nodes@) is None && rewrites_tests(*transformer, nodes@, m@),
        r matches Err(t) ==> fails_tests(*transformer, nodes@) == Some(t),
    decreases nodes, 0nat,
{
    let ghost v = *transformer;
    let ghost all = nodes@;
    let mut out: Vec<Test> = Vec::new();
    proof {
        assert(all.skip(0) =~= all);
    }
    for node in it: nodes.into_iter()
        invariant
            it.seq() == all,
            all == nodes@,
            v == *transformer,
            fails_tests(v, all) == fails_tests(v, all.skip(it.index() as int)),
            out@.len() == it.index(),
            forall|i: int| 0 <= i < it.index() ==> rewrites_test(v, #[trigger] all[i], out@[i]),
    {
        proof {
            assert(all.skip(it.index() as int).drop_first() =~= all.skip(it.index() + 1));
            assert(decreases_to!(nodes => node));
        }
        let m = visit_test(transformer, node)?;
        out.push(m);
    }
    proof {
        assert(all.skip(all.len() as int) =~= Seq::<Test>::empty());
    }
    Ok(out)
}

fn visit_pat_named_fields<T, V: Transformer<T>>(transformer: &V, nodes: Vec<PatRecordFieldNamed>) -> (r: Result<Vec<PatRecordFieldNamed>, T>)
    ensures
        r matches Ok(m) ==> fails_pat_named_fields(*transformer, nodes@) is None && rewrites_pat_named_fields(*transformer, nodes@, m@),
        r matches Err(t) ==> fails_pat_named_fields(*transformer, nodes@) == Some(t),
    decreases nodes, 0nat,
{
    let ghost v = *transformer;
    let ghost all = nodes@;
    let mut out: Vec<PatRecordFieldNamed> = Vec::new();
    proof {
        assert(all.skip(0) =~= all);
    }
    for node in it: nodes.into_iter()
        invariant
            it.seq() == all,
            all == nodes@,
            v == *transformer,
            fails_pat_named_fields(v, all) == fails_pat_named_fields(v, all.skip(it.index() as int)),
            out@.len() == it.index(),
            forall|i: int| 0 <= i < it.index() ==> rewrites_pat_named_field(v, #[trigger] all[i], out@[i]),
    {
        proof {
            assert(all.skip(it.index() as int).drop_first() =~= all.skip(it.index() + 1));
            assert(decreases_to!(nodes => node));
        }
        let m = walk_pat_named_field(transformer, node)?;
        out.push(m);
    }
    proof {
        assert(all.skip(all.len() as int) =~= Seq::<PatRecordFieldNamed>::empty());
    }
    Ok(out)
}

fn visit_pat_binary_elems<T, V: Transformer<T>>(transformer: &V, nodes: Vec<PatBinaryElem>) -> (r: Result<Vec<PatBinaryElem>, T>)
    ensures
        r matches Ok(m) ==> fails_pat_binary_elems(*transformer, nodes@) is None && rewrites_pat_binary_elems(*transformer, nodes@, m@),
        r matches Err(t) ==> fails_pat_binary_elems(*transformer, nodes@) == Some(t),
    decreases nodes, 0nat,
{
    let ghost v = *transformer;
    let ghost all = nodes@;
    let mut out: Vec<PatBinaryElem> = Vec::new();
    proof {
        assert(all.skip(0) =~= all);
    }
    for node in it: nodes.into_iter()
        invariant
            it.seq() == all,
            all == nodes@,
            v == *transformer,
            fails_pat_binary_elems(v, all) == fails_pat_binary_elems(v, all.skip(it.index() as int)),
            out@.len() == it.index(),
            forall|i: int| 0 <= i < it.index() ==> rewrites_pat_binary_elem(v, #[trigger] all[i], out@[i]),
    {
        proof {
            assert(all.skip(it.index() as int).drop_first() =~= all.skip(it.index() + 1));
            assert(decreases_to!(nodes => node));
        }
        let m = visit_pat_binary_elem(transformer, node)?;
        out.push(m);
    }
    proof {
        assert(all.skip(all.len() as int) =~= Seq::<PatBinaryElem>::empty());
    }
    Ok(out)
}

fn visit_test_pat_pairs<T, V: Transformer<T>>(transformer: &V, nodes: Vec<(Test, Pat)>) -> (r: Result<Vec<(Test, Pat)>, T>)
    ensures
        r matches Ok(m) ==> fails_test_pat_pairs(*transformer, nodes@) is None && rewrites_test_pat_pairs(*transformer, nodes@, m@),
        r matches Err(t) ==> fails_test_pat_pairs(*transformer, nodes@) == Some(t),
    decreases nodes, 0nat,
{
    let ghost v = *transformer;
    let ghost all = nodes@;
    let mut out: Vec<(Test, Pat)> = Vec::new();
    proof {
        assert(all.skip(0) =~= all);
    }
    for node in it: nodes.into_iter()
        invariant
            it.seq() == all,
            all == nodes@,
            v == *transformer,
            fails_test_pat_pairs(v, all) == fails_test_pat_pairs(v, all.skip(it.index() as int)),
            out@.len() == it.index(),
            forall|i: int| 0 <= i < it.index() ==> rewrites_test_pat_pair(v, #[trigger] all[i], out@[i]),
    {
        proof {
            assert(all.skip(it.index() as int).drop_first() =~= all.skip(it.index() + 1));
            assert(decreases_to!(nodes => node));
        }
        let m = walk_test_pat_pair(transformer, node)?;
        out.push(m);
    }
    proof {
        assert(all.skip(all.len() as int) =~= Seq::<(Test, Pat)>::empty());
    }
    Ok(out)
}

fn visit_test_record_fields<T, V: Transformer<T>>(transformer: &V, nodes: Vec<TestRecordField>) -> (r: Result<Vec<TestRecordField>, T>)
    ensures
        r matches Ok(m) ==> fails_test_record_fields(*transformer, nodes@) is None && rewrites_test_record_fields(*transformer, nodes@, m@),
        r matches Err(t) ==> fails_test_record_fields(*transformer, nodes@) == Some(t),
    decreases nodes, 0nat,
{
    let ghost v = *transformer;
    let ghost all = nodes@;
    let mut out: Vec<TestRecordField> = Vec::new();
    proof {
        assert(all.skip(0) =~= all);
    }
    for node in it: nodes.into_iter()
        invariant
            it.seq() == all,
            all == nodes@,
            v == *transformer,
            fails_test_record_fields(v, all) == fails_test_record_fields(v, all.skip(it.index() as int)),
            out@.len() == it.index(),
            forall|i: int| 0 <= i < it.index() ==> rewrites_test_record_field(v, #[trigger] all[i], out@[i]),
    {
        proof {
            assert(all.skip(it.index() as int).drop_first() =~= all.skip(it.index() + 1));
            assert(decreases_to!(nodes => node));
        }
        let m = visit_test_record_field(transformer, node)?;
        out.push(m);
    }
    proof {
        assert(all.skip(all.len() as int) =~= Seq::<TestRecordField>::empty());
    }
    Ok(out)
}

fn visit_test_pairs<T, V: Transformer<T>>(transformer: &V, nodes: Vec<(Test, Test)>) -> (r: Result<Vec<(Test, Test)>, T>)
    ensures
        r matches Ok(m) ==> fails_test_pairs(*transformer, nodes@) is None && rewrites_test_pairs(*transformer, nodes@, m@),
        r matches Err(t) ==> fails_test_pairs(*transformer, nodes@) == Some(t),
    decreases nodes, 0nat,
{
    let ghost v = *transformer;
    let ghost all = nodes@;
    let mut out: Vec<(Test, Test)> = Vec::new();
    proof {
        assert(all.skip(0) =~= all);
    }
    for node in it: nodes.into_iter()
        invariant
            it.seq() == all,
            all == nodes@,
            v == *transformer,
            fails_test_pairs(v, all) == fails_test_pairs(v, all.skip(it.index() as int)),
            out@.len() == it.index(),
            forall|i: int| 0 <= i < it.index() ==> rewrites_test_pair(v, #[trigger] all[i], out@[i]),
    {
        proof {
            assert(all.skip(it.index() as int).drop_first() =~= all.skip(it.index() + 1));
            assert(decreases_to!(nodes => node));
        }
        let m = walk_test_pair(transformer, node)?;
        out.push(m);
    }
    proof {
        assert(all.skip(all.len() as int) =~= Seq::<(Test, Test)>::empty());
    }
    Ok(out)
}

fn visit_rec_fields<T, V: Transformer<T>>(transformer: &V, nodes: Vec<ExternalRecField>) -> (r: Result<Vec<ExternalRecField>, T>)
    ensures
        r matches Ok(m) ==> fails_rec_fields(*transformer, nodes@) is None && rewrites_rec_fields(*transformer, nodes@, m@),
        r matches Err(t) ==> fails_rec_fields(*transformer, nodes@) == Some(t),
    decreases nodes, 0nat,
{
    let ghost v = *transformer;
    let ghost all = nodes@;
    let mut out: Vec<ExternalRecField> = Vec::new();
    proof {
        assert(all.skip(0) =~= all);
    }
    for node in it: nodes.into_iter()
        invariant
            it.seq() == all,
            all == nodes@,
            v == *transformer,
            fails_rec_fields(v, all) == fails_rec_fields(v, all.skip(it.index() as int)),
            out@.len() == it.index(),
            forall|i: int| 0 <= i < it.index() ==> rewrites_rec_field(v, #[trigger] all[i], out@[i]),
    {
        proof {
            assert(all.skip(it.index() as int).drop_first() =~= all.skip(it.index() + 1));
            assert(decreases_to!(nodes => node));
        }
        let m = walk_rec_field(transformer, node)?;
        out.push(m);
    }
    proof {
        assert(all.skip(all.len() as int) =~= Seq::<ExternalRecField>::empty());
    }
    Ok(out)
}

/// The walk of a chain of cons cells `[H1 | [H2 | ... T]]`, done with a loop
/// rather than one recursive call per cell, so that a long list does not grow
/// the stack: the heads are transformed in order, then the final tail, and the
/// chain is rebuilt from the tail up with each cell's location.
fn walk_cons<T, V: Transformer<T>>(transformer: &V, node: Cons) -> (r: Result<Expr, T>)
    ensures
        r matches Ok(m) ==> fails_cons(*transformer, node) is None && rewrites_cons(*transformer, node, m),
        r matches Err(t) ==> fails_cons(*transformer, node) == Some(t),
    decreases node, 0nat,
{
    let ghost v = *transformer;
    let ghost top = node;
    let ghost mut cells: Seq<Cons> = Seq::empty();
    let mut heads: Vec<(Location, Expr)> = Vec::new();
    let mut cur = node;
    loop
        invariant
            v == *transformer,
            top == node,
            heads@.len() == cells.len(),
            forall|i: int|
                0 <= i < cells.len() ==> (#[trigger] heads@[i]).0 == cells[i].location
                    && rewrites_expr(v, *cells[i].h, heads@[i].1),
            forall|i: int|
                0 <= i < cells.len() ==> *(#[trigger] cells[i]).t == Expr::Cons(
                    if i + 1 < cells.len() {
                        cells[i + 1]
                    } else {
                        cur
                    },
                ),
            cells.len() == 0 ==> cur == top,
            cells.len() > 0 ==> cells[0] == top,
            fails_cons(v, top) == fails_cons(v, cur),
            cur == top || decreases_to!(top => cur),
        decreases cons_depth(cur),
    {
        let ghost cell = cur;
        let Cons { location, h, t } = cur;
        proof {
            assert(decreases_to!(top => *h));
        }
        let h = visit_expr(transformer, *h)?;
        heads.push((location, h));
        proof {
            cells = cells.push(cell);
        }
        match *t {
            Expr::Cons(next) => {
                proof {
                    assert(decreases_to!(top => next));
                }
                cur = next;
            },
            other => {
                proof {
                    assert(decreases_to!(top => other));
                }
                let tail = visit_expr(transformer, other)?;
                return Ok(fold_cons::<T, V>(heads, tail, Ghost(v), Ghost(cells)));
            },
        }
    }
}

/// Rebuilds a cons chain from its transformed heads (with their cells'
/// locations) and its transformed tail.
fn fold_cons<T, V: Transformer<T>>(
    heads: Vec<(Location, Expr)>,
    tail: Expr,
    Ghost(v): Ghost<V>,
    Ghost(cells): Ghost<Seq<Cons>>,
) -> (r: Expr)
    requires
        cells.len() > 0,
        heads@.len() == cells.len(),
        forall|i: int|
            0 <= i < cells.len() ==> (#[trigger] heads@[i]).0 == cells[i].location && rewrites_expr(
                v,
                *cells[i].h,
                heads@[i].1,
            ),
        forall|i: int| 0 <= i < cells.len() - 1 ==> *(#[trigger] cells[i]).t == Expr::Cons(cells[i + 1]),
        !(*cells.last().t is Cons),
        rewrites_expr(v, *cells.last().t, tail),
    ensures
        rewrites_cons(v, cells[0], r),
{
    let ghost all = heads@;
    let ghost n = cells.len();
    let mut heads = heads;
    let mut acc = tail;
    while heads.len() > 0
        invariant
            heads@.len() <= n,
            n == cells.len(),
            all.len() == n,
            n > 0,
            forall|i: int| 0 <= i < heads@.len() ==> #[trigger] heads@[i] == all[i],
            forall|i: int|
                0 <= i < n ==> (#[trigger] all[i]).0 == cells[i].location && rewrites_expr(
                    v,
                    *cells[i].h,
                    all[i].1,
                ),
            forall|i: int| 0 <= i < n - 1 ==> *(#[trigger] cells[i]).t == Expr::Cons(cells[i + 1]),
            !(*cells[n - 1].t is Cons),
            heads@.len() == n ==> rewrites_expr(v, *cells[n - 1].t, acc),
            heads@.len() < n ==> rewrites_cons(v, cells[heads@.len() as int], acc),
        decreases heads@.len(),
    {
        let ghost k = heads@.len() - 1;
        let (location, h) = heads.pop().unwrap();
        let ghost prev = acc;
        acc = Expr::Cons(Cons { location, h: Box::new(h), t: Box::new(acc) });
        proof {
            let c = cells[k];
            if k < n - 1 {
                assert(*c.t == Expr::Cons(cells[k + 1]));
                assert(rewrites_cons(v, cells[k + 1], prev));
            } else {
                assert(rewrites_expr(v, *c.t, prev));
            }
            assert(rewrites_cons(v, c, acc));
        }
    }
    acc
}

} // verus!
