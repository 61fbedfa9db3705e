//! The checked syntax tree of one module: forms, expressions, patterns,
//! guard tests and the elements they are built from.
use vstd::prelude::*;

verus! {

/// A span of source text: the byte offset where it starts and its length in bytes.
#[derive(Clone, Copy, Debug, PartialEq, Eq)]
pub struct Location {
    pub start: u32,
    pub length: u32,
}

/// A function of the module itself: name and arity.
#[derive(Clone, Debug, PartialEq, Eq)]
pub struct Id {
    pub name: String,
    pub arity: u32,
}

/// A function of some module: module, name and arity.
#[derive(Clone, Debug, PartialEq, Eq)]
pub struct RemoteId {
    pub module: String,
    pub name: String,
    pub arity: u32,
}

/// A whole module: its forms, in source order.
pub type AST = Vec<ExternalForm>;

/// A top-level declaration of a module.
#[derive(Debug, PartialEq, Eq)]
pub enum ExternalForm {
    Module(Module),
    CompileExportAll(CompileExportAll),
    Export(Export),
    Import(Import),
    ExportType(ExportType),
    FunDecl(FunDecl),
    File(File),
    ElpMetadata(ElpMetadata),
    Behaviour(Behaviour),
    EqwalizerNowarnFunction(EqwalizerNowarnFunction),
    EqwalizerUnlimitedRefinement(EqwalizerUnlimitedRefinement),
    TypingAttribute(TypingAttribute),
    ExternalTypeDecl(ExternalTypeDecl),
    ExternalOpaqueDecl(ExternalOpaqueDecl),
    ExternalFunSpec(ExternalFunSpec),
    ExternalCallback(ExternalCallback),
    ExternalOptionalCallbacks(ExternalOptionalCallbacks),
    ExternalRecDecl(ExternalRecDecl),
}

/// `-module(m).`
#[derive(Debug, PartialEq, Eq)]
pub struct Module {
    pub location: Location,
    pub name: String,
}

/// `-compile(export_all).`
#[derive(Debug, PartialEq, Eq)]
pub struct CompileExportAll {
    pub location: Location,
}

/// `-export([...]).`
#[derive(Debug, PartialEq, Eq)]
pub struct Export {
    pub location: Location,
    pub funs: Vec<Id>,
}

/// `-import(m, [...]).`
#[derive(Debug, PartialEq, Eq)]
pub struct Import {
    pub location: Location,
    pub module: String,
    pub funs: Vec<Id>,
}

/// `-export_type([...]).`
#[derive(Debug, PartialEq, Eq)]
pub struct ExportType {
    pub location: Location,
    pub types: Vec<Id>,
}

/// A function definition.
#[derive(Debug, PartialEq, Eq)]
pub struct FunDecl {
    pub location: Location,
    pub id: Id,
    pub clauses: Vec<Clause>,
}

/// `-file(...)` marker.
#[derive(Debug, PartialEq, Eq)]
pub struct File {
    pub location: Location,
    pub file: String,
    pub start: u32,
}

/// Checker metadata: places of fixme comments.
#[derive(Debug, PartialEq, Eq)]
pub struct ElpMetadata {
    pub location: Location,
    pub fixmes: Vec<Location>,
}

/// `-behaviour(b).`
#[derive(Debug, PartialEq, Eq)]
pub struct Behaviour {
    pub location: Location,
    pub name: String,
}

/// `-eqwalizer({nowarn_function, f/a}).`
#[derive(Debug, PartialEq, Eq)]
pub struct EqwalizerNowarnFunction {
    pub location: Location,
    pub id: Id,
}

/// `-eqwalizer({unlimited_refinement, f/a}).`
#[derive(Debug, PartialEq, Eq)]
pub struct EqwalizerUnlimitedRefinement {
    pub location: Location,
    pub id: Id,
}

/// `-typing([...]).`
#[derive(Debug, PartialEq, Eq)]
pub struct TypingAttribute {
    pub location: Location,
    pub names: Vec<String>,
}

/// `-type t(...) :: ...` (the type itself is not kept).
#[derive(Debug, PartialEq, Eq)]
pub struct ExternalTypeDecl {
    pub location: Location,
    pub id: Id,
    pub params: Vec<String>,
}

/// `-opaque t(...) :: ...`.
#[derive(Debug, PartialEq, Eq)]
pub struct ExternalOpaqueDecl {
    pub location: Location,
    pub id: Id,
    pub params: Vec<String>,
}

/// `-spec f(...) -> ...`.
#[derive(Debug, PartialEq, Eq)]
pub struct ExternalFunSpec {
    pub location: Location,
    pub id: Id,
}

/// `-callback f(...) -> ...`.
#[derive(Debug, PartialEq, Eq)]
pub struct ExternalCallback {
    pub location: Location,
    pub id: Id,
}

/// `-optional_callbacks([...]).`
#[derive(Debug, PartialEq, Eq)]
pub struct ExternalOptionalCallbacks {
    pub location: Location,
    pub ids: Vec<Id>,
}

/// `-record(r, {...}).`
#[derive(Debug, PartialEq, Eq)]
pub struct ExternalRecDecl {
    pub location: Location,
    pub name: String,
    pub file: Option<String>,
    pub fields: Vec<ExternalRecField>,
}

/// An expression.
#[derive(Debug, PartialEq, Eq)]
pub enum Expr {
    Var(Var),
    AtomLit(AtomLit),
    IntLit(IntLit),
    FloatLit(FloatLit),
    Block(Block),
    Match(Match),
    Tuple(Tuple),
    StringLit(StringLit),
    NilLit(NilLit),
    Cons(Cons),
    Case(Case),
    If(If),
    LocalCall(LocalCall),
    DynCall(DynCall),
    RemoteCall(RemoteCall),
    LocalFun(LocalFun),
    RemoteFun(RemoteFun),
    DynRemoteFun(DynRemoteFun),
    DynRemoteFunArity(DynRemoteFunArity),
    Lambda(Lambda),
    UnOp(UnOp),
    BinOp(BinOp),
    LComprehension(LComprehension),
    BComprehension(BComprehension),
    MComprehension(MComprehension),
    Binary(Binary),
    Catch(Catch),
    TryCatchExpr(TryCatchExpr),
    TryOfCatchExpr(TryOfCatchExpr),
    Receive(Receive),
    ReceiveWithTimeout(ReceiveWithTimeout),
    RecordCreate(RecordCreate),
    RecordUpdate(RecordUpdate),
    RecordSelect(RecordSelect),
    RecordIndex(RecordIndex),
    MapCreate(MapCreate),
    MapUpdate(MapUpdate),
    Maybe(Maybe),
    MaybeElse(MaybeElse),
    MaybeMatch(MaybeMatch),
}

/// A variable occurrence.
#[derive(Debug, PartialEq, Eq)]
pub struct Var {
    pub location: Location,
    pub name: String,
}

/// An atom literal.
#[derive(Debug, PartialEq, Eq)]
pub struct AtomLit {
    pub location: Location,
    pub s: String,
}

/// An integer literal; `None` when it does not fit an `i64`.
#[derive(Debug, PartialEq, Eq)]
pub struct IntLit {
    pub location: Location,
    pub value: Option<i64>,
}

/// A float literal (its value is not kept).
#[derive(Debug, PartialEq, Eq)]
pub struct FloatLit {
    pub location: Location,
}

/// `begin ... end`.
#[derive(Debug, PartialEq, Eq)]
pub struct Block {
    pub location: Location,
    pub body: Body,
}

/// `Pat = Expr`.
#[derive(Debug, PartialEq, Eq)]
pub struct Match {
    pub location: Location,
    pub pat: Pat,
    pub expr: Box<Expr>,
}

/// `{E1, ..., En}`.
#[derive(Debug, PartialEq, Eq)]
pub struct Tuple {
    pub location: Location,
    pub elems: Vec<Expr>,
}

/// A string literal.
#[derive(Debug, PartialEq, Eq)]
pub struct StringLit {
    pub location: Location,
    pub empty: bool,
}

/// `[]`.
#[derive(Debug, PartialEq, Eq)]
pub struct NilLit {
    pub location: Location,
}

/// `[H | T]`.
#[derive(Debug, PartialEq, Eq)]
pub struct Cons {
    pub location: Location,
    pub h: Box<Expr>,
    pub t: Box<Expr>,
}

/// `case E of ... end`.
#[derive(Debug, PartialEq, Eq)]
pub struct Case {
    pub location: Location,
    pub expr: Box<Expr>,
    pub clauses: Vec<Clause>,
}

/// `if ... end`.
#[derive(Debug, PartialEq, Eq)]
pub struct If {
    pub location: Location,
    pub clauses: Vec<Clause>,
}

/// `f(Args)`.
#[derive(Debug, PartialEq, Eq)]
pub struct LocalCall {
    pub location: Location,
    pub id: Id,
    pub args: Vec<Expr>,
}

/// `F(Args)` with a computed function.
#[derive(Debug, PartialEq, Eq)]
pub struct DynCall {
    pub location: Location,
    pub f: Box<Expr>,
    pub args: Vec<Expr>,
}

/// `m:f(Args)`.
#[derive(Debug, PartialEq, Eq)]
pub struct RemoteCall {
    pub location: Location,
    pub id: RemoteId,
    pub args: Vec<Expr>,
}

/// `fun f/A`.
#[derive(Debug, PartialEq, Eq)]
pub struct LocalFun {
    pub location: Location,
    pub id: Id,
}

/// `fun m:f/A`.
#[derive(Debug, PartialEq, Eq)]
pub struct RemoteFun {
    pub location: Location,
    pub id: RemoteId,
}

/// `M:F` as a call target.
#[derive(Debug, PartialEq, Eq)]
pub struct DynRemoteFun {
    pub location: Location,
    pub module: Box<Expr>,
    pub name: Box<Expr>,
}

/// `fun M:F/A`.
#[derive(Debug, PartialEq, Eq)]
pub struct DynRemoteFunArity {
    pub location: Location,
    pub module: Box<Expr>,
    pub name: Box<Expr>,
    pub arity: Box<Expr>,
}

/// `fun (...) -> ... end`, possibly named.
#[derive(Debug, PartialEq, Eq)]
pub struct Lambda {
    pub location: Location,
    pub clauses: Vec<Clause>,
    pub name: Option<String>,
}

/// A unary operator.
#[derive(Debug, PartialEq, Eq)]
pub struct UnOp {
    pub location: Location,
    pub op: String,
    pub arg: Box<Expr>,
}

/// A binary operator.
#[derive(Debug, PartialEq, Eq)]
pub struct BinOp {
    pub location: Location,
    pub op: String,
    pub arg_1: Box<Expr>,
    pub arg_2: Box<Expr>,
}

/// `[T || Qs]`.
#[derive(Debug, PartialEq, Eq)]
pub struct LComprehension {
    pub location: Location,
    pub template: Box<Expr>,
    pub qualifiers: Vec<Qualifier>,
}

/// `<< T || Qs >>`.
#[derive(Debug, PartialEq, Eq)]
pub struct BComprehension {
    pub location: Location,
    pub template: Box<Expr>,
    pub qualifiers: Vec<Qualifier>,
}

/// `#{K => V || Qs}`.
#[derive(Debug, PartialEq, Eq)]
pub struct MComprehension {
    pub location: Location,
    pub k_template: Box<Expr>,
    pub v_template: Box<Expr>,
    pub qualifiers: Vec<Qualifier>,
}

/// `<< E1, ..., En >>`.
#[derive(Debug, PartialEq, Eq)]
pub struct Binary {
    pub location: Location,
    pub elems: Vec<BinaryElem>,
}

/// `catch E`.
#[derive(Debug, PartialEq, Eq)]
pub struct Catch {
    pub location: Location,
    pub expr: Box<Expr>,
}

/// `try ... catch ... after ... end`.
#[derive(Debug, PartialEq, Eq)]
pub struct TryCatchExpr {
    pub location: Location,
    pub try_body: Body,
    pub catch_clauses: Vec<Clause>,
    pub after_body: Option<Body>,
}

/// `try ... of ... catch ... after ... end`.
#[derive(Debug, PartialEq, Eq)]
pub struct TryOfCatchExpr {
    pub location: Location,
    pub try_body: Body,
    pub try_clauses: Vec<Clause>,
    pub catch_clauses: Vec<Clause>,
    pub after_body: Option<Body>,
}

/// `receive ... end`.
#[derive(Debug, PartialEq, Eq)]
pub struct Receive {
    pub location: Location,
    pub clauses: Vec<Clause>,
}

/// `receive ... after T -> ... end`.
#[derive(Debug, PartialEq, Eq)]
pub struct ReceiveWithTimeout {
    pub location: Location,
    pub clauses: Vec<Clause>,
    pub timeout: Box<Expr>,
    pub timeout_body: Body,
}

/// `#r{...}`.
#[derive(Debug, PartialEq, Eq)]
pub struct RecordCreate {
    pub location: Location,
    pub rec_name: String,
    pub fields: Vec<RecordField>,
}

/// `E#r{...}`.
#[derive(Debug, PartialEq, Eq)]
pub struct RecordUpdate {
    pub location: Location,
    pub rec_name: String,
    pub expr: Box<Expr>,
    pub fields: Vec<RecordFieldNamed>,
}

/// `E#r.f`.
#[derive(Debug, PartialEq, Eq)]
pub struct RecordSelect {
    pub location: Location,
    pub rec_name: String,
    pub field_name: String,
    pub expr: Box<Expr>,
}

/// `#r.f`.
#[derive(Debug, PartialEq, Eq)]
pub struct RecordIndex {
    pub location: Location,
    pub rec_name: String,
    pub field_name: String,
}

/// `#{K => V, ...}`.
#[derive(Debug, PartialEq, Eq)]
pub struct MapCreate {
    pub location: Location,
    pub kvs: Vec<(Expr, Expr)>,
}

/// `M#{K => V, ...}`.
#[derive(Debug, PartialEq, Eq)]
pub struct MapUpdate {
    pub location: Location,
    pub map: Box<Expr>,
    pub kvs: Vec<(Expr, Expr)>,
}

/// `maybe ... end`.
#[derive(Debug, PartialEq, Eq)]
pub struct Maybe {
    pub location: Location,
    pub body: Body,
}

/// `maybe ... else ... end`.
#[derive(Debug, PartialEq, Eq)]
pub struct MaybeElse {
    pub location: Location,
    pub body: Body,
    pub else_clauses: Vec<Clause>,
}

/// `Pat ?= Expr` inside `maybe`.
#[derive(Debug, PartialEq, Eq)]
pub struct MaybeMatch {
    pub location: Location,
    pub pat: Pat,
    pub arg: Box<Expr>,
}

/// A generator or filter of a comprehension.
#[derive(Debug, PartialEq, Eq)]
pub enum Qualifier {
    LGenerate(LGenerate),
    BGenerate(BGenerate),
    MGenerate(MGenerate),
    Filter(Filter),
}

/// `Pat <- List`.
#[derive(Debug, PartialEq, Eq)]
pub struct LGenerate {
    pub pat: Pat,
    pub expr: Expr,
}

/// `Pat <= Binary`.
#[derive(Debug, PartialEq, Eq)]
pub struct BGenerate {
    pub pat: Pat,
    pub expr: Expr,
}

/// `K := V <- Map`.
#[derive(Debug, PartialEq, Eq)]
pub struct MGenerate {
    pub k_pat: Pat,
    pub v_pat: Pat,
    pub expr: Expr,
}

/// A boolean filter.
#[derive(Debug, PartialEq, Eq)]
pub struct Filter {
    pub expr: Expr,
}

/// A field of a record construction.
#[derive(Debug, PartialEq, Eq)]
pub enum RecordField {
    RecordFieldGen(RecordFieldGen),
    RecordFieldNamed(RecordFieldNamed),
}

/// `_ = V` in a record construction.
#[derive(Debug, PartialEq, Eq)]
pub struct RecordFieldGen {
    pub value: Expr,
}

/// `f = V` in a record.
#[derive(Debug, PartialEq, Eq)]
pub struct RecordFieldNamed {
    pub name: String,
    pub value: Expr,
}

/// A pattern.
#[derive(Debug, PartialEq, Eq)]
pub enum Pat {
    PatWild(PatWild),
    PatMatch(PatMatch),
    PatTuple(PatTuple),
    PatString(PatString),
    PatNil(PatNil),
    PatCons(PatCons),
    PatInt(PatInt),
    PatNumber(PatNumber),
    PatAtom(PatAtom),
    PatVar(PatVar),
    PatRecord(PatRecord),
    PatRecordIndex(PatRecordIndex),
    PatUnOp(PatUnOp),
    PatBinOp(PatBinOp),
    PatBinary(PatBinary),
    PatMap(PatMap),
}

/// `_`.
#[derive(Debug, PartialEq, Eq)]
pub struct PatWild {
    pub location: Location,
}

/// `Left = Right` in a pattern.
#[derive(Debug, PartialEq, Eq)]
pub struct PatMatch {
    pub location: Location,
    pub pat: Box<Pat>,
    pub arg: Box<Pat>,
}

/// A tuple pattern.
#[derive(Debug, PartialEq, Eq)]
pub struct PatTuple {
    pub location: Location,
    pub elems: Vec<Pat>,
}

/// A string pattern.
#[derive(Debug, PartialEq, Eq)]
pub struct PatString {
    pub location: Location,
}

/// `[]`.
#[derive(Debug, PartialEq, Eq)]
pub struct PatNil {
    pub location: Location,
}

/// `[H | T]`.
#[derive(Debug, PartialEq, Eq)]
pub struct PatCons {
    pub location: Location,
    pub h: Box<Pat>,
    pub t: Box<Pat>,
}

/// An integer pattern.
#[derive(Debug, PartialEq, Eq)]
pub struct PatInt {
    pub location: Location,
}

/// A float pattern.
#[derive(Debug, PartialEq, Eq)]
pub struct PatNumber {
    pub location: Location,
}

/// An atom pattern.
#[derive(Debug, PartialEq, Eq)]
pub struct PatAtom {
    pub location: Location,
    pub s: String,
}

/// A variable pattern.
#[derive(Debug, PartialEq, Eq)]
pub struct PatVar {
    pub location: Location,
    pub name: String,
}

/// `#r{f = P, _ = G}`.
#[derive(Debug, PartialEq, Eq)]
pub struct PatRecord {
    pub location: Location,
    pub rec_name: String,
    pub fields: Vec<PatRecordFieldNamed>,
    pub gen_pat: Option<Box<Pat>>,
}

/// `#r.f`.
#[derive(Debug, PartialEq, Eq)]
pub struct PatRecordIndex {
    pub location: Location,
    pub rec_name: String,
    pub field_name: String,
}

/// A unary operator in a pattern.
#[derive(Debug, PartialEq, Eq)]
pub struct PatUnOp {
    pub location: Location,
    pub op: String,
    pub arg: Box<Pat>,
}

/// A binary operator in a pattern.
#[derive(Debug, PartialEq, Eq)]
pub struct PatBinOp {
    pub location: Location,
    pub op: String,
    pub arg_1: Box<Pat>,
    pub arg_2: Box<Pat>,
}

/// A binary pattern.
#[derive(Debug, PartialEq, Eq)]
pub struct PatBinary {
    pub location: Location,
    pub elems: Vec<PatBinaryElem>,
}

/// `#{K := P, ...}`.
#[derive(Debug, PartialEq, Eq)]
pub struct PatMap {
    pub location: Location,
    pub kvs: Vec<(Test, Pat)>,
}

/// A guard test: the side-effect-free part of the expression language.
#[derive(Debug, PartialEq, Eq)]
pub enum Test {
    TestVar(TestVar),
    TestAtom(TestAtom),
    TestNumber(TestNumber),
    TestTuple(TestTuple),
    TestString(TestString),
    TestNil(TestNil),
    TestCons(TestCons),
    TestCall(TestCall),
    TestRecordCreate(TestRecordCreate),
    TestRecordSelect(TestRecordSelect),
    TestRecordIndex(TestRecordIndex),
    TestMapCreate(TestMapCreate),
    TestMapUpdate(TestMapUpdate),
    TestUnOp(TestUnOp),
    TestBinOp(TestBinOp),
    TestBinaryLit(TestBinaryLit),
}

/// A variable.
#[derive(Debug, PartialEq, Eq)]
pub struct TestVar {
    pub location: Location,
    pub name: String,
}

/// An atom.
#[derive(Debug, PartialEq, Eq)]
pub struct TestAtom {
    pub location: Location,
    pub s: String,
}

/// A number; `None` when it is no `i64`.
#[derive(Debug, PartialEq, Eq)]
pub struct TestNumber {
    pub location: Location,
    pub lit: Option<i64>,
}

/// `{T1, ..., Tn}`.
#[derive(Debug, PartialEq, Eq)]
pub struct TestTuple {
    pub location: Location,
    pub elems: Vec<Test>,
}

/// A string.
#[derive(Debug, PartialEq, Eq)]
pub struct TestString {
    pub location: Location,
}

/// `[]`.
#[derive(Debug, PartialEq, Eq)]
pub struct TestNil {
    pub location: Location,
}

/// `[H | T]`.
#[derive(Debug, PartialEq, Eq)]
pub struct TestCons {
    pub location: Location,
    pub h: Box<Test>,
    pub t: Box<Test>,
}

/// A call of a guard function.
#[derive(Debug, PartialEq, Eq)]
pub struct TestCall {
    pub location: Location,
    pub id: RemoteId,
    pub args: Vec<Test>,
}

/// `#r{...}`.
#[derive(Debug, PartialEq, Eq)]
pub struct TestRecordCreate {
    pub location: Location,
    pub rec_name: String,
    pub fields: Vec<TestRecordField>,
}

/// `T#r.f`.
#[derive(Debug, PartialEq, Eq)]
pub struct TestRecordSelect {
    pub location: Location,
    pub rec: Box<Test>,
    pub rec_name: String,
    pub field_name: String,
}

/// `#r.f`.
#[derive(Debug, PartialEq, Eq)]
pub struct TestRecordIndex {
    pub location: Location,
    pub rec_name: String,
    pub field_name: String,
}

/// `#{K => V, ...}`.
#[derive(Debug, PartialEq, Eq)]
pub struct TestMapCreate {
    pub location: Location,
    pub kvs: Vec<(Test, Test)>,
}

/// `M#{K => V, ...}`.
#[derive(Debug, PartialEq, Eq)]
pub struct TestMapUpdate {
    pub location: Location,
    pub map: Box<Test>,
    pub kvs: Vec<(Test, Test)>,
}

/// A unary operator.
#[derive(Debug, PartialEq, Eq)]
pub struct TestUnOp {
    pub location: Location,
    pub op: String,
    pub arg: Box<Test>,
}

/// A binary operator.
#[derive(Debug, PartialEq, Eq)]
pub struct TestBinOp {
    pub location: Location,
    pub op: String,
    pub arg_1: Box<Test>,
    pub arg_2: Box<Test>,
}

/// A binary literal.
#[derive(Debug, PartialEq, Eq)]
pub struct TestBinaryLit {
    pub location: Location,
}

/// A field of a record construction in a guard.
#[derive(Debug, PartialEq, Eq)]
pub enum TestRecordField {
    TestRecordFieldNamed(TestRecordFieldNamed),
    TestRecordFieldGen(TestRecordFieldGen),
}

/// `f = T`.
#[derive(Debug, PartialEq, Eq)]
pub struct TestRecordFieldNamed {
    pub name: String,
    pub value: Test,
}

/// `_ = T`.
#[derive(Debug, PartialEq, Eq)]
pub struct TestRecordFieldGen {
    pub value: Test,
}

/// A sequence of expressions; the value is the last one.
#[derive(Debug, PartialEq, Eq)]
pub struct Body {
    pub exprs: Vec<Expr>,
}

/// One clause: patterns, guards and a body.
#[derive(Debug, PartialEq, Eq)]
pub struct Clause {
    pub location: Location,
    pub pats: Vec<Pat>,
    pub guards: Vec<Guard>,
    pub body: Body,
}

/// Tests that must all hold.
#[derive(Debug, PartialEq, Eq)]
pub struct Guard {
    pub tests: Vec<Test>,
}

/// One segment of a binary.
#[derive(Debug, PartialEq, Eq)]
pub struct BinaryElem {
    pub location: Location,
    pub expr: Expr,
    pub size: Option<Expr>,
    pub specifier: String,
}

/// One segment of a binary pattern.
#[derive(Debug, PartialEq, Eq)]
pub struct PatBinaryElem {
    pub location: Location,
    pub pat: Pat,
    pub size: Option<Expr>,
    pub specifier: String,
}

/// `f = P` in a record pattern.
#[derive(Debug, PartialEq, Eq)]
pub struct PatRecordFieldNamed {
    pub name: String,
    pub pat: Pat,
}

/// A record field with its optional default.
#[derive(Debug, PartialEq, Eq)]
pub struct ExternalRecField {
    pub name: String,
    pub default_value: Option<Expr>,
}

} // verus!
