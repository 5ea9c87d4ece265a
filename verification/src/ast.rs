//! The syntax tree that the unparser renders: statements, expressions, match
//! patterns and their auxiliary nodes, as plain owned data.
//!
//! The tree is a strict tree: a node owns its children, nothing is shared and
//! nothing is mutated while it is rendered. Identifiers and literal texts are
//! `String`s, child lists are `Vec`s, optional children are `Option`s.

use vstd::prelude::*;

verus! {

/// The two short-circuit operators.
#[derive(Clone, Copy, Debug, PartialEq, Eq)]
pub enum BoolOp {
    And,
    Or,
}

/// The binary arithmetic and bitwise operators.
#[derive(Clone, Copy, Debug, PartialEq, Eq)]
pub enum Operator {
    Add,
    Sub,
    Mult,
    MatMult,
    Div,
    Mod,
    Pow,
    LShift,
    RShift,
    BitOr,
    BitXor,
    BitAnd,
    FloorDiv,
}

/// The prefix operators.
#[derive(Clone, Copy, Debug, PartialEq, Eq)]
pub enum UnaryOp {
    Invert,
    Not,
    UAdd,
    USub,
}

/// The comparison operators of a comparison chain.
#[derive(Clone, Copy, Debug, PartialEq, Eq)]
pub enum CmpOp {
    Eq,
    NotEq,
    Lt,
    LtE,
    Gt,
    GtE,
    Is,
    IsNot,
    In,
    NotIn,
}

/// The conversion applied to an interpolated value (`!s`, `!a`, `!r`).
#[derive(Clone, Copy, Debug, PartialEq, Eq)]
pub enum ConversionFlag {
    Unconverted,
    Str,
    Ascii,
    Repr,
}

/// An integer literal of any size: a sign and the magnitude in base 2^32,
/// least significant limb first. Leading zero limbs are allowed.
#[derive(Debug, PartialEq, Eq)]
pub struct Integer {
    pub negative: bool,
    pub magnitude: Vec<u32>,
}

/// A literal value.
///
/// Floating-point numbers are held as the text of their literal, which is
/// emitted as it stands. A complex number holds the text of its imaginary
/// part and, unless it is purely imaginary, that of its real part.
#[derive(Debug, PartialEq, Eq)]
pub enum Constant {
    NoneValue,
    Bool(bool),
    Str(String),
    Bytes(Vec<u8>),
    Int(Integer),
    Tuple(Vec<Constant>),
    Float(String),
    Complex { re: Option<String>, im: String },
    Ellipsis,
}

#[derive(Debug, PartialEq, Eq)]
pub struct ExprBoolOp {
    pub op: BoolOp,
    pub values: Vec<Expr>,
}

#[derive(Debug, PartialEq, Eq)]
pub struct ExprNamedExpr {
    pub target: Box<Expr>,
    pub value: Box<Expr>,
}

#[derive(Debug, PartialEq, Eq)]
pub struct ExprBinOp {
    pub left: Box<Expr>,
    pub op: Operator,
    pub right: Box<Expr>,
}

#[derive(Debug, PartialEq, Eq)]
pub struct ExprUnaryOp {
    pub op: UnaryOp,
    pub operand: Box<Expr>,
}

#[derive(Debug, PartialEq, Eq)]
pub struct ExprLambda {
    pub args: Box<Arguments>,
    pub body: Box<Expr>,
}

#[derive(Debug, PartialEq, Eq)]
pub struct ExprIfExp {
    pub test: Box<Expr>,
    pub body: Box<Expr>,
    pub orelse: Box<Expr>,
}

/// One entry of a dict display: `key: value`, or `**value` where there is
/// no key.
#[derive(Debug, PartialEq, Eq)]
pub struct DictItem {
    pub key: Option<Expr>,
    pub value: Expr,
}

#[derive(Debug, PartialEq, Eq)]
pub struct ExprDict {
    pub items: Vec<DictItem>,
}

#[derive(Debug, PartialEq, Eq)]
pub struct ExprSet {
    pub elts: Vec<Expr>,
}

#[derive(Debug, PartialEq, Eq)]
pub struct ExprListComp {
    pub elt: Box<Expr>,
    pub generators: Vec<Comprehension>,
}

#[derive(Debug, PartialEq, Eq)]
pub struct ExprSetComp {
    pub elt: Box<Expr>,
    pub generators: Vec<Comprehension>,
}

#[derive(Debug, PartialEq, Eq)]
pub struct ExprDictComp {
    pub key: Box<Expr>,
    pub value: Box<Expr>,
    pub generators: Vec<Comprehension>,
}

#[derive(Debug, PartialEq, Eq)]
pub struct ExprGeneratorExp {
    pub elt: Box<Expr>,
    pub generators: Vec<Comprehension>,
}

#[derive(Debug, PartialEq, Eq)]
pub struct ExprAwait {
    pub value: Box<Expr>,
}

#[derive(Debug, PartialEq, Eq)]
pub struct ExprYield {
    pub value: Option<Box<Expr>>,
}

#[derive(Debug, PartialEq, Eq)]
pub struct ExprYieldFrom {
    pub value: Box<Expr>,
}

/// One step of a comparison chain: the operator and its right operand.
#[derive(Debug, PartialEq, Eq)]
pub struct Comparison {
    pub op: CmpOp,
    pub comparator: Expr,
}

#[derive(Debug, PartialEq, Eq)]
pub struct ExprCompare {
    pub left: Box<Expr>,
    pub comparisons: Vec<Comparison>,
}

#[derive(Debug, PartialEq, Eq)]
pub struct ExprCall {
    pub func: Box<Expr>,
    pub args: Vec<Expr>,
    pub keywords: Vec<Keyword>,
}

/// One interpolated value of a formatted string. It has no rendering.
#[derive(Debug, PartialEq, Eq)]
pub struct ExprFormattedValue {
    pub value: Box<Expr>,
    pub conversion: ConversionFlag,
    pub format_spec: Option<Box<Expr>>,
}

/// A formatted string. It has no rendering.
#[derive(Debug, PartialEq, Eq)]
pub struct ExprJoinedStr {
    pub values: Vec<Expr>,
}

#[derive(Debug, PartialEq, Eq)]
pub struct ExprConstant {
    pub value: Constant,
    pub kind: Option<String>,
}

#[derive(Debug, PartialEq, Eq)]
pub struct ExprAttribute {
    pub value: Box<Expr>,
    pub attr: String,
}

#[derive(Debug, PartialEq, Eq)]
pub struct ExprSubscript {
    pub value: Box<Expr>,
    pub slice: Box<Expr>,
}

#[derive(Debug, PartialEq, Eq)]
pub struct ExprStarred {
    pub value: Box<Expr>,
}

#[derive(Debug, PartialEq, Eq)]
pub struct ExprName {
    pub id: String,
}

#[derive(Debug, PartialEq, Eq)]
pub struct ExprList {
    pub elts: Vec<Expr>,
}

#[derive(Debug, PartialEq, Eq)]
pub struct ExprTuple {
    pub elts: Vec<Expr>,
}

#[derive(Debug, PartialEq, Eq)]
pub struct ExprSlice {
    pub lower: Option<Box<Expr>>,
    pub upper: Option<Box<Expr>>,
    pub step: Option<Box<Expr>>,
}

/// An expression.
#[derive(Debug, PartialEq, Eq)]
pub enum Expr {
    BoolOp(ExprBoolOp),
    NamedExpr(ExprNamedExpr),
    BinOp(ExprBinOp),
    UnaryOp(ExprUnaryOp),
    Lambda(ExprLambda),
    IfExp(ExprIfExp),
    Dict(ExprDict),
    SetExpr(ExprSet),
    ListComp(ExprListComp),
    SetComp(ExprSetComp),
    DictComp(ExprDictComp),
    GeneratorExp(ExprGeneratorExp),
    Await(ExprAwait),
    Yield(ExprYield),
    YieldFrom(ExprYieldFrom),
    Compare(ExprCompare),
    Call(ExprCall),
    FormattedValue(ExprFormattedValue),
    JoinedStr(ExprJoinedStr),
    Constant(ExprConstant),
    Attribute(ExprAttribute),
    Subscript(ExprSubscript),
    Starred(ExprStarred),
    Name(ExprName),
    List(ExprList),
    Tuple(ExprTuple),
    Slice(ExprSlice),
}

/// One `for` clause of a comprehension with its `if` filters.
#[derive(Debug, PartialEq, Eq)]
pub struct Comprehension {
    pub target: Expr,
    pub iter: Expr,
    pub ifs: Vec<Expr>,
    pub is_async: bool,
}

/// A parameter name with its optional annotation.
#[derive(Debug, PartialEq, Eq)]
pub struct Arg {
    pub arg: String,
    pub annotation: Option<Box<Expr>>,
}

/// A parameter with its optional default value.
#[derive(Debug, PartialEq, Eq)]
pub struct ArgWithDefault {
    pub def: Arg,
    pub default: Option<Box<Expr>>,
}

/// The parameter list of a function or lambda, in its five groups.
#[derive(Debug, PartialEq, Eq)]
pub struct Arguments {
    pub posonlyargs: Vec<ArgWithDefault>,
    pub args: Vec<ArgWithDefault>,
    pub vararg: Option<Box<Arg>>,
    pub kwonlyargs: Vec<ArgWithDefault>,
    pub kwarg: Option<Box<Arg>>,
}

/// A keyword argument of a call or class header: `arg=value`, or `**value`
/// where there is no name.
#[derive(Debug, PartialEq, Eq)]
pub struct Keyword {
    pub arg: Option<String>,
    pub value: Expr,
}

/// An imported name with its optional local name.
#[derive(Debug, PartialEq, Eq)]
pub struct Alias {
    pub name: String,
    pub asname: Option<String>,
}

/// One context manager of a `with` statement.
#[derive(Debug, PartialEq, Eq)]
pub struct WithItem {
    pub context_expr: Expr,
    pub optional_vars: Option<Box<Expr>>,
}

#[derive(Debug, PartialEq, Eq)]
pub struct TypeParamTypeVar {
    pub name: String,
    pub bound: Option<Box<Expr>>,
}

#[derive(Debug, PartialEq, Eq)]
pub struct TypeParamParamSpec {
    pub name: String,
}

#[derive(Debug, PartialEq, Eq)]
pub struct TypeParamTypeVarTuple {
    pub name: String,
}

/// A type parameter of a generic function, class or type alias.
#[derive(Debug, PartialEq, Eq)]
pub enum TypeParam {
    TypeVar(TypeParamTypeVar),
    ParamSpec(TypeParamParamSpec),
    TypeVarTuple(TypeParamTypeVarTuple),
}

#[derive(Debug, PartialEq, Eq)]
pub struct PatternMatchValue {
    pub value: Box<Expr>,
}

#[derive(Debug, PartialEq, Eq)]
pub struct PatternMatchSingleton {
    pub value: Constant,
}

#[derive(Debug, PartialEq, Eq)]
pub struct PatternMatchSequence {
    pub patterns: Vec<Pattern>,
}

/// One `key: pattern` pair of a mapping pattern.
#[derive(Debug, PartialEq, Eq)]
pub struct MappingEntry {
    pub key: Expr,
    pub pattern: Pattern,
}

#[derive(Debug, PartialEq, Eq)]
pub struct PatternMatchMapping {
    pub entries: Vec<MappingEntry>,
    pub rest: Option<String>,
}

/// One `attr=pattern` pair of a class pattern.
#[derive(Debug, PartialEq, Eq)]
pub struct KeywordPattern {
    pub attr: String,
    pub pattern: Pattern,
}

#[derive(Debug, PartialEq, Eq)]
pub struct PatternMatchClass {
    pub cls: Box<Expr>,
    pub patterns: Vec<Pattern>,
    pub kwd_patterns: Vec<KeywordPattern>,
}

#[derive(Debug, PartialEq, Eq)]
pub struct PatternMatchStar {
    pub name: Option<String>,
}

#[derive(Debug, PartialEq, Eq)]
pub struct PatternMatchAs {
    pub pattern: Option<Box<Pattern>>,
    pub name: Option<String>,
}

#[derive(Debug, PartialEq, Eq)]
pub struct PatternMatchOr {
    pub patterns: Vec<Pattern>,
}

/// A pattern of a `case` clause.
#[derive(Debug, PartialEq, Eq)]
pub enum Pattern {
    MatchValue(PatternMatchValue),
    MatchSingleton(PatternMatchSingleton),
    MatchSequence(PatternMatchSequence),
    MatchMapping(PatternMatchMapping),
    MatchClass(PatternMatchClass),
    MatchStar(PatternMatchStar),
    MatchAs(PatternMatchAs),
    MatchOr(PatternMatchOr),
}

#[derive(Debug, PartialEq, Eq)]
pub struct StmtFunctionDef {
    pub name: String,
    pub args: Box<Arguments>,
    pub body: Vec<Stmt>,
    pub decorator_list: Vec<Expr>,
    pub returns: Option<Box<Expr>>,
    pub type_params: Vec<TypeParam>,
}

#[derive(Debug, PartialEq, Eq)]
pub struct StmtAsyncFunctionDef {
    pub name: String,
    pub args: Box<Arguments>,
    pub body: Vec<Stmt>,
    pub decorator_list: Vec<Expr>,
    pub returns: Option<Box<Expr>>,
    pub type_params: Vec<TypeParam>,
}

#[derive(Debug, PartialEq, Eq)]
pub struct StmtClassDef {
    pub name: String,
    pub bases: Vec<Expr>,
    pub keywords: Vec<Keyword>,
    pub body: Vec<Stmt>,
    pub decorator_list: Vec<Expr>,
    pub type_params: Vec<TypeParam>,
}

#[derive(Debug, PartialEq, Eq)]
pub struct StmtReturn {
    pub value: Option<Box<Expr>>,
}

#[derive(Debug, PartialEq, Eq)]
pub struct StmtDelete {
    pub targets: Vec<Expr>,
}

#[derive(Debug, PartialEq, Eq)]
pub struct StmtAssign {
    pub targets: Vec<Expr>,
    pub value: Box<Expr>,
    pub type_comment: Option<String>,
}

#[derive(Debug, PartialEq, Eq)]
pub struct StmtTypeAlias {
    pub name: Box<Expr>,
    pub type_params: Vec<TypeParam>,
    pub value: Box<Expr>,
}

#[derive(Debug, PartialEq, Eq)]
pub struct StmtAugAssign {
    pub target: Box<Expr>,
    pub op: Operator,
    pub value: Box<Expr>,
}

#[derive(Debug, PartialEq, Eq)]
pub struct StmtAnnAssign {
    pub target: Box<Expr>,
    pub annotation: Box<Expr>,
    pub value: Option<Box<Expr>>,
    pub simple: bool,
}

#[derive(Debug, PartialEq, Eq)]
pub struct StmtFor {
    pub target: Box<Expr>,
    pub iter: Box<Expr>,
    pub body: Vec<Stmt>,
    pub orelse: Vec<Stmt>,
}

#[derive(Debug, PartialEq, Eq)]
pub struct StmtAsyncFor {
    pub target: Box<Expr>,
    pub iter: Box<Expr>,
    pub body: Vec<Stmt>,
    pub orelse: Vec<Stmt>,
}

#[derive(Debug, PartialEq, Eq)]
pub struct StmtWhile {
    pub test: Box<Expr>,
    pub body: Vec<Stmt>,
    pub orelse: Vec<Stmt>,
}

#[derive(Debug, PartialEq, Eq)]
pub struct StmtIf {
    pub test: Box<Expr>,
    pub body: Vec<Stmt>,
    pub orelse: Vec<Stmt>,
}

#[derive(Debug, PartialEq, Eq)]
pub struct StmtWith {
    pub items: Vec<WithItem>,
    pub body: Vec<Stmt>,
}

#[derive(Debug, PartialEq, Eq)]
pub struct StmtAsyncWith {
    pub items: Vec<WithItem>,
    pub body: Vec<Stmt>,
}

/// One `case` clause of a `match` statement.
#[derive(Debug, PartialEq, Eq)]
pub struct MatchCase {
    pub pattern: Pattern,
    pub guard: Option<Box<Expr>>,
    pub body: Vec<Stmt>,
}

#[derive(Debug, PartialEq, Eq)]
pub struct StmtMatch {
    pub subject: Box<Expr>,
    pub cases: Vec<MatchCase>,
}

#[derive(Debug, PartialEq, Eq)]
pub struct StmtRaise {
    pub exc: Option<Box<Expr>>,
    pub cause: Option<Box<Expr>>,
}

#[derive(Debug, PartialEq, Eq)]
pub struct ExceptHandlerExceptHandler {
    pub type_: Option<Box<Expr>>,
    pub name: Option<String>,
    pub body: Vec<Stmt>,
}

/// A handler clause of a `try` statement.
#[derive(Debug, PartialEq, Eq)]
pub enum ExceptHandler {
    ExceptHandler(ExceptHandlerExceptHandler),
}

#[derive(Debug, PartialEq, Eq)]
pub struct StmtTry {
    pub body: Vec<Stmt>,
    pub handlers: Vec<ExceptHandler>,
    pub orelse: Vec<Stmt>,
    pub finalbody: Vec<Stmt>,
}

/// A `try` statement whose handlers match exception groups.
#[derive(Debug, PartialEq, Eq)]
pub struct StmtTryStar {
    pub body: Vec<Stmt>,
    pub handlers: Vec<ExceptHandler>,
    pub orelse: Vec<Stmt>,
    pub finalbody: Vec<Stmt>,
}

#[derive(Debug, PartialEq, Eq)]
pub struct StmtAssert {
    pub test: Box<Expr>,
    pub msg: Option<Box<Expr>>,
}

#[derive(Debug, PartialEq, Eq)]
pub struct StmtImport {
    pub names: Vec<Alias>,
}

#[derive(Debug, PartialEq, Eq)]
pub struct StmtImportFrom {
    pub module: Option<String>,
    pub names: Vec<Alias>,
    pub level: Option<u32>,
}

#[derive(Debug, PartialEq, Eq)]
pub struct StmtGlobal {
    pub names: Vec<String>,
}

#[derive(Debug, PartialEq, Eq)]
pub struct StmtNonlocal {
    pub names: Vec<String>,
}

#[derive(Debug, PartialEq, Eq)]
pub struct StmtExpr {
    pub value: Box<Expr>,
}

#[derive(Debug, PartialEq, Eq)]
pub struct StmtPass {}

#[derive(Debug, PartialEq, Eq)]
pub struct StmtBreak {}

#[derive(Debug, PartialEq, Eq)]
pub struct StmtContinue {}

/// A statement.
#[derive(Debug, PartialEq, Eq)]
pub enum Stmt {
    FunctionDef(StmtFunctionDef),
    AsyncFunctionDef(StmtAsyncFunctionDef),
    ClassDef(StmtClassDef),
    Return(StmtReturn),
    Delete(StmtDelete),
    Assign(StmtAssign),
    TypeAlias(StmtTypeAlias),
    AugAssign(StmtAugAssign),
    AnnAssign(StmtAnnAssign),
    For(StmtFor),
    AsyncFor(StmtAsyncFor),
    While(StmtWhile),
    If(StmtIf),
    With(StmtWith),
    AsyncWith(StmtAsyncWith),
    Match(StmtMatch),
    Raise(StmtRaise),
    Try(StmtTry),
    TryStar(StmtTryStar),
    Assert(StmtAssert),
    Import(StmtImport),
    ImportFrom(StmtImportFrom),
    Global(StmtGlobal),
    Nonlocal(StmtNonlocal),
    Expr(StmtExpr),
    Pass(StmtPass),
    Break(StmtBreak),
    Continue(StmtContinue),
}

} // verus!
