//! Parsing what was rendered gives the tree that was rendered, and
//! rendering that tree again gives the same text.

use python_unparser::ast as model;
use python_unparser::render;
use rustpython_parser::ast as py;
use rustpython_parser::ast::bigint::{BigInt, Sign};
use rustpython_parser::Parse;


fn name(id: &py::Identifier) -> String {
    id.as_str().to_owned()
}

fn opt_name(id: &Option<py::Identifier>) -> Option<String> {
    id.as_ref().map(name)
}

fn boxed<R>(node: &py::Expr<R>) -> Box<model::Expr> {
    Box::new(expr(node))
}

fn opt_boxed<R>(node: &Option<Box<py::Expr<R>>>) -> Option<Box<model::Expr>> {
    node.as_ref().map(|inner| boxed(inner))
}

fn exprs<R>(nodes: &[py::Expr<R>]) -> Vec<model::Expr> {
    nodes.iter().map(expr).collect()
}

fn stmts<R>(nodes: &[py::Stmt<R>]) -> Vec<model::Stmt> {
    nodes.iter().map(stmt).collect()
}

fn float_text(value: f64) -> String {
    if value.is_infinite() {
        if value > 0.0 { "1e309".to_owned() } else { "-1e309".to_owned() }
    } else {
        format!("{:?}", value)
    }
}

fn integer(value: &BigInt) -> model::Integer {
    let (sign, magnitude) = value.to_u32_digits();
    model::Integer { negative: sign == Sign::Minus, magnitude }
}

fn constant(node: &py::Constant) -> model::Constant {
    match node {
        py::Constant::None => model::Constant::NoneValue,
        py::Constant::Bool(value) => model::Constant::Bool(*value),
        py::Constant::Str(value) => model::Constant::Str(value.clone()),
        py::Constant::Bytes(value) => model::Constant::Bytes(value.clone()),
        py::Constant::Int(value) => model::Constant::Int(integer(value)),
        py::Constant::Tuple(items) => model::Constant::Tuple(items.iter().map(constant).collect()),
        py::Constant::Float(value) => model::Constant::Float(float_text(*value)),
        py::Constant::Complex { real, imag } => model::Constant::Complex {
            re: if *real == 0.0 { None } else { Some(float_text(*real)) },
            im: float_text(*imag),
        },
        py::Constant::Ellipsis => model::Constant::Ellipsis,
    }
}

fn bool_op(op: &py::BoolOp) -> model::BoolOp {
    match op {
        py::BoolOp::And => model::BoolOp::And,
        py::BoolOp::Or => model::BoolOp::Or,
    }
}

fn operator(op: &py::Operator) -> model::Operator {
    match op {
        py::Operator::Add => model::Operator::Add,
        py::Operator::Sub => model::Operator::Sub,
        py::Operator::Mult => model::Operator::Mult,
        py::Operator::MatMult => model::Operator::MatMult,
        py::Operator::Div => model::Operator::Div,
        py::Operator::Mod => model::Operator::Mod,
        py::Operator::Pow => model::Operator::Pow,
        py::Operator::LShift => model::Operator::LShift,
        py::Operator::RShift => model::Operator::RShift,
        py::Operator::BitOr => model::Operator::BitOr,
        py::Operator::BitXor => model::Operator::BitXor,
        py::Operator::BitAnd => model::Operator::BitAnd,
        py::Operator::FloorDiv => model::Operator::FloorDiv,
    }
}

fn unary_op(op: &py::UnaryOp) -> model::UnaryOp {
    match op {
        py::UnaryOp::Invert => model::UnaryOp::Invert,
        py::UnaryOp::Not => model::UnaryOp::Not,
        py::UnaryOp::UAdd => model::UnaryOp::UAdd,
        py::UnaryOp::USub => model::UnaryOp::USub,
    }
}

fn compare_op(op: &py::CmpOp) -> model::CmpOp {
    match op {
        py::CmpOp::Eq => model::CmpOp::Eq,
        py::CmpOp::NotEq => model::CmpOp::NotEq,
        py::CmpOp::Lt => model::CmpOp::Lt,
        py::CmpOp::LtE => model::CmpOp::LtE,
        py::CmpOp::Gt => model::CmpOp::Gt,
        py::CmpOp::GtE => model::CmpOp::GtE,
        py::CmpOp::Is => model::CmpOp::Is,
        py::CmpOp::IsNot => model::CmpOp::IsNot,
        py::CmpOp::In => model::CmpOp::In,
        py::CmpOp::NotIn => model::CmpOp::NotIn,
    }
}

fn conversion(flag: &py::ConversionFlag) -> model::ConversionFlag {
    match flag {
        py::ConversionFlag::None => model::ConversionFlag::Unconverted,
        py::ConversionFlag::Str => model::ConversionFlag::Str,
        py::ConversionFlag::Ascii => model::ConversionFlag::Ascii,
        py::ConversionFlag::Repr => model::ConversionFlag::Repr,
    }
}

fn arg<R>(node: &py::Arg<R>) -> model::Arg {
    model::Arg { arg: name(&node.arg), annotation: opt_boxed(&node.annotation) }
}

fn opt_arg<R>(node: &Option<Box<py::Arg<R>>>) -> Option<Box<model::Arg>> {
    node.as_ref().map(|inner| Box::new(arg(inner)))
}

fn params<R>(nodes: &[py::ArgWithDefault<R>]) -> Vec<model::ArgWithDefault> {
    nodes
        .iter()
        .map(|node| model::ArgWithDefault { def: arg(&node.def), default: opt_boxed(&node.default) })
        .collect()
}

fn arguments<R>(node: &py::Arguments<R>) -> model::Arguments {
    model::Arguments {
        posonlyargs: params(&node.posonlyargs),
        args: params(&node.args),
        vararg: opt_arg(&node.vararg),
        kwonlyargs: params(&node.kwonlyargs),
        kwarg: opt_arg(&node.kwarg),
    }
}

fn keywords<R>(nodes: &[py::Keyword<R>]) -> Vec<model::Keyword> {
    nodes
        .iter()
        .map(|node| model::Keyword { arg: opt_name(&node.arg), value: expr(&node.value) })
        .collect()
}

fn comprehensions<R>(nodes: &[py::Comprehension<R>]) -> Vec<model::Comprehension> {
    nodes
        .iter()
        .map(|node| model::Comprehension {
            target: expr(&node.target),
            iter: expr(&node.iter),
            ifs: exprs(&node.ifs),
            is_async: node.is_async,
        })
        .collect()
}

fn expr<R>(node: &py::Expr<R>) -> model::Expr {
    match node {
        py::Expr::BoolOp(d) => model::Expr::BoolOp(model::ExprBoolOp {
            op: bool_op(&d.op),
            values: exprs(&d.values),
        }),
        py::Expr::NamedExpr(d) => model::Expr::NamedExpr(model::ExprNamedExpr {
            target: boxed(&d.target),
            value: boxed(&d.value),
        }),
        py::Expr::BinOp(d) => model::Expr::BinOp(model::ExprBinOp {
            left: boxed(&d.left),
            op: operator(&d.op),
            right: boxed(&d.right),
        }),
        py::Expr::UnaryOp(d) => model::Expr::UnaryOp(model::ExprUnaryOp {
            op: unary_op(&d.op),
            operand: boxed(&d.operand),
        }),
        py::Expr::Lambda(d) => model::Expr::Lambda(model::ExprLambda {
            args: Box::new(arguments(&d.args)),
            body: boxed(&d.body),
        }),
        py::Expr::IfExp(d) => model::Expr::IfExp(model::ExprIfExp {
            test: boxed(&d.test),
            body: boxed(&d.body),
            orelse: boxed(&d.orelse),
        }),
        py::Expr::Dict(d) => model::Expr::Dict(model::ExprDict {
            items: d
                .keys
                .iter()
                .zip(d.values.iter())
                .map(|(key, value)| model::DictItem {
                    key: key.as_ref().map(expr),
                    value: expr(value),
                })
                .collect(),
        }),
        py::Expr::Set(d) => model::Expr::SetExpr(model::ExprSet { elts: exprs(&d.elts) }),
        py::Expr::ListComp(d) => model::Expr::ListComp(model::ExprListComp {
            elt: boxed(&d.elt),
            generators: comprehensions(&d.generators),
        }),
        py::Expr::SetComp(d) => model::Expr::SetComp(model::ExprSetComp {
            elt: boxed(&d.elt),
            generators: comprehensions(&d.generators),
        }),
        py::Expr::DictComp(d) => model::Expr::DictComp(model::ExprDictComp {
            key: boxed(&d.key),
            value: boxed(&d.value),
            generators: comprehensions(&d.generators),
        }),
        py::Expr::GeneratorExp(d) => model::Expr::GeneratorExp(model::ExprGeneratorExp {
            elt: boxed(&d.elt),
            generators: comprehensions(&d.generators),
        }),
        py::Expr::Await(d) => model::Expr::Await(model::ExprAwait { value: boxed(&d.value) }),
        py::Expr::Yield(d) => model::Expr::Yield(model::ExprYield { value: opt_boxed(&d.value) }),
        py::Expr::YieldFrom(d) => {
            model::Expr::YieldFrom(model::ExprYieldFrom { value: boxed(&d.value) })
        }
        py::Expr::Compare(d) => model::Expr::Compare(model::ExprCompare {
            left: boxed(&d.left),
            comparisons: d
                .ops
                .iter()
                .zip(d.comparators.iter())
                .map(|(op, right)| model::Comparison {
                    op: compare_op(op),
                    comparator: expr(right),
                })
                .collect(),
        }),
        py::Expr::Call(d) => model::Expr::Call(model::ExprCall {
            func: boxed(&d.func),
            args: exprs(&d.args),
            keywords: keywords(&d.keywords),
        }),
        py::Expr::FormattedValue(d) => model::Expr::FormattedValue(model::ExprFormattedValue {
            value: boxed(&d.value),
            conversion: conversion(&d.conversion),
            format_spec: opt_boxed(&d.format_spec),
        }),
        py::Expr::JoinedStr(d) => {
            model::Expr::JoinedStr(model::ExprJoinedStr { values: exprs(&d.values) })
        }
        py::Expr::Constant(d) => model::Expr::Constant(model::ExprConstant {
            value: constant(&d.value),
            kind: d.kind.clone(),
        }),
        py::Expr::Attribute(d) => model::Expr::Attribute(model::ExprAttribute {
            value: boxed(&d.value),
            attr: name(&d.attr),
        }),
        py::Expr::Subscript(d) => model::Expr::Subscript(model::ExprSubscript {
            value: boxed(&d.value),
            slice: boxed(&d.slice),
        }),
        py::Expr::Starred(d) => {
            model::Expr::Starred(model::ExprStarred { value: boxed(&d.value) })
        }
        py::Expr::Name(d) => model::Expr::Name(model::ExprName { id: name(&d.id) }),
        py::Expr::List(d) => model::Expr::List(model::ExprList { elts: exprs(&d.elts) }),
        py::Expr::Tuple(d) => model::Expr::Tuple(model::ExprTuple { elts: exprs(&d.elts) }),
        py::Expr::Slice(d) => model::Expr::Slice(model::ExprSlice {
            lower: opt_boxed(&d.lower),
            upper: opt_boxed(&d.upper),
            step: opt_boxed(&d.step),
        }),
    }
}

fn patterns<R>(nodes: &[py::Pattern<R>]) -> Vec<model::Pattern> {
    nodes.iter().map(pattern).collect()
}

fn pattern<R>(node: &py::Pattern<R>) -> model::Pattern {
    match node {
        py::Pattern::MatchValue(d) => {
            model::Pattern::MatchValue(model::PatternMatchValue { value: boxed(&d.value) })
        }
        py::Pattern::MatchSingleton(d) => model::Pattern::MatchSingleton(
            model::PatternMatchSingleton { value: constant(&d.value) },
        ),
        py::Pattern::MatchSequence(d) => model::Pattern::MatchSequence(
            model::PatternMatchSequence { patterns: patterns(&d.patterns) },
        ),
        py::Pattern::MatchMapping(d) => model::Pattern::MatchMapping(model::PatternMatchMapping {
            entries: d
                .keys
                .iter()
                .zip(d.patterns.iter())
                .map(|(key, value)| model::MappingEntry { key: expr(key), pattern: pattern(value) })
                .collect(),
            rest: opt_name(&d.rest),
        }),
        py::Pattern::MatchClass(d) => model::Pattern::MatchClass(model::PatternMatchClass {
            cls: boxed(&d.cls),
            patterns: patterns(&d.patterns),
            kwd_patterns: d
                .kwd_attrs
                .iter()
                .zip(d.kwd_patterns.iter())
                .map(|(attr, value)| model::KeywordPattern {
                    attr: name(attr),
                    pattern: pattern(value),
                })
                .collect(),
        }),
        py::Pattern::MatchStar(d) => {
            model::Pattern::MatchStar(model::PatternMatchStar { name: opt_name(&d.name) })
        }
        py::Pattern::MatchAs(d) => model::Pattern::MatchAs(model::PatternMatchAs {
            pattern: d.pattern.as_ref().map(|inner| Box::new(pattern(inner))),
            name: opt_name(&d.name),
        }),
        py::Pattern::MatchOr(d) => {
            model::Pattern::MatchOr(model::PatternMatchOr { patterns: patterns(&d.patterns) })
        }
    }
}

fn type_params<R>(nodes: &[py::TypeParam<R>]) -> Vec<model::TypeParam> {
    nodes
        .iter()
        .map(|node| match node {
            py::TypeParam::TypeVar(d) => model::TypeParam::TypeVar(model::TypeParamTypeVar {
                name: name(&d.name),
                bound: opt_boxed(&d.bound),
            }),
            py::TypeParam::ParamSpec(d) => {
                model::TypeParam::ParamSpec(model::TypeParamParamSpec { name: name(&d.name) })
            }
            py::TypeParam::TypeVarTuple(d) => model::TypeParam::TypeVarTuple(
                model::TypeParamTypeVarTuple { name: name(&d.name) },
            ),
        })
        .collect()
}

fn aliases<R>(nodes: &[py::Alias<R>]) -> Vec<model::Alias> {
    nodes
        .iter()
        .map(|node| model::Alias { name: name(&node.name), asname: opt_name(&node.asname) })
        .collect()
}

fn with_items<R>(nodes: &[py::WithItem<R>]) -> Vec<model::WithItem> {
    nodes
        .iter()
        .map(|node| model::WithItem {
            context_expr: expr(&node.context_expr),
            optional_vars: opt_boxed(&node.optional_vars),
        })
        .collect()
}

fn handlers<R>(nodes: &[py::ExceptHandler<R>]) -> Vec<model::ExceptHandler> {
    nodes
        .iter()
        .map(|node| match node {
            py::ExceptHandler::ExceptHandler(d) => {
                model::ExceptHandler::ExceptHandler(model::ExceptHandlerExceptHandler {
                    type_: opt_boxed(&d.type_),
                    name: opt_name(&d.name),
                    body: stmts(&d.body),
                })
            }
        })
        .collect()
}

fn cases<R>(nodes: &[py::MatchCase<R>]) -> Vec<model::MatchCase> {
    nodes
        .iter()
        .map(|node| model::MatchCase {
            pattern: pattern(&node.pattern),
            guard: opt_boxed(&node.guard),
            body: stmts(&node.body),
        })
        .collect()
}

fn stmt<R>(node: &py::Stmt<R>) -> model::Stmt {
    match node {
        py::Stmt::FunctionDef(d) => model::Stmt::FunctionDef(model::StmtFunctionDef {
            name: name(&d.name),
            args: Box::new(arguments(&d.args)),
            body: stmts(&d.body),
            decorator_list: exprs(&d.decorator_list),
            returns: opt_boxed(&d.returns),
            type_params: type_params(&d.type_params),
        }),
        py::Stmt::AsyncFunctionDef(d) => {
            model::Stmt::AsyncFunctionDef(model::StmtAsyncFunctionDef {
                name: name(&d.name),
                args: Box::new(arguments(&d.args)),
                body: stmts(&d.body),
                decorator_list: exprs(&d.decorator_list),
                returns: opt_boxed(&d.returns),
                type_params: type_params(&d.type_params),
            })
        }
        py::Stmt::ClassDef(d) => model::Stmt::ClassDef(model::StmtClassDef {
            name: name(&d.name),
            bases: exprs(&d.bases),
            keywords: keywords(&d.keywords),
            body: stmts(&d.body),
            decorator_list: exprs(&d.decorator_list),
            type_params: type_params(&d.type_params),
        }),
        py::Stmt::Return(d) => {
            model::Stmt::Return(model::StmtReturn { value: opt_boxed(&d.value) })
        }
        py::Stmt::Delete(d) => model::Stmt::Delete(model::StmtDelete { targets: exprs(&d.targets) }),
        py::Stmt::Assign(d) => model::Stmt::Assign(model::StmtAssign {
            targets: exprs(&d.targets),
            value: boxed(&d.value),
            type_comment: d.type_comment.clone(),
        }),
        py::Stmt::TypeAlias(d) => model::Stmt::TypeAlias(model::StmtTypeAlias {
            name: boxed(&d.name),
            type_params: type_params(&d.type_params),
            value: boxed(&d.value),
        }),
        py::Stmt::AugAssign(d) => model::Stmt::AugAssign(model::StmtAugAssign {
            target: boxed(&d.target),
            op: operator(&d.op),
            value: boxed(&d.value),
        }),
        py::Stmt::AnnAssign(d) => model::Stmt::AnnAssign(model::StmtAnnAssign {
            target: boxed(&d.target),
            annotation: boxed(&d.annotation),
            value: opt_boxed(&d.value),
            simple: d.simple,
        }),
        py::Stmt::For(d) => model::Stmt::For(model::StmtFor {
            target: boxed(&d.target),
            iter: boxed(&d.iter),
            body: stmts(&d.body),
            orelse: stmts(&d.orelse),
        }),
        py::Stmt::AsyncFor(d) => model::Stmt::AsyncFor(model::StmtAsyncFor {
            target: boxed(&d.target),
            iter: boxed(&d.iter),
            body: stmts(&d.body),
            orelse: stmts(&d.orelse),
        }),
        py::Stmt::While(d) => model::Stmt::While(model::StmtWhile {
            test: boxed(&d.test),
            body: stmts(&d.body),
            orelse: stmts(&d.orelse),
        }),
        py::Stmt::If(d) => model::Stmt::If(model::StmtIf {
            test: boxed(&d.test),
            body: stmts(&d.body),
            orelse: stmts(&d.orelse),
        }),
        py::Stmt::With(d) => model::Stmt::With(model::StmtWith {
            items: with_items(&d.items),
            body: stmts(&d.body),
        }),
        py::Stmt::AsyncWith(d) => model::Stmt::AsyncWith(model::StmtAsyncWith {
            items: with_items(&d.items),
            body: stmts(&d.body),
        }),
        py::Stmt::Match(d) => model::Stmt::Match(model::StmtMatch {
            subject: boxed(&d.subject),
            cases: cases(&d.cases),
        }),
        py::Stmt::Raise(d) => model::Stmt::Raise(model::StmtRaise {
            exc: opt_boxed(&d.exc),
            cause: opt_boxed(&d.cause),
        }),
        py::Stmt::Try(d) => model::Stmt::Try(model::StmtTry {
            body: stmts(&d.body),
            handlers: handlers(&d.handlers),
            orelse: stmts(&d.orelse),
            finalbody: stmts(&d.finalbody),
        }),
        py::Stmt::TryStar(d) => model::Stmt::TryStar(model::StmtTryStar {
            body: stmts(&d.body),
            handlers: handlers(&d.handlers),
            orelse: stmts(&d.orelse),
            finalbody: stmts(&d.finalbody),
        }),
        py::Stmt::Assert(d) => model::Stmt::Assert(model::StmtAssert {
            test: boxed(&d.test),
            msg: opt_boxed(&d.msg),
        }),
        py::Stmt::Import(d) => model::Stmt::Import(model::StmtImport { names: aliases(&d.names) }),
        py::Stmt::ImportFrom(d) => model::Stmt::ImportFrom(model::StmtImportFrom {
            module: opt_name(&d.module),
            names: aliases(&d.names),
            level: d.level.map(|level| level.to_u32()),
        }),
        py::Stmt::Global(d) => {
            model::Stmt::Global(model::StmtGlobal { names: d.names.iter().map(name).collect() })
        }
        py::Stmt::Nonlocal(d) => {
            model::Stmt::Nonlocal(model::StmtNonlocal { names: d.names.iter().map(name).collect() })
        }
        py::Stmt::Expr(d) => model::Stmt::Expr(model::StmtExpr { value: boxed(&d.value) }),
        py::Stmt::Pass(_) => model::Stmt::Pass(model::StmtPass {}),
        py::Stmt::Break(_) => model::Stmt::Break(model::StmtBreak {}),
        py::Stmt::Continue(_) => model::Stmt::Continue(model::StmtContinue {}),
    }
}

fn suite<R>(nodes: &[py::Stmt<R>]) -> Vec<model::Stmt> {
    stmts(nodes)
}

fn parsed(source: &str) -> Vec<model::Stmt> {
    match py::Suite::parse(source, "<test>") {
        Ok(nodes) => suite(&nodes),
        Err(error) => panic!("{} in:\n{}", error, source),
    }
}

fn check_round_trip(source: &str) {
    let tree = parsed(source);
    let text = render(&tree).unwrap();
    let again = parsed(&text);
    assert_eq!(tree, again, "rendered as:\n{}", text);
    assert_eq!(render(&again).unwrap(), text);
}

#[test]
fn round_trip_simple_statements() {
    check_round_trip("x = 1\ny = x + 2\na = b = c\ndel x, y\npass\nx += 1\nx //= 2\nx **= 3\nx @= m\n");
}

#[test]
fn round_trip_arithmetic_precedence() {
    check_round_trip(
        "x = (a + b) * c\ny = a + b * c\nt = a - (b - c)\ns = (a - b) - c\nr = a / (b * c)\nq = a << (b + c)\np = (a | b) & c ^ d\n",
    );
}

#[test]
fn round_trip_power_and_unary() {
    check_round_trip(
        "z = a ** (b ** c)\nw = (a ** b) ** c\nv = -a ** 2\nu = (-a) ** 2\nt = a ** -b\ns = ~-+a\nr = not not a\nq = -(a + b)\n",
    );
}

#[test]
fn round_trip_boolean_and_comparison() {
    check_round_trip(
        "x = a or b and not c\ny = (a or b) and c\nz = a < b <= c != d\nw = (a < b) < c\nv = a is not b\nu = a not in b\nt = not (a and b)\ns = a or (b or c)\nr = (a == b) == c\n",
    );
}

#[test]
fn round_trip_conditional_and_lambda() {
    check_round_trip(
        "q = a if b else c\nr = (a if b else c) if d else e\ns = a if b else c if d else e\nf = lambda: 0\ng = lambda x, y=1, *a, k, **kw: x + y\nh = lambda x, /, y: (x, y)\nk = (lambda: 1)()\nm = lambda *, a: a\n",
    );
}

#[test]
fn round_trip_displays() {
    check_round_trip(
        "a = [1, 2, 3]\nb = (1,)\nc = ()\nd = {1: 2, **e}\ne = {1, 2}\nf = {*()}\ng = (1, 2)\nh = []\ni = {}\nj = [(1, 2), (3,)]\nk = [*a, *b]\n",
    );
}

#[test]
fn round_trip_comprehensions() {
    check_round_trip(
        "a = [x for x in y if x if x > 1]\nb = {x: y for x, y in z}\nc = {x for x in y}\nd = (x for x in y)\ne = [x for x in (a if b else c)]\nf = [(x, y) for x in a for y in b]\ng = sum(x for x in y)\n",
    );
}

#[test]
fn round_trip_string_literals() {
    check_round_trip(
        "a = 'hello'\nb = \"it's\"\nc = 'a\\nb\\t\\\\'\nd = 'both \\' and \"'\ne = u'uni'\nf = '\\x00\\x7f'\ng = ''\nh = '''two\nlines'''\ni = '\\u00e9\\u4e2d'\n",
    );
}

#[test]
fn round_trip_bytes_literals() {
    check_round_trip("a = b'abc'\nb = b'\\x00\\n\\t\\\\'\nc = b\"it's\"\nd = b''\ne = b'\\xc3\\xa9'\n");
}

#[test]
fn round_trip_numbers() {
    check_round_trip(
        "a = 123456789012345678901234567890\nb = 1.5\nc = 1e100\nd = 2j\ne = 0\nf = 0x10\ng = 4294967296\nh = 1.0\ni = 1e-07\nj = 18446744073709551616\n",
    );
}

#[test]
fn round_trip_constants() {
    check_round_trip("a = None\nb = True\nc = False\nd = ...\n");
}

#[test]
fn round_trip_attribute_subscript_call() {
    check_round_trip(
        "a.b.c\na[1]\na[1:2]\na[1:2:3]\na[:]\na[::2]\na[1, 2]\na[1:2, 3]\nf(1, *a, k=2, **kw)\n(1).real\n(1.5).real\nf()\n(a + b).c\n(a + b)[0]\n(a + b)()\na[()]\na[1,]\n",
    );
}

#[test]
fn round_trip_named_expression() {
    check_round_trip("if (n := len(a)) > 10:\n    pass\nx = (y := 1)\nf((z := 2))\n");
}

#[test]
fn round_trip_yield_and_await() {
    check_round_trip(
        "def f():\n    x = yield\n    y = yield 1\n    yield from g()\n    yield\n    z = yield (1, 2)\nasync def h():\n    await g()\n    x = await g() ** 2\n    y = [x async for x in z]\n",
    );
}

#[test]
fn round_trip_function_definitions() {
    check_round_trip(
        "@dec\n@dec2(1)\ndef f(a, b: int = 1, /, c=2, *args: int, d, e=3, **kw: str) -> int:\n    return a\ndef g(*, a):\n    pass\ndef h(a, /):\n    pass\ndef k():\n    return\nasync def m(x):\n    return x\n",
    );
}

#[test]
fn round_trip_class_definitions() {
    check_round_trip(
        "class A:\n    pass\n@d\nclass B(A, metaclass=M):\n    x: int = 1\n    y: int\n    (z): int = 2\n    a.b: int\n    def f(self):\n        pass\n",
    );
}

#[test]
fn round_trip_if_chains() {
    check_round_trip(
        "if a:\n    pass\nelif b:\n    pass\nelif c:\n    pass\nelse:\n    pass\nif a:\n    pass\nelse:\n    if b:\n        pass\n    x = 1\nif a:\n    pass\nelse:\n    x = 1\nif a:\n    pass\n",
    );
}

#[test]
fn round_trip_loops() {
    check_round_trip(
        "for x in y:\n    break\nelse:\n    pass\nfor a, b in c:\n    continue\nwhile a:\n    pass\nelse:\n    pass\nasync def f():\n    async for x in y:\n        pass\n    else:\n        pass\n",
    );
}

#[test]
fn round_trip_with_statements() {
    check_round_trip(
        "with a as b, c:\n    pass\nwith a:\n    pass\nwith a as (b, c):\n    pass\nasync def f():\n    async with a as b:\n        pass\n",
    );
}

#[test]
fn round_trip_try_statements() {
    check_round_trip(
        "try:\n    pass\nexcept A:\n    pass\nexcept (B, C) as e:\n    pass\nexcept:\n    pass\nelse:\n    pass\nfinally:\n    pass\ntry:\n    pass\nfinally:\n    pass\n",
    );
}

#[test]
fn round_trip_try_star_statements() {
    check_round_trip(
        "try:\n    pass\nexcept* ValueError as e:\n    pass\nexcept* TypeError:\n    try:\n        pass\n    except KeyError:\n        pass\n",
    );
}

#[test]
fn round_trip_match_statements() {
    check_round_trip(
        "match x:\n    case 1:\n        pass\n    case 'a' | 'b':\n        pass\n    case [a, b, *rest]:\n        pass\n    case {'k': v, **others}:\n        pass\n    case Point(x=0, y=0):\n        pass\n    case Point(a, b, z=c):\n        pass\n    case None:\n        pass\n    case True:\n        pass\n    case (a | b) as c:\n        pass\n    case [a as b, _]:\n        pass\n    case x if x > 1:\n        pass\n    case _:\n        pass\n    case -1:\n        pass\n    case m.n:\n        pass\n    case {}:\n        pass\n    case [*_]:\n        pass\n",
    );
}

#[test]
fn round_trip_imports() {
    check_round_trip(
        "import a, b.c as d\nfrom . import x\nfrom ..m import y as z, w\nfrom m import *\nfrom ... import q\n",
    );
}

#[test]
fn round_trip_other_statements() {
    check_round_trip(
        "def f():\n    global a, b\n    def g():\n        nonlocal c\nraise\nraise E\nraise E from c\nassert a\nassert a, 'msg'\nx: int\nreturn_value = (1, 2)\n",
    );
}

#[test]
fn round_trip_type_parameters() {
    check_round_trip(
        "type X = int\ntype Y[T] = list[T]\ndef f[T: int, *Ts, **P](x: T) -> T:\n    pass\nclass C[T]:\n    pass\n",
    );
}

#[test]
fn round_trip_nested_blocks() {
    check_round_trip(
        "def f(xs):\n    for x in xs:\n        if x:\n            y = x\n            return y\n    return None\n",
    );
}

#[test]
fn round_trip_starred_and_tuples() {
    check_round_trip("a, *b = c\n*a, b = c\nfor (i, (j, k)) in x:\n    pass\nx = (yield_, 1)\nf(*a, *b)\nx = *a, b\n");
}
