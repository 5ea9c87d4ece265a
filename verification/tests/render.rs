//! Exact texts of trees built by hand.

use python_unparser::ast::{
    Alias, Arg, ArgWithDefault, Arguments, BoolOp, CmpOp, Comparison, Comprehension, Constant,
    ConversionFlag, DictItem, ExceptHandler, ExceptHandlerExceptHandler, Expr, ExprAttribute,
    ExprAwait, ExprBinOp, ExprBoolOp, ExprCall, ExprCompare, ExprConstant, ExprDict,
    ExprFormattedValue, ExprGeneratorExp, ExprIfExp, ExprJoinedStr, ExprLambda, ExprList,
    ExprListComp, ExprName, ExprNamedExpr, ExprSet, ExprSlice, ExprStarred, ExprSubscript,
    ExprTuple, ExprUnaryOp, ExprYield, Integer, Keyword, KeywordPattern, MappingEntry, MatchCase,
    Operator, Pattern, PatternMatchAs, PatternMatchClass, PatternMatchMapping, PatternMatchOr,
    PatternMatchSequence, PatternMatchSingleton, PatternMatchStar, PatternMatchValue, Stmt,
    StmtAnnAssign, StmtAssign, StmtAugAssign, StmtClassDef, StmtDelete, StmtExpr, StmtFor,
    StmtFunctionDef, StmtGlobal, StmtIf, StmtImport, StmtImportFrom, StmtMatch, StmtPass,
    StmtRaise, StmtReturn, StmtTry, StmtTryStar, StmtTypeAlias, StmtWhile, StmtWith, TypeParam,
    TypeParamParamSpec, TypeParamTypeVar, TypeParamTypeVarTuple, UnaryOp, WithItem,
};
use python_unparser::literal::{quote_bytes, quote_str};
use python_unparser::precedence::get_precedence;
use python_unparser::{render, UnparseError, Unparser};

fn name(id: &str) -> Expr {
    Expr::Name(ExprName { id: id.to_owned() })
}

fn number(value: u32) -> Expr {
    Expr::Constant(ExprConstant {
        value: Constant::Int(Integer { negative: false, magnitude: vec![value] }),
        kind: None,
    })
}

fn constant(value: Constant) -> Expr {
    Expr::Constant(ExprConstant { value, kind: None })
}

fn binop(left: Expr, op: Operator, right: Expr) -> Expr {
    Expr::BinOp(ExprBinOp { left: Box::new(left), op, right: Box::new(right) })
}

fn boolop(op: BoolOp, values: Vec<Expr>) -> Expr {
    Expr::BoolOp(ExprBoolOp { op, values })
}

fn unary(op: UnaryOp, operand: Expr) -> Expr {
    Expr::UnaryOp(ExprUnaryOp { op, operand: Box::new(operand) })
}

fn tuple(elts: Vec<Expr>) -> Expr {
    Expr::Tuple(ExprTuple { elts })
}

fn call(func: Expr, args: Vec<Expr>, keywords: Vec<Keyword>) -> Expr {
    Expr::Call(ExprCall { func: Box::new(func), args, keywords })
}

fn joined() -> Expr {
    Expr::JoinedStr(ExprJoinedStr { values: vec![constant(Constant::Str("a".to_owned()))] })
}

fn bad_bytes() -> Expr {
    constant(Constant::Bytes(vec![0xff]))
}

fn pass() -> Stmt {
    Stmt::Pass(StmtPass {})
}

fn expr_stmt(value: Expr) -> Stmt {
    Stmt::Expr(StmtExpr { value: Box::new(value) })
}

fn no_arguments() -> Arguments {
    Arguments {
        posonlyargs: Vec::new(),
        args: Vec::new(),
        vararg: None,
        kwonlyargs: Vec::new(),
        kwarg: None,
    }
}

fn param(id: &str) -> ArgWithDefault {
    ArgWithDefault { def: Arg { arg: id.to_owned(), annotation: None }, default: None }
}

fn function(id: &str, args: Arguments, body: Vec<Stmt>) -> StmtFunctionDef {
    StmtFunctionDef {
        name: id.to_owned(),
        args: Box::new(args),
        body,
        decorator_list: Vec::new(),
        returns: None,
        type_params: Vec::new(),
    }
}

fn if_stmt(test: Expr, body: Vec<Stmt>, orelse: Vec<Stmt>) -> Stmt {
    Stmt::If(StmtIf { test: Box::new(test), body, orelse })
}

fn text_of(node: Expr) -> String {
    let mut unparser = Unparser::new();
    unparser.unparse_expr(&node).unwrap();
    unparser.source
}

fn text_at(node: Expr, level: usize) -> String {
    let mut unparser = Unparser::new();
    unparser.delimit_precedence(&node, level).unwrap();
    unparser.source
}

fn line_of(node: Stmt) -> String {
    render(&vec![node]).unwrap()
}

fn pattern_of(node: Pattern) -> String {
    let mut unparser = Unparser::new();
    unparser.unparse_pattern(&node).unwrap();
    unparser.source
}

fn capture(id: &str) -> Pattern {
    Pattern::MatchAs(PatternMatchAs { pattern: None, name: Some(id.to_owned()) })
}

#[test]
fn sum_under_product_has_parentheses() {
    let tree = binop(binop(name("a"), Operator::Add, name("b")), Operator::Mult, name("c"));
    assert_eq!(text_of(tree), "(a + b) * c");
}

#[test]
fn product_under_sum_has_none() {
    let tree = binop(name("a"), Operator::Add, binop(name("b"), Operator::Mult, name("c")));
    assert_eq!(text_of(tree), "a + b * c");
}

#[test]
fn power_groups_to_the_right() {
    let tree = binop(name("a"), Operator::Pow, binop(name("b"), Operator::Pow, name("c")));
    assert_eq!(text_of(tree), "a ** b ** c");
}

#[test]
fn power_on_the_left_has_parentheses() {
    let tree = binop(binop(name("a"), Operator::Pow, name("b")), Operator::Pow, name("c"));
    assert_eq!(text_of(tree), "(a ** b) ** c");
}

#[test]
fn subtraction_groups_to_the_left() {
    let left = binop(binop(name("a"), Operator::Sub, name("b")), Operator::Sub, name("c"));
    assert_eq!(text_of(left), "a - b - c");
    let right = binop(name("a"), Operator::Sub, binop(name("b"), Operator::Sub, name("c")));
    assert_eq!(text_of(right), "a - (b - c)");
}

#[test]
fn what_one_operand_needs_does_not_reach_the_next() {
    let tree = binop(
        binop(name("a"), Operator::Mult, binop(name("b"), Operator::Add, name("c"))),
        Operator::Add,
        binop(name("d"), Operator::Add, name("e")),
    );
    assert_eq!(text_of(tree), "a * (b + c) + (d + e)");
}

#[test]
fn every_binary_operator_has_its_sign() {
    let signs = vec![
        (Operator::Add, "+"),
        (Operator::Sub, "-"),
        (Operator::Mult, "*"),
        (Operator::MatMult, "@"),
        (Operator::Div, "/"),
        (Operator::Mod, "%"),
        (Operator::Pow, "**"),
        (Operator::LShift, "<<"),
        (Operator::RShift, ">>"),
        (Operator::BitOr, "|"),
        (Operator::BitXor, "^"),
        (Operator::BitAnd, "&"),
        (Operator::FloorDiv, "//"),
    ];
    for (op, sign) in signs {
        assert_eq!(text_of(binop(name("a"), op, name("b"))), format!("a {} b", sign));
    }
}

#[test]
fn precedence_table() {
    let a = || Box::new(name("a"));
    assert_eq!(get_precedence(&Expr::NamedExpr(ExprNamedExpr { target: a(), value: a() })), 1);
    assert_eq!(get_precedence(&tuple(vec![name("a")])), 2);
    assert_eq!(get_precedence(&tuple(Vec::new())), 2);
    assert_eq!(get_precedence(&tuple(vec![name("a"), name("b")])), 2);
    assert_eq!(get_precedence(&Expr::Yield(ExprYield { value: None })), 3);
    assert_eq!(
        get_precedence(&Expr::IfExp(ExprIfExp { test: a(), body: a(), orelse: a() })),
        4
    );
    assert_eq!(
        get_precedence(&Expr::Lambda(ExprLambda { args: Box::new(no_arguments()), body: a() })),
        4
    );
    assert_eq!(get_precedence(&boolop(BoolOp::Or, Vec::new())), 5);
    assert_eq!(get_precedence(&boolop(BoolOp::And, Vec::new())), 6);
    assert_eq!(get_precedence(&unary(UnaryOp::Not, name("a"))), 7);
    assert_eq!(
        get_precedence(&Expr::Compare(ExprCompare { left: a(), comparisons: Vec::new() })),
        8
    );
    assert_eq!(get_precedence(&binop(name("a"), Operator::BitOr, name("b"))), 9);
    assert_eq!(get_precedence(&binop(name("a"), Operator::BitXor, name("b"))), 10);
    assert_eq!(get_precedence(&binop(name("a"), Operator::BitAnd, name("b"))), 11);
    assert_eq!(get_precedence(&binop(name("a"), Operator::LShift, name("b"))), 12);
    assert_eq!(get_precedence(&binop(name("a"), Operator::RShift, name("b"))), 12);
    assert_eq!(get_precedence(&binop(name("a"), Operator::Add, name("b"))), 13);
    assert_eq!(get_precedence(&binop(name("a"), Operator::Sub, name("b"))), 13);
    assert_eq!(get_precedence(&binop(name("a"), Operator::Mult, name("b"))), 14);
    assert_eq!(get_precedence(&binop(name("a"), Operator::Div, name("b"))), 14);
    assert_eq!(get_precedence(&binop(name("a"), Operator::FloorDiv, name("b"))), 14);
    assert_eq!(get_precedence(&binop(name("a"), Operator::MatMult, name("b"))), 14);
    assert_eq!(get_precedence(&binop(name("a"), Operator::Mod, name("b"))), 14);
    assert_eq!(get_precedence(&unary(UnaryOp::USub, name("a"))), 15);
    assert_eq!(get_precedence(&unary(UnaryOp::UAdd, name("a"))), 15);
    assert_eq!(get_precedence(&unary(UnaryOp::Invert, name("a"))), 15);
    assert_eq!(get_precedence(&binop(name("a"), Operator::Pow, name("b"))), 16);
    assert_eq!(get_precedence(&Expr::Await(ExprAwait { value: a() })), 17);
    assert_eq!(get_precedence(&name("a")), 18);
    assert_eq!(get_precedence(&number(1)), 18);
}

#[test]
fn parentheses_only_below_the_required_level() {
    let sum = || binop(name("a"), Operator::Add, name("b"));
    assert_eq!(text_at(sum(), 13), "a + b");
    assert_eq!(text_at(sum(), 14), "(a + b)");
    assert_eq!(text_at(name("a"), 18), "a");
}

#[test]
fn boolean_operands_bind_tighter_than_the_operator() {
    let tree = boolop(
        BoolOp::Or,
        vec![
            name("a"),
            boolop(BoolOp::And, vec![name("b"), unary(UnaryOp::Not, name("c"))]),
            boolop(BoolOp::Or, vec![name("d"), name("e")]),
        ],
    );
    assert_eq!(text_of(tree), "a or b and not c or (d or e)");
}

#[test]
fn comparison_chain_is_flat() {
    let tree = Expr::Compare(ExprCompare {
        left: Box::new(name("a")),
        comparisons: vec![
            Comparison { op: CmpOp::Lt, comparator: name("b") },
            Comparison { op: CmpOp::LtE, comparator: name("c") },
            Comparison { op: CmpOp::NotIn, comparator: name("d") },
            Comparison { op: CmpOp::IsNot, comparator: name("e") },
        ],
    });
    assert_eq!(text_of(tree), "a < b <= c not in d is not e");
}

#[test]
fn every_comparison_operator_has_its_words() {
    let words = vec![
        (CmpOp::Eq, "=="),
        (CmpOp::NotEq, "!="),
        (CmpOp::Lt, "<"),
        (CmpOp::LtE, "<="),
        (CmpOp::Gt, ">"),
        (CmpOp::GtE, ">="),
        (CmpOp::Is, "is"),
        (CmpOp::IsNot, "is not"),
        (CmpOp::In, "in"),
        (CmpOp::NotIn, "not in"),
    ];
    for (op, word) in words {
        let tree = Expr::Compare(ExprCompare {
            left: Box::new(name("a")),
            comparisons: vec![Comparison { op, comparator: name("b") }],
        });
        assert_eq!(text_of(tree), format!("a {} b", word));
    }
}

#[test]
fn unary_operators() {
    assert_eq!(text_of(unary(UnaryOp::Not, name("a"))), "not a");
    assert_eq!(text_of(unary(UnaryOp::USub, name("a"))), "-a");
    assert_eq!(text_of(unary(UnaryOp::UAdd, name("a"))), "+a");
    assert_eq!(text_of(unary(UnaryOp::Invert, name("a"))), "~a");
    let sum = binop(name("a"), Operator::Add, name("b"));
    assert_eq!(text_of(unary(UnaryOp::USub, sum)), "-(a + b)");
}

#[test]
fn empty_set_is_a_starred_empty_tuple() {
    assert_eq!(text_of(Expr::SetExpr(ExprSet { elts: Vec::new() })), "{*()}");
    assert_eq!(text_of(Expr::SetExpr(ExprSet { elts: vec![number(1), number(2)] })), "{1, 2}");
}

#[test]
fn empty_parameter_list_is_a_pair_of_parentheses() {
    let tree = Stmt::FunctionDef(function("f", no_arguments(), vec![pass()]));
    assert_eq!(line_of(tree), "\ndef f():\n    pass");
}

#[test]
fn tuples_and_lists() {
    assert_eq!(text_of(tuple(Vec::new())), "()");
    assert_eq!(text_at(tuple(Vec::new()), 18), "()");
    assert_eq!(text_of(tuple(vec![number(1)])), "1,");
    assert_eq!(text_at(tuple(vec![number(1)]), 4), "(1,)");
    assert_eq!(text_at(tuple(vec![number(1), number(2)]), 4), "(1, 2)");
    assert_eq!(text_of(Expr::List(ExprList { elts: vec![number(1), number(2)] })), "[1, 2]");
    assert_eq!(text_of(Expr::List(ExprList { elts: Vec::new() })), "[]");
}

#[test]
fn dict_display() {
    let tree = Expr::Dict(ExprDict {
        items: vec![
            DictItem { key: Some(number(1)), value: number(2) },
            DictItem { key: None, value: boolop(BoolOp::Or, vec![name("a"), name("b")]) },
        ],
    });
    assert_eq!(text_of(tree), "{1: 2, **(a or b)}");
    assert_eq!(text_of(Expr::Dict(ExprDict { items: Vec::new() })), "{}");
}

#[test]
fn comprehension_clauses_and_filters() {
    let generator = |is_async| Comprehension {
        target: tuple(vec![name("x"), name("y")]),
        iter: name("z"),
        ifs: vec![name("p"), name("q")],
        is_async,
    };
    let list = Expr::ListComp(ExprListComp {
        elt: Box::new(name("x")),
        generators: vec![generator(false), generator(true)],
    });
    assert_eq!(text_of(list), "[x for x, y in z if p if q async for x, y in z if p if q]");
    let lazy = Expr::GeneratorExp(ExprGeneratorExp {
        elt: Box::new(name("x")),
        generators: vec![Comprehension {
            target: name("x"),
            iter: name("y"),
            ifs: Vec::new(),
            is_async: false,
        }],
    });
    assert_eq!(text_of(lazy), "(x for x in y)");
}

#[test]
fn call_arguments_positional_before_keyword() {
    let tree = call(
        name("f"),
        vec![name("a"), Expr::Starred(ExprStarred { value: Box::new(name("b")) })],
        vec![
            Keyword { arg: Some("k".to_owned()), value: number(1) },
            Keyword { arg: None, value: name("kw") },
        ],
    );
    assert_eq!(text_of(tree), "f(a, *b, k=1, **kw)");
    assert_eq!(text_of(call(name("f"), Vec::new(), Vec::new())), "f()");
    let only_keyword =
        call(name("f"), Vec::new(), vec![Keyword { arg: Some("k".to_owned()), value: number(1) }]);
    assert_eq!(text_of(only_keyword), "f(k=1)");
}

#[test]
fn slices_with_parts_left_out() {
    let part = |value: u32| Some(Box::new(number(value)));
    let slice = |lower, upper, step| Expr::Slice(ExprSlice { lower, upper, step });
    assert_eq!(text_of(slice(part(1), part(2), part(3))), "1:2:3");
    assert_eq!(text_of(slice(part(1), part(2), None)), "1:2");
    assert_eq!(text_of(slice(None, None, None)), ":");
    assert_eq!(text_of(slice(None, None, part(2))), "::2");
    assert_eq!(text_of(slice(part(1), None, None)), "1:");
    assert_eq!(text_of(slice(None, part(2), None)), ":2");
}

#[test]
fn subscript_holds_a_tuple_without_parentheses() {
    let tree = Expr::Subscript(ExprSubscript {
        value: Box::new(name("a")),
        slice: Box::new(tuple(vec![
            Expr::Slice(ExprSlice {
                lower: Some(Box::new(number(1))),
                upper: Some(Box::new(number(2))),
                step: None,
            }),
            number(3),
        ])),
    });
    assert_eq!(text_of(tree), "a[1:2, 3]");
}

#[test]
fn attribute_of_an_integer_literal_keeps_a_space() {
    let on_int = Expr::Attribute(ExprAttribute { value: Box::new(number(1)), attr: "real".to_owned() });
    assert_eq!(text_of(on_int), "1 .real");
    let on_name =
        Expr::Attribute(ExprAttribute { value: Box::new(name("a")), attr: "b".to_owned() });
    assert_eq!(text_of(on_name), "a.b");
    let on_sum = Expr::Attribute(ExprAttribute {
        value: Box::new(binop(name("a"), Operator::Add, name("b"))),
        attr: "c".to_owned(),
    });
    assert_eq!(text_of(on_sum), "(a + b).c");
}

#[test]
fn lambda_with_and_without_parameters() {
    let bare = Expr::Lambda(ExprLambda { args: Box::new(no_arguments()), body: Box::new(number(0)) });
    assert_eq!(text_of(bare), "lambda: 0");
    let mut args = no_arguments();
    args.args = vec![param("x")];
    let with = Expr::Lambda(ExprLambda { args: Box::new(args), body: Box::new(name("x")) });
    assert_eq!(text_of(with), "lambda x: x");
}

#[test]
fn conditional_expression_and_walrus() {
    let choice = Expr::IfExp(ExprIfExp {
        test: Box::new(name("b")),
        body: Box::new(name("a")),
        orelse: Box::new(name("c")),
    });
    assert_eq!(text_of(choice), "a if b else c");
    let walrus = Expr::NamedExpr(ExprNamedExpr {
        target: Box::new(name("n")),
        value: Box::new(binop(name("a"), Operator::Add, name("b"))),
    });
    assert_eq!(text_at(walrus, 4), "(n := a + b)");
}

#[test]
fn parameter_list_in_its_groups() {
    let annotated = |id: &str, note: &str| Arg {
        arg: id.to_owned(),
        annotation: Some(Box::new(name(note))),
    };
    let args = Arguments {
        posonlyargs: vec![
            param("a"),
            ArgWithDefault { def: annotated("b", "int"), default: Some(Box::new(number(1))) },
        ],
        args: vec![ArgWithDefault {
            def: Arg { arg: "c".to_owned(), annotation: None },
            default: Some(Box::new(number(2))),
        }],
        vararg: Some(Box::new(annotated("rest", "int"))),
        kwonlyargs: vec![param("d")],
        kwarg: Some(Box::new(annotated("kw", "str"))),
    };
    let tree = Stmt::FunctionDef(function("f", args, vec![pass()]));
    assert_eq!(
        line_of(tree),
        "\ndef f(a, b: int=1, /, c=2, *rest: int, d, **kw: str):\n    pass"
    );
}

#[test]
fn keyword_only_parameters_without_a_variadic_one_follow_a_bare_star() {
    let mut args = no_arguments();
    args.kwonlyargs = vec![param("a")];
    assert_eq!(
        line_of(Stmt::FunctionDef(function("f", args, vec![pass()]))),
        "\ndef f(*, a):\n    pass"
    );
    let mut both = no_arguments();
    both.args = vec![param("x")];
    both.kwonlyargs = vec![param("a")];
    assert_eq!(
        line_of(Stmt::FunctionDef(function("f", both, vec![pass()]))),
        "\ndef f(x, *, a):\n    pass"
    );
}

#[test]
fn positional_only_parameters_end_with_a_slash() {
    let mut args = no_arguments();
    args.posonlyargs = vec![param("a")];
    assert_eq!(
        line_of(Stmt::FunctionDef(function("f", args, vec![pass()]))),
        "\ndef f(a, /):\n    pass"
    );
    let mut more = no_arguments();
    more.posonlyargs = vec![param("a")];
    more.kwarg = Some(Box::new(Arg { arg: "kw".to_owned(), annotation: None }));
    assert_eq!(
        line_of(Stmt::FunctionDef(function("f", more, vec![pass()]))),
        "\ndef f(a, /, **kw):\n    pass"
    );
}

#[test]
fn function_with_decorators_and_return_annotation() {
    let mut tree = function("f", no_arguments(), vec![pass()]);
    tree.decorator_list = vec![name("first"), call(name("second"), vec![number(1)], Vec::new())];
    tree.returns = Some(Box::new(name("int")));
    tree.type_params = vec![
        TypeParam::TypeVar(TypeParamTypeVar {
            name: "T".to_owned(),
            bound: Some(Box::new(name("int"))),
        }),
        TypeParam::TypeVarTuple(TypeParamTypeVarTuple { name: "Ts".to_owned() }),
        TypeParam::ParamSpec(TypeParamParamSpec { name: "P".to_owned() }),
    ];
    assert_eq!(
        line_of(Stmt::FunctionDef(tree)),
        "\n@first\n@second(1)\ndef f[T: int, *Ts, **P]() -> int:\n    pass"
    );
}

#[test]
fn class_with_bases_and_keywords() {
    let tree = Stmt::ClassDef(StmtClassDef {
        name: "B".to_owned(),
        bases: vec![name("A")],
        keywords: vec![Keyword { arg: Some("metaclass".to_owned()), value: name("M") }],
        body: vec![pass()],
        decorator_list: vec![name("d")],
        type_params: Vec::new(),
    });
    assert_eq!(line_of(tree), "\n@d\nclass B(A, metaclass=M):\n    pass");
    let plain = Stmt::ClassDef(StmtClassDef {
        name: "A".to_owned(),
        bases: Vec::new(),
        keywords: Vec::new(),
        body: vec![pass()],
        decorator_list: Vec::new(),
        type_params: Vec::new(),
    });
    assert_eq!(line_of(plain), "\nclass A():\n    pass");
}

#[test]
fn alternative_of_one_if_statement_becomes_elif() {
    let inner = if_stmt(name("b"), vec![pass()], Vec::new());
    let tree = if_stmt(name("a"), vec![pass()], vec![inner]);
    assert_eq!(line_of(tree), "\nif a:\n    pass\nelif b:\n    pass");
}

#[test]
fn elif_chain_keeps_its_last_else() {
    let last = if_stmt(name("c"), vec![pass()], vec![expr_stmt(name("z"))]);
    let middle = if_stmt(name("b"), vec![pass()], vec![last]);
    let tree = if_stmt(name("a"), vec![pass()], vec![middle]);
    assert_eq!(
        line_of(tree),
        "\nif a:\n    pass\nelif b:\n    pass\nelif c:\n    pass\nelse:\n    z"
    );
}

#[test]
fn alternative_of_two_statements_is_an_else_block() {
    let inner = if_stmt(name("b"), vec![pass()], Vec::new());
    let tree = if_stmt(name("a"), vec![pass()], vec![inner, pass()]);
    assert_eq!(line_of(tree), "\nif a:\n    pass\nelse:\n    if b:\n        pass\n    pass");
}

#[test]
fn alternative_of_one_other_statement_is_an_else_block() {
    let tree = if_stmt(name("a"), vec![pass()], vec![pass()]);
    assert_eq!(line_of(tree), "\nif a:\n    pass\nelse:\n    pass");
}

#[test]
fn three_nested_blocks_are_indented_twelve_spaces() {
    let test = if_stmt(name("x"), vec![expr_stmt(name("y")), pass()], Vec::new());
    let looping = Stmt::For(StmtFor {
        target: Box::new(name("x")),
        iter: Box::new(name("xs")),
        body: vec![test],
        orelse: Vec::new(),
    });
    let tree = Stmt::FunctionDef(function("f", no_arguments(), vec![looping]));
    assert_eq!(
        line_of(tree),
        "\ndef f():\n    for x in xs:\n        if x:\n            y\n            pass"
    );
}

#[test]
fn loop_clauses_only_where_they_have_statements() {
    let with_else = Stmt::While(StmtWhile {
        test: Box::new(name("a")),
        body: vec![pass()],
        orelse: vec![pass()],
    });
    assert_eq!(line_of(with_else), "\nwhile a:\n    pass\nelse:\n    pass");
    let without = Stmt::While(StmtWhile {
        test: Box::new(name("a")),
        body: vec![pass()],
        orelse: Vec::new(),
    });
    assert_eq!(line_of(without), "\nwhile a:\n    pass");
}

#[test]
fn formatted_string_is_unsupported() {
    assert_eq!(render(&vec![expr_stmt(joined())]), Err(UnparseError::UnsupportedConstruct));
    let value = Expr::FormattedValue(ExprFormattedValue {
        value: Box::new(name("a")),
        conversion: ConversionFlag::Unconverted,
        format_spec: None,
    });
    assert_eq!(render(&vec![expr_stmt(value)]), Err(UnparseError::UnsupportedConstruct));
}

#[test]
fn formatted_string_deep_in_a_tree_is_unsupported() {
    let deep = Stmt::FunctionDef(function(
        "f",
        no_arguments(),
        vec![if_stmt(
            name("a"),
            vec![pass()],
            vec![Stmt::Return(StmtReturn {
                value: Some(Box::new(call(name("g"), vec![number(1), joined()], Vec::new()))),
            })],
        )],
    ));
    assert_eq!(render(&vec![pass(), deep]), Err(UnparseError::UnsupportedConstruct));
}

#[test]
fn byte_string_that_is_not_utf8_is_an_encoding_error() {
    assert_eq!(render(&vec![expr_stmt(bad_bytes())]), Err(UnparseError::EncodingError));
    let in_tuple = constant(Constant::Tuple(vec![Constant::Bool(true), Constant::Bytes(vec![0xc3])]));
    assert_eq!(render(&vec![expr_stmt(in_tuple)]), Err(UnparseError::EncodingError));
    let pattern = Pattern::MatchSingleton(PatternMatchSingleton { value: Constant::Bytes(vec![0x80]) });
    let mut unparser = Unparser::new();
    assert_eq!(unparser.unparse_pattern(&pattern), Err(UnparseError::EncodingError));
}

#[test]
fn the_first_failure_in_writing_order_is_reported() {
    let bytes_first = call(name("f"), vec![bad_bytes(), joined()], Vec::new());
    assert_eq!(render(&vec![expr_stmt(bytes_first)]), Err(UnparseError::EncodingError));
    let joined_first = call(name("f"), vec![joined(), bad_bytes()], Vec::new());
    assert_eq!(render(&vec![expr_stmt(joined_first)]), Err(UnparseError::UnsupportedConstruct));
    let across = vec![expr_stmt(joined()), expr_stmt(bad_bytes())];
    assert_eq!(render(&across), Err(UnparseError::UnsupportedConstruct));
}

#[test]
fn error_messages() {
    assert_eq!(UnparseError::EncodingError.message(), "byte-string literal is not valid UTF-8");
    assert_eq!(
        UnparseError::UnsupportedConstruct.message(),
        "the tree holds a node that has no rendering"
    );
}

#[test]
fn integers_in_decimal() {
    let decimal = |negative, magnitude| Integer { negative, magnitude }.to_decimal();
    assert_eq!(decimal(false, vec![]), "0");
    assert_eq!(decimal(true, vec![]), "0");
    assert_eq!(decimal(true, vec![0, 0]), "0");
    assert_eq!(decimal(false, vec![7]), "7");
    assert_eq!(decimal(true, vec![42]), "-42");
    assert_eq!(decimal(false, vec![0, 1]), "4294967296");
    assert_eq!(decimal(false, vec![0xffff_ffff, 0xffff_ffff]), "18446744073709551615");
    assert_eq!(decimal(true, vec![0, 0, 1]), "-18446744073709551616");
    assert_eq!(decimal(false, vec![5, 0, 0]), "5");
}

#[test]
fn integer_zero_test() {
    assert!(Integer { negative: false, magnitude: vec![] }.is_zero());
    assert!(Integer { negative: true, magnitude: vec![0, 0] }.is_zero());
    assert!(!Integer { negative: false, magnitude: vec![0, 1] }.is_zero());
}

#[test]
fn strings_are_quoted_and_escaped() {
    assert_eq!(quote_str("hello"), "'hello'");
    assert_eq!(quote_str(""), "''");
    assert_eq!(quote_str("it's"), "\"it's\"");
    assert_eq!(quote_str("say \"hi\""), "'say \"hi\"'");
    assert_eq!(quote_str("both ' and \""), "'both \\' and \"'");
    assert_eq!(quote_str("a\nb\tc\rd\\e"), "'a\\nb\\tc\\rd\\\\e'");
    assert_eq!(quote_str("\u{0}\u{1f}\u{7f}"), "'\\x00\\x1f\\x7f'");
    assert_eq!(quote_str("é中"), "'é中'");
}

#[test]
fn byte_strings_are_quoted_and_escaped() {
    assert_eq!(quote_bytes(&b"abc".to_vec()), "b'abc'");
    assert_eq!(quote_bytes(&Vec::new()), "b''");
    assert_eq!(quote_bytes(&b"it's".to_vec()), "b\"it's\"");
    assert_eq!(quote_bytes(&vec![0, 255, b'a', b'\\', b'\n', 0x7f, 0x80]), "b'\\x00\\xffa\\\\\\n\\x7f\\x80'");
    assert_eq!(quote_bytes(&vec![0xc3, 0xa9]), "b'\\xc3\\xa9'");
}

#[test]
fn constants() {
    assert_eq!(text_of(constant(Constant::NoneValue)), "None");
    assert_eq!(text_of(constant(Constant::Bool(true))), "True");
    assert_eq!(text_of(constant(Constant::Bool(false))), "False");
    assert_eq!(text_of(constant(Constant::Ellipsis)), "...");
    assert_eq!(text_of(constant(Constant::Float("1.5".to_owned()))), "1.5");
    assert_eq!(text_of(constant(Constant::Str("a".to_owned()))), "'a'");
    assert_eq!(text_of(constant(Constant::Bytes(b"a".to_vec()))), "b'a'");
    assert_eq!(
        text_of(constant(Constant::Complex { re: None, im: "2.0".to_owned() })),
        "2.0j"
    );
    assert_eq!(
        text_of(constant(Constant::Complex { re: Some("1.0".to_owned()), im: "2.0".to_owned() })),
        "(1.0+2.0j)"
    );
}

#[test]
fn tuples_of_constants() {
    let one = Constant::Int(Integer { negative: false, magnitude: vec![1] });
    let two = Constant::Int(Integer { negative: true, magnitude: vec![2] });
    assert_eq!(text_of(constant(Constant::Tuple(Vec::new()))), "()");
    assert_eq!(text_of(constant(Constant::Tuple(vec![Constant::NoneValue]))), "(None,)");
    assert_eq!(
        text_of(constant(Constant::Tuple(vec![
            one,
            Constant::Tuple(vec![two, Constant::Str("x".to_owned())]),
        ]))),
        "(1, (-2, 'x'))"
    );
}

#[test]
fn unicode_kind_prefixes_strings_only() {
    let kind = Some("u".to_owned());
    let string = Expr::Constant(ExprConstant {
        value: Constant::Str("a".to_owned()),
        kind: kind.clone(),
    });
    assert_eq!(text_of(string), "u'a'");
    let number = Expr::Constant(ExprConstant { value: Constant::Bool(true), kind });
    assert_eq!(text_of(number), "True");
    let other = Expr::Constant(ExprConstant {
        value: Constant::Str("a".to_owned()),
        kind: Some("uu".to_owned()),
    });
    assert_eq!(text_of(other), "'a'");
}

#[test]
fn assignments() {
    let chained = Stmt::Assign(StmtAssign {
        targets: vec![name("a"), name("b")],
        value: Box::new(tuple(vec![number(1), number(2)])),
        type_comment: Some("tuple".to_owned()),
    });
    assert_eq!(line_of(chained), "\na = b = (1, 2) # type: tuple");
    let augmented = Stmt::AugAssign(StmtAugAssign {
        target: Box::new(name("a")),
        op: Operator::FloorDiv,
        value: Box::new(number(2)),
    });
    assert_eq!(line_of(augmented), "\na //= 2");
    let annotated = |simple, value| {
        Stmt::AnnAssign(StmtAnnAssign {
            target: Box::new(name("a")),
            annotation: Box::new(name("int")),
            value,
            simple,
        })
    };
    assert_eq!(line_of(annotated(true, Some(Box::new(number(1))))), "\na: int = 1");
    assert_eq!(line_of(annotated(true, None)), "\na: int");
    assert_eq!(line_of(annotated(false, None)), "\n(a): int");
}

#[test]
fn small_statements() {
    assert_eq!(line_of(Stmt::Return(StmtReturn { value: None })), "\nreturn");
    assert_eq!(line_of(Stmt::Return(StmtReturn { value: Some(Box::new(number(1))) })), "\nreturn 1");
    assert_eq!(
        line_of(Stmt::Delete(StmtDelete { targets: vec![name("a"), name("b")] })),
        "\ndel a, b"
    );
    assert_eq!(line_of(Stmt::Raise(StmtRaise { exc: None, cause: None })), "\nraise");
    assert_eq!(
        line_of(Stmt::Raise(StmtRaise {
            exc: Some(Box::new(name("E"))),
            cause: Some(Box::new(name("c"))),
        })),
        "\nraise E from c"
    );
    assert_eq!(
        line_of(Stmt::Global(StmtGlobal { names: vec!["a".to_owned(), "b".to_owned()] })),
        "\nglobal a, b"
    );
    assert_eq!(
        line_of(Stmt::TypeAlias(StmtTypeAlias {
            name: Box::new(name("X")),
            type_params: vec![TypeParam::TypeVar(TypeParamTypeVar {
                name: "T".to_owned(),
                bound: None,
            })],
            value: Box::new(name("T")),
        })),
        "\ntype X[T] = T"
    );
}

#[test]
fn imports_with_dots_for_the_level() {
    let alias = |id: &str, asname: Option<&str>| Alias {
        name: id.to_owned(),
        asname: asname.map(|text| text.to_owned()),
    };
    assert_eq!(
        line_of(Stmt::Import(StmtImport { names: vec![alias("a", None), alias("b.c", Some("d"))] })),
        "\nimport a, b.c as d"
    );
    let from = |module: Option<&str>, level| {
        Stmt::ImportFrom(StmtImportFrom {
            module: module.map(|text| text.to_owned()),
            names: vec![alias("x", None)],
            level,
        })
    };
    assert_eq!(line_of(from(Some("m"), None)), "\nfrom m import x");
    assert_eq!(line_of(from(Some("m"), Some(0))), "\nfrom m import x");
    assert_eq!(line_of(from(Some("m"), Some(2))), "\nfrom ..m import x");
    assert_eq!(line_of(from(None, Some(3))), "\nfrom ... import x");
}

#[test]
fn with_statement() {
    let tree = Stmt::With(StmtWith {
        items: vec![
            WithItem { context_expr: name("a"), optional_vars: Some(Box::new(name("b"))) },
            WithItem { context_expr: name("c"), optional_vars: None },
        ],
        body: vec![pass()],
    });
    assert_eq!(line_of(tree), "\nwith a as b, c:\n    pass");
}

fn handler(type_: Option<Expr>, id: Option<&str>) -> ExceptHandler {
    ExceptHandler::ExceptHandler(ExceptHandlerExceptHandler {
        type_: type_.map(Box::new),
        name: id.map(|text| text.to_owned()),
        body: vec![pass()],
    })
}

#[test]
fn try_statement_with_all_clauses() {
    let tree = Stmt::Try(StmtTry {
        body: vec![pass()],
        handlers: vec![
            handler(Some(tuple(vec![name("A"), name("B")])), Some("e")),
            handler(None, None),
        ],
        orelse: vec![pass()],
        finalbody: vec![pass()],
    });
    assert_eq!(
        line_of(tree),
        "\ntry:\n    pass\nexcept (A, B) as e:\n    pass\nexcept:\n    pass\nelse:\n    pass\nfinally:\n    pass"
    );
}

#[test]
fn nested_try_statements_keep_their_own_handler_keyword() {
    let inner = Stmt::Try(StmtTry {
        body: vec![pass()],
        handlers: vec![handler(Some(name("K")), None)],
        orelse: Vec::new(),
        finalbody: Vec::new(),
    });
    let outer = Stmt::TryStar(StmtTryStar {
        body: vec![inner],
        handlers: vec![handler(Some(name("V")), None), handler(Some(name("T")), Some("e"))],
        orelse: Vec::new(),
        finalbody: Vec::new(),
    });
    assert_eq!(
        line_of(outer),
        "\ntry:\n    try:\n        pass\n    except K:\n        pass\nexcept* V:\n    pass\nexcept* T as e:\n    pass"
    );
}

#[test]
fn patterns() {
    let value = |node| Pattern::MatchValue(PatternMatchValue { value: Box::new(node) });
    assert_eq!(pattern_of(value(number(1))), "1");
    assert_eq!(
        pattern_of(Pattern::MatchSingleton(PatternMatchSingleton { value: Constant::NoneValue })),
        "None"
    );
    assert_eq!(
        pattern_of(Pattern::MatchSingleton(PatternMatchSingleton { value: Constant::Bool(true) })),
        "True"
    );
    assert_eq!(
        pattern_of(Pattern::MatchSequence(PatternMatchSequence {
            patterns: vec![
                capture("a"),
                Pattern::MatchStar(PatternMatchStar { name: Some("rest".to_owned()) }),
                Pattern::MatchStar(PatternMatchStar { name: None }),
            ],
        })),
        "[a, *rest, *_]"
    );
    let mapping = |rest: Option<&str>, entries| {
        Pattern::MatchMapping(PatternMatchMapping {
            entries,
            rest: rest.map(|text| text.to_owned()),
        })
    };
    assert_eq!(
        pattern_of(mapping(
            Some("others"),
            vec![MappingEntry { key: number(1), pattern: capture("v") }]
        )),
        "{1: v, **others}"
    );
    assert_eq!(pattern_of(mapping(Some("others"), Vec::new())), "{**others}");
    assert_eq!(pattern_of(mapping(None, Vec::new())), "{}");
    assert_eq!(
        pattern_of(Pattern::MatchClass(PatternMatchClass {
            cls: Box::new(name("Point")),
            patterns: vec![capture("a")],
            kwd_patterns: vec![KeywordPattern { attr: "y".to_owned(), pattern: value(number(0)) }],
        })),
        "Point(a, y=0)"
    );
    assert_eq!(
        pattern_of(Pattern::MatchAs(PatternMatchAs { pattern: None, name: None })),
        "_"
    );
    assert_eq!(pattern_of(capture("x")), "x");
}

#[test]
fn alternations_and_captures_nest_with_parentheses() {
    let value = |n: u32| Pattern::MatchValue(PatternMatchValue { value: Box::new(number(n)) });
    let either = || Pattern::MatchOr(PatternMatchOr { patterns: vec![value(1), value(2)] });
    let bound = |inner| {
        Pattern::MatchAs(PatternMatchAs {
            pattern: Some(Box::new(inner)),
            name: Some("x".to_owned()),
        })
    };
    assert_eq!(pattern_of(either()), "1 | 2");
    assert_eq!(pattern_of(bound(either())), "1 | 2 as x");
    assert_eq!(pattern_of(bound(bound(value(1)))), "(1 as x) as x");
    assert_eq!(
        pattern_of(Pattern::MatchOr(PatternMatchOr {
            patterns: vec![either(), bound(value(3))],
        })),
        "(1 | 2) | (3 as x)"
    );
}

#[test]
fn match_statement_puts_cases_one_level_deeper() {
    let tree = Stmt::Match(StmtMatch {
        subject: Box::new(name("x")),
        cases: vec![
            MatchCase {
                pattern: capture("y"),
                guard: Some(Box::new(name("y"))),
                body: vec![pass()],
            },
            MatchCase {
                pattern: Pattern::MatchAs(PatternMatchAs { pattern: None, name: None }),
                guard: None,
                body: vec![pass()],
            },
        ],
    });
    assert_eq!(
        line_of(tree),
        "\nmatch x:\n    case y if y:\n        pass\n    case _:\n        pass"
    );
}

#[test]
fn failed_rendering_keeps_what_was_written_before() {
    let mut unparser = Unparser::new();
    unparser.write_str("x");
    let tree = expr_stmt(binop(name("a"), Operator::Add, joined()));
    assert_eq!(unparser.unparse_stmt(&tree), Err(UnparseError::UnsupportedConstruct));
    assert!(unparser.source.starts_with("x"));
}

fn negative(value: u32) -> Expr {
    constant(Constant::Int(Integer { negative: true, magnitude: vec![value] }))
}

#[test]
fn literal_with_a_minus_sign_is_delimited_like_a_negation() {
    assert_eq!(text_of(binop(negative(1), Operator::Pow, number(2))), "(-1) ** 2");
    assert_eq!(text_of(binop(number(2), Operator::Pow, negative(1))), "2 ** (-1)");
    assert_eq!(text_of(binop(negative(1), Operator::Add, negative(2))), "-1 + -2");
    assert_eq!(text_of(binop(negative(1), Operator::Mult, number(2))), "-1 * 2");
    assert_eq!(text_at(negative(1), 4), "-1");
    assert_eq!(text_at(negative(1), 15), "-1");
    assert_eq!(text_at(negative(1), 16), "(-1)");
    let float = |text: &str| constant(Constant::Float(text.to_owned()));
    assert_eq!(text_of(binop(float("-1.5"), Operator::Pow, number(2))), "(-1.5) ** 2");
    assert_eq!(text_of(binop(float("1.5"), Operator::Pow, number(2))), "1.5 ** 2");
    let imaginary = |text: &str| constant(Constant::Complex { re: None, im: text.to_owned() });
    assert_eq!(text_of(binop(imaginary("-2.0"), Operator::Pow, number(2))), "(-2.0j) ** 2");
    let zero = constant(Constant::Int(Integer { negative: true, magnitude: vec![0] }));
    assert_eq!(text_of(binop(zero, Operator::Pow, number(2))), "0 ** 2");
    let call_on = call(negative(1), Vec::new(), Vec::new());
    assert_eq!(text_of(call_on), "(-1)()");
}

#[test]
fn empty_tuple_takes_no_parentheses_anywhere() {
    assert_eq!(text_at(tuple(Vec::new()), 1), "()");
    assert_eq!(text_at(tuple(Vec::new()), 4), "()");
    assert_eq!(text_at(tuple(Vec::new()), 18), "()");
    assert_eq!(text_of(call(tuple(Vec::new()), Vec::new(), Vec::new())), "()()");
}

#[test]
fn pattern_bound_to_no_name_is_unsupported() {
    let inner = Pattern::MatchValue(PatternMatchValue { value: Box::new(joined()) });
    let nameless = Pattern::MatchAs(PatternMatchAs { pattern: Some(Box::new(inner)), name: None });
    let mut unparser = Unparser::new();
    assert_eq!(unparser.unparse_pattern(&nameless), Err(UnparseError::UnsupportedConstruct));
    assert_eq!(unparser.source, "");
    let plain = Pattern::MatchAs(PatternMatchAs {
        pattern: Some(Box::new(capture("a"))),
        name: None,
    });
    let tree = Stmt::Match(StmtMatch {
        subject: Box::new(name("x")),
        cases: vec![MatchCase { pattern: plain, guard: None, body: vec![pass()] }],
    });
    assert_eq!(render(&vec![tree]), Err(UnparseError::UnsupportedConstruct));
}

fn assign_to(target: &str, value: Expr) -> Stmt {
    Stmt::Assign(StmtAssign {
        targets: vec![name(target)],
        value: Box::new(value),
        type_comment: None,
    })
}

#[test]
fn failed_rendering_leaves_what_was_written_up_to_the_failure() {
    let tree = assign_to("x", call(name("f"), vec![number(1), joined(), number(2)], Vec::new()));
    let mut unparser = Unparser::new();
    unparser.write_str("# before");
    assert_eq!(unparser.unparse_stmt(&tree), Err(UnparseError::UnsupportedConstruct));
    assert_eq!(unparser.source, "# before\nx = f(1, ");
}

#[test]
fn failure_in_a_block_stops_inside_the_block() {
    let body = vec![
        pass(),
        if_stmt(
            name("a"),
            vec![expr_stmt(name("b")), expr_stmt(binop(name("c"), Operator::Add, bad_bytes()))],
            vec![pass()],
        ),
        pass(),
    ];
    let mut unparser = Unparser::new();
    assert_eq!(unparser.unparse_stmts(&body), Err(UnparseError::EncodingError));
    assert_eq!(unparser.source, "\npass\nif a:\n    b\n    c + ");
}

#[test]
fn failure_inside_parentheses_leaves_them_open() {
    let sum = binop(name("a"), Operator::Add, joined());
    let tree = binop(sum, Operator::Mult, name("b"));
    let mut unparser = Unparser::new();
    assert_eq!(unparser.unparse_expr(&tree), Err(UnparseError::UnsupportedConstruct));
    assert_eq!(unparser.source, "(a + ");
}

#[test]
fn two_renderers_leave_the_same_result_and_text() {
    let good = assign_to("x", binop(name("a"), Operator::Add, number(1)));
    let bad = Stmt::Return(StmtReturn {
        value: Some(Box::new(tuple(vec![name("a"), bad_bytes(), name("b")]))),
    });
    for tree in [good, bad] {
        let mut first = Unparser::new();
        let mut second = Unparser::new();
        let one = first.unparse_stmt(&tree);
        let two = second.unparse_stmt(&tree);
        assert_eq!(one, two);
        assert_eq!(first.source, second.source);
    }
    let mut unparser = Unparser::new();
    let tree = Stmt::Return(StmtReturn {
        value: Some(Box::new(tuple(vec![name("a"), bad_bytes(), name("b")]))),
    });
    assert_eq!(unparser.unparse_stmt(&tree), Err(UnparseError::EncodingError));
    assert_eq!(unparser.source, "\nreturn (a, ");
}
