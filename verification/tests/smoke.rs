use python_unparser::ast::{Stmt, StmtBreak, StmtContinue, StmtPass};
use python_unparser::{render, Unparser};

#[test]
fn pass_statement_is_one_line() {
    let body = vec![Stmt::Pass(StmtPass {})];
    assert_eq!(render(&body).unwrap(), "\npass");
}

#[test]
fn statements_follow_each_other_on_new_lines() {
    let body = vec![
        Stmt::Pass(StmtPass {}),
        Stmt::Break(StmtBreak {}),
        Stmt::Continue(StmtContinue {}),
    ];
    assert_eq!(render(&body).unwrap(), "\npass\nbreak\ncontinue");
}

#[test]
fn empty_module_is_empty_text() {
    assert_eq!(render(&Vec::new()).unwrap(), "");
}

#[test]
fn new_renderer_is_empty_at_top_level() {
    let unparser = Unparser::new();
    assert_eq!(unparser.source, "");
    assert_eq!(unparser.indent, 0);
}

#[test]
fn write_str_appends() {
    let mut unparser = Unparser::new();
    unparser.write_str("a");
    unparser.write_str("bc");
    assert_eq!(unparser.source, "abc");
    assert_eq!(unparser.indent, 0);
}

#[test]
fn fill_starts_a_line_at_the_current_depth() {
    let mut unparser = Unparser::new();
    unparser.fill("x");
    unparser.indent = 2;
    unparser.fill("y");
    assert_eq!(unparser.source, "\nx\n        y");
    assert_eq!(unparser.indent, 2);
}

#[test]
fn block_is_one_level_deeper_and_restores_the_depth() {
    let mut unparser = Unparser::new();
    unparser.indent = 1;
    unparser.block(&vec![Stmt::Pass(StmtPass {}), Stmt::Break(StmtBreak {})]).unwrap();
    assert_eq!(unparser.source, "\n        pass\n        break");
    assert_eq!(unparser.indent, 1);
}

#[test]
fn block_at_the_largest_depth_stays_there() {
    let mut unparser = Unparser::new();
    unparser.indent = usize::MAX;
    unparser.block(&Vec::new()).unwrap();
    assert_eq!(unparser.source, "");
    assert_eq!(unparser.indent, usize::MAX);
}

#[test]
fn one_renderer_takes_several_statements() {
    let mut unparser = Unparser::new();
    unparser.unparse_stmt(&Stmt::Pass(StmtPass {})).unwrap();
    unparser.unparse_stmt(&Stmt::Break(StmtBreak {})).unwrap();
    assert_eq!(unparser.source, "\npass\nbreak");
}
