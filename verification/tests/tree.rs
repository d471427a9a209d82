use rust_sharp::bind::bound_ast::{
    BoundBinaryOp, BoundExpr, BoundProgram, BoundStatement, Type,
};
use rust_sharp::tree::{green_text, print_expr, print_program, red_text};

fn green(s: &str) -> String {
    format!("\x1b[32m{}\x1b[0m", s)
}

fn red(s: &str) -> String {
    format!("\x1b[31m({})\x1b[0m", s)
}

fn bound_int(n: i32) -> BoundExpr {
    BoundExpr::Int { n }
}

#[test]
fn colours() {
    assert_eq!(red_text("x"), "\x1b[31m(x)\x1b[0m");
    assert_eq!(green_text("Int"), "\x1b[32mInt\x1b[0m");
    assert_eq!(red_text(""), "\x1b[31m()\x1b[0m");
}

#[test]
fn literals_show_their_value_on_the_same_line() {
    assert_eq!(
        print_expr(&bound_int(-3), "", true),
        format!("└───{}{}\n", green("Int"), red("-3"))
    );
    assert_eq!(
        print_expr(&BoundExpr::Bool { b: true }, "  ", false),
        format!("  ├───{}{}\n", green("Bool"), red("true"))
    );
    assert_eq!(
        print_expr(&BoundExpr::Bool { b: false }, "", true),
        format!("└───{}{}\n", green("Bool"), red("false"))
    );
    assert_eq!(
        print_expr(&BoundExpr::String { str: "hi".to_string() }, "", true),
        format!("└───{}{}\n", green("String"), red("hi"))
    );
}

#[test]
fn binary_operation_shows_both_operands_one_level_deeper() {
    let expr = BoundExpr::BoundBinaryOp {
        op: BoundBinaryOp::Add,
        lhs: Box::new(bound_int(1)),
        rhs: Box::new(BoundExpr::BoundBinaryOp {
            op: BoundBinaryOp::Or,
            lhs: Box::new(BoundExpr::Bool { b: true }),
            rhs: Box::new(BoundExpr::Bool { b: false }),
            bin_op_type: Type::Bool,
        }),
        bin_op_type: Type::Int,
    };
    let expected = format!(
        "└───{} +\n    ├───{}{}\n    └───{} ||\n        ├───{}{}\n        └───{}{}\n",
        green("BinaryOp"),
        green("Int"),
        red("1"),
        green("BinaryOp"),
        green("Bool"),
        red("true"),
        green("Bool"),
        red("false"),
    );
    assert_eq!(print_expr(&expr, "", true), expected);
}

#[test]
fn every_operator_has_its_sign() {
    for (op, sign) in [
        (BoundBinaryOp::Add, "+"),
        (BoundBinaryOp::Sub, "-"),
        (BoundBinaryOp::Mul, "*"),
        (BoundBinaryOp::Div, "/"),
        (BoundBinaryOp::And, "&&"),
        (BoundBinaryOp::Or, "||"),
    ] {
        let expr = BoundExpr::BoundBinaryOp {
            op,
            lhs: Box::new(bound_int(1)),
            rhs: Box::new(bound_int(2)),
            bin_op_type: Type::Int,
        };
        let expected = format!(
            "├───{} {}\n│   ├───{}{}\n│   └───{}{}\n",
            green("BinaryOp"),
            sign,
            green("Int"),
            red("1"),
            green("Int"),
            red("2"),
        );
        assert_eq!(print_expr(&expr, "", false), expected);
    }
}

#[test]
fn parentheses_and_print() {
    let inside = BoundExpr::ParenthesizedExpression { expr: Box::new(bound_int(4)) };
    assert_eq!(
        print_expr(&inside, "", true),
        format!("└───{}\n    └───{}{}\n", green("ParenthesizedExpression"), green("Int"), red("4"))
    );
    let print = BoundExpr::BoundPrint { expr_type: Type::Int, expr: Box::new(bound_int(5)) };
    assert_eq!(
        print_expr(&print, "ab", false),
        format!("ab├───{}\n├───{}{}\n", green("Print:"), green("Int"), red("5"))
    );
}

#[test]
fn declaration_shows_name_then_value() {
    let decl = BoundExpr::BoundDeclaration {
        identifier: "x".to_string(),
        value_type: Type::Int,
        rhs: Box::new(bound_int(2)),
    };
    assert_eq!(
        print_expr(&decl, "", true),
        format!(
            "└───{}\n    {}\n    └───{}{}\n",
            green("BoundDeclaration"),
            red("x"),
            green("Int"),
            red("2")
        )
    );
}

#[test]
fn program_shows_every_statement_as_a_last_child() {
    let prog = BoundProgram::Body {
        stmts: vec![
            BoundStatement::BoundExpr { expr: bound_int(1) },
            BoundStatement::BoundExpr { expr: BoundExpr::Bool { b: true } },
        ],
    };
    assert_eq!(
        print_program(&prog),
        format!("└───{}{}\n└───{}{}\n", green("Int"), red("1"), green("Bool"), red("true"))
    );
    assert_eq!(print_program(&BoundProgram::Body { stmts: vec![] }), "");
}
