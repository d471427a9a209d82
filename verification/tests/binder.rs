use rust_sharp::ast::{BinaryOp, Expr, Identifier, Program, SourcePos, Statement};
use rust_sharp::bind::binder::Binder;
use rust_sharp::bind::bound_ast::{
    binary_to_bound_binary_op, BoundBinaryOp, BoundExpr, BoundProgram, BoundStatement, Type,
    TypeError,
};

fn pos(start: usize, end: usize) -> SourcePos {
    SourcePos { start, end }
}

fn lit(n: i32, start: usize, end: usize) -> Expr {
    Expr::Int { n, source_pos: pos(start, end) }
}

fn boolean(b: bool, start: usize, end: usize) -> Expr {
    Expr::Bool { b, source_pos: pos(start, end) }
}

fn text(s: &str, start: usize, end: usize) -> Expr {
    Expr::String { text: s.to_string(), source_pos: pos(start, end) }
}

fn ident(name: &str, start: usize, end: usize) -> Identifier {
    Identifier { text: name.to_string(), source_pos: pos(start, end) }
}

fn name(n: &str, start: usize, end: usize) -> Expr {
    Expr::Identifier(ident(n, start, end))
}

fn binary(op: BinaryOp, lhs: Expr, rhs: Expr) -> Expr {
    Expr::BinaryOp { op, lhs: Box::new(lhs), rhs: Box::new(rhs) }
}

fn paren(e: Expr) -> Expr {
    Expr::ParenthesizedExpression { expr: Box::new(e) }
}

fn print(e: Expr) -> Expr {
    Expr::Print { expr: Box::new(e) }
}

fn declare(n: &str, start: usize, end: usize, rhs: Expr) -> Statement {
    Statement::Declare { identifier: ident(n, start, end), rhs }
}

fn program(stmts: Vec<Statement>) -> Program {
    Program::Body { stmts }
}

fn bound_int(n: i32) -> BoundExpr {
    BoundExpr::Int { n }
}

fn bound_decl(n: &str, value_type: Type, rhs: BoundExpr) -> BoundExpr {
    BoundExpr::BoundDeclaration { identifier: n.to_string(), value_type, rhs: Box::new(rhs) }
}

fn statements(prog: BoundProgram) -> Vec<BoundExpr> {
    let BoundProgram::Body { stmts } = prog;
    stmts
        .into_iter()
        .map(|s| {
            let BoundStatement::BoundExpr { expr } = s;
            expr
        })
        .collect()
}

fn error(msg: &str, start: usize, end: usize) -> TypeError {
    TypeError { msg: msg.to_string(), source_pos: pos(start, end) }
}

#[test]
fn literals_bind_to_themselves() {
    let mut binder = Binder::new();
    assert_eq!(binder.bind_expr(&lit(7, 0, 1)), Ok(BoundExpr::Int { n: 7 }));
    assert_eq!(binder.bind_expr(&boolean(true, 0, 4)), Ok(BoundExpr::Bool { b: true }));
    assert_eq!(
        binder.bind_expr(&text("hi", 0, 4)),
        Ok(BoundExpr::String { str: "hi".to_string() })
    );
}

#[test]
fn parentheses_are_transparent() {
    let mut binder = Binder::new();
    assert_eq!(binder.bind_expr(&paren(paren(lit(3, 2, 3)))), Ok(bound_int(3)));
}

#[test]
fn well_typed_program_binds() {
    // let x = 2 + 3; x * 4; true || false;
    let prog = program(vec![
        declare(
            "x",
            4,
            5,
            binary(BinaryOp::Add { source_pos: pos(10, 11) }, lit(2, 8, 9), lit(3, 12, 13)),
        ),
        Statement::Expr {
            expr: binary(BinaryOp::Mul { source_pos: pos(17, 18) }, name("x", 15, 16), lit(4, 19, 20)),
        },
        Statement::Expr {
            expr: binary(
                BinaryOp::Or { source_pos: pos(27, 29) },
                boolean(true, 22, 26),
                boolean(false, 30, 35),
            ),
        },
    ]);
    let mut binder = Binder::new();
    assert!(Binder::is_bindable_program(&prog));
    let bound = statements(binder.bind(&prog).expect("a well-typed program binds"));
    let sum = BoundExpr::BoundBinaryOp {
        op: BoundBinaryOp::Add,
        lhs: Box::new(bound_int(2)),
        rhs: Box::new(bound_int(3)),
        bin_op_type: Type::Int,
    };
    assert_eq!(bound.len(), 3);
    assert_eq!(bound[0], bound_decl("x", Type::Int, sum.clone()));
    assert_eq!(
        bound[1],
        BoundExpr::BoundBinaryOp {
            op: BoundBinaryOp::Mul,
            lhs: Box::new(bound_decl("x", Type::Int, sum)),
            rhs: Box::new(bound_int(4)),
            bin_op_type: Type::Int,
        }
    );
    assert_eq!(
        bound[2],
        BoundExpr::BoundBinaryOp {
            op: BoundBinaryOp::Or,
            lhs: Box::new(BoundExpr::Bool { b: true }),
            rhs: Box::new(BoundExpr::Bool { b: false }),
            bin_op_type: Type::Bool,
        }
    );
    for expr in &bound {
        let derived = Binder::get_type(expr);
        assert_eq!(derived, Binder::get_type(expr));
    }
    assert_eq!(Binder::get_type(&bound[0]), Type::Int);
    assert_eq!(Binder::get_type(&bound[2]), Type::Bool);
}

#[test]
fn duplicate_declaration_is_reported_once_and_stops_binding() {
    // let x = 1; let x = 2; y;
    let prog = program(vec![
        declare("x", 4, 5, lit(1, 8, 9)),
        declare("x", 15, 16, lit(2, 19, 20)),
        Statement::Expr { expr: name("y", 22, 23) },
    ]);
    let mut binder = Binder::new();
    let err = binder.bind(&prog).expect_err("a duplicate declaration fails");
    assert_eq!(err.expr_errors, vec![error("Variable identifier is already taken", 15, 16)]);
    // the failing call has declared nothing
    assert_eq!(
        binder.retrieve_variable(&ident("x", 0, 1)),
        Err(error("Variable is undefined", 0, 1))
    );
}

#[test]
fn duplicate_declaration_over_two_calls() {
    let mut binder = Binder::new();
    assert!(binder.bind(&program(vec![declare("x", 4, 5, lit(1, 8, 9))])).is_ok());
    let err = binder
        .bind(&program(vec![declare("x", 4, 5, lit(2, 8, 9))]))
        .expect_err("the name is taken by the first call");
    assert_eq!(err.expr_errors, vec![error("Variable identifier is already taken", 4, 5)]);
}

#[test]
fn undefined_variable_is_reported_at_the_identifier() {
    let mut binder = Binder::new();
    assert_eq!(binder.bind_expr(&name("y", 3, 4)), Err(error("Variable is undefined", 3, 4)));
    let err = binder
        .bind(&program(vec![Statement::Expr { expr: name("y", 3, 4) }]))
        .expect_err("the name is not declared");
    assert_eq!(err.expr_errors, vec![error("Variable is undefined", 3, 4)]);
}

#[test]
fn type_mismatch_names_operator_and_types() {
    // 1 + true
    let expr = binary(BinaryOp::Add { source_pos: pos(2, 3) }, lit(1, 0, 1), boolean(true, 4, 8));
    let mut binder = Binder::new();
    assert_eq!(
        binder.bind_expr(&expr),
        Err(error("Cannot perform 'add' between Int and Bool.", 0, 8))
    );
}

#[test]
fn type_mismatch_for_every_operator_kind() {
    let mut binder = Binder::new();
    let cases = vec![
        (BinaryOp::Sub { source_pos: pos(2, 3) }, "sub"),
        (BinaryOp::Mul { source_pos: pos(2, 3) }, "mul"),
        (BinaryOp::Div { source_pos: pos(2, 3) }, "div"),
    ];
    for (op, op_name) in cases {
        let expr = binary(op, text("a", 0, 1), lit(1, 4, 5));
        assert_eq!(
            binder.bind_expr(&expr),
            Err(error(&format!("Cannot perform '{}' between String and Int.", op_name), 0, 5))
        );
    }
    let and = binary(BinaryOp::And { source_pos: pos(2, 4) }, lit(1, 0, 1), lit(2, 5, 6));
    assert_eq!(
        binder.bind_expr(&and),
        Err(error("Cannot perform 'and' between Int and Int.", 0, 6))
    );
    let or = binary(BinaryOp::Or { source_pos: pos(5, 7) }, boolean(true, 0, 4), lit(2, 8, 9));
    assert_eq!(
        binder.bind_expr(&or),
        Err(error("Cannot perform 'or' between Bool and Int.", 0, 9))
    );
}

#[test]
fn logical_operators_take_booleans() {
    let mut binder = Binder::new();
    let and = binary(
        BinaryOp::And { source_pos: pos(5, 7) },
        boolean(true, 0, 4),
        boolean(false, 8, 13),
    );
    assert_eq!(
        binder.bind_expr(&and),
        Ok(BoundExpr::BoundBinaryOp {
            op: BoundBinaryOp::And,
            lhs: Box::new(BoundExpr::Bool { b: true }),
            rhs: Box::new(BoundExpr::Bool { b: false }),
            bin_op_type: Type::Bool,
        })
    );
}

#[test]
fn left_operand_error_is_preferred() {
    let mut binder = Binder::new();
    let expr =
        binary(BinaryOp::Add { source_pos: pos(2, 3) }, name("a", 0, 1), name("b", 4, 5));
    assert_eq!(binder.bind_expr(&expr), Err(error("Variable is undefined", 0, 1)));
    let right_only =
        binary(BinaryOp::Add { source_pos: pos(2, 3) }, lit(1, 0, 1), name("b", 4, 5));
    assert_eq!(binder.bind_expr(&right_only), Err(error("Variable is undefined", 4, 5)));
}

#[test]
fn errors_are_collected_and_binding_continues() {
    // a; 1 + true; let z = b; 5;
    let prog = program(vec![
        Statement::Expr { expr: name("a", 0, 1) },
        Statement::Expr {
            expr: binary(BinaryOp::Add { source_pos: pos(5, 6) }, lit(1, 3, 4), boolean(true, 7, 11)),
        },
        declare("z", 17, 18, name("b", 21, 22)),
        Statement::Expr { expr: lit(5, 24, 25) },
    ]);
    let mut binder = Binder::new();
    let err = binder.bind(&prog).expect_err("three statements are ill-typed");
    assert_eq!(
        err.expr_errors,
        vec![
            error("Variable is undefined", 0, 1),
            error("Cannot perform 'add' between Int and Bool.", 3, 11),
            error("Variable is undefined", 21, 22),
        ]
    );
    // a declaration whose right-hand side failed declares nothing
    assert_eq!(
        binder.retrieve_variable(&ident("z", 0, 1)),
        Err(error("Variable is undefined", 0, 1))
    );
}

#[test]
fn a_failing_call_leaves_the_table_as_it_was() {
    let mut binder = Binder::new();
    assert!(binder.bind(&program(vec![declare("kept", 4, 8, lit(7, 11, 12))])).is_ok());
    let prog = program(vec![
        declare("x", 4, 5, lit(1, 8, 9)),
        Statement::Expr { expr: name("nope", 11, 15) },
        declare("y", 21, 22, name("x", 25, 26)),
    ]);
    let err = binder.bind(&prog).expect_err("one statement is ill-typed");
    // within the call `x` was declared: `y = x` raised no diagnostic
    assert_eq!(err.expr_errors, vec![error("Variable is undefined", 11, 15)]);
    assert_eq!(
        binder.retrieve_variable(&ident("x", 0, 1)),
        Err(error("Variable is undefined", 0, 1))
    );
    assert_eq!(
        binder.retrieve_variable(&ident("y", 0, 1)),
        Err(error("Variable is undefined", 0, 1))
    );
    assert_eq!(
        binder.retrieve_variable(&ident("kept", 0, 1)),
        Ok(bound_decl("kept", Type::Int, bound_int(7)))
    );
    // so the same declarations can be made again
    let again = program(vec![declare("x", 4, 5, lit(1, 8, 9))]);
    assert!(binder.bind(&again).is_ok());
}

#[test]
fn a_succeeding_call_keeps_its_declarations() {
    let mut binder = Binder::new();
    let prog = program(vec![
        declare("x", 4, 5, lit(1, 8, 9)),
        declare("y", 15, 16, boolean(true, 19, 23)),
    ]);
    assert!(binder.bind(&prog).is_ok());
    assert_eq!(
        binder.retrieve_variable(&ident("x", 0, 1)),
        Ok(bound_decl("x", Type::Int, bound_int(1)))
    );
    assert_eq!(
        binder.retrieve_variable(&ident("y", 0, 1)),
        Ok(bound_decl("y", Type::Bool, BoundExpr::Bool { b: true }))
    );
}

#[test]
fn identifier_reference_echoes_the_declaration() {
    let mut binder = Binder::new();
    let prog = program(vec![declare("s", 4, 5, text("hello", 8, 15))]);
    let bound = statements(binder.bind(&prog).expect("binds"));
    let value = BoundExpr::String { str: "hello".to_string() };
    assert_eq!(bound, vec![bound_decl("s", Type::String, value.clone())]);
    assert_eq!(binder.bind_expr(&name("s", 0, 1)), Ok(bound_decl("s", Type::String, value)));
}

#[test]
fn print_of_literals_and_names() {
    let mut binder = Binder::new();
    assert_eq!(
        binder.bind_expr(&print(lit(5, 6, 7))),
        Ok(BoundExpr::BoundPrint { expr_type: Type::Int, expr: Box::new(bound_int(5)) })
    );
    assert_eq!(
        binder.bind_expr(&print(text("hi", 6, 10))),
        Ok(BoundExpr::BoundPrint {
            expr_type: Type::String,
            expr: Box::new(BoundExpr::String { str: "hi".to_string() }),
        })
    );
    assert!(binder.bind(&program(vec![declare("b", 4, 5, boolean(true, 8, 12))])).is_ok());
    assert_eq!(
        binder.bind_expr(&print(name("b", 6, 7))),
        Ok(BoundExpr::BoundPrint {
            expr_type: Type::Bool,
            expr: Box::new(bound_decl("b", Type::Bool, BoundExpr::Bool { b: true })),
        })
    );
    assert_eq!(
        binder.bind_expr(&print(name("c", 6, 7))),
        Err(error("Variable is undefined", 6, 7))
    );
}

#[test]
fn print_rejects_other_targets() {
    let mut binder = Binder::new();
    let sum = binary(BinaryOp::Add { source_pos: pos(8, 9) }, lit(1, 6, 7), lit(2, 10, 11));
    assert_eq!(binder.bind_expr(&print(sum)), Err(error("Can only print literals", 6, 11)));
    assert_eq!(
        binder.bind_expr(&print(paren(lit(1, 7, 8)))),
        Err(error("Can only print literals", 7, 8))
    );
    assert_eq!(
        binder.bind_expr(&print(print(lit(1, 12, 13)))),
        Err(error("Can only print literals", 12, 13))
    );
}

#[test]
fn print_of_boolean_literal_is_not_bindable() {
    assert!(!Binder::is_bindable(&print(boolean(true, 6, 10))));
    assert!(!Binder::is_bindable(&paren(print(boolean(false, 7, 12)))));
    assert!(!Binder::is_bindable(&binary(
        BinaryOp::Add { source_pos: pos(2, 3) },
        lit(1, 0, 1),
        print(boolean(true, 10, 14)),
    )));
    assert!(Binder::is_bindable(&print(lit(1, 6, 7))));
    assert!(Binder::is_bindable(&boolean(true, 0, 4)));
    // a print below a print is rejected before its target is looked at
    assert!(Binder::is_bindable(&print(print(boolean(true, 12, 16)))));
    assert!(!Binder::is_bindable_program(&program(vec![
        Statement::Expr { expr: lit(1, 0, 1) },
        declare("x", 7, 8, print(boolean(true, 17, 21))),
    ])));
    assert!(Binder::is_bindable_program(&program(vec![])));
}

#[test]
fn type_derivation_covers_every_variant() {
    assert_eq!(Binder::get_type(&BoundExpr::Int { n: 1 }), Type::Int);
    assert_eq!(Binder::get_type(&BoundExpr::Bool { b: false }), Type::Bool);
    assert_eq!(Binder::get_type(&BoundExpr::String { str: String::new() }), Type::String);
    assert_eq!(
        Binder::get_type(&BoundExpr::BoundBinaryOp {
            op: BoundBinaryOp::Add,
            lhs: Box::new(bound_int(1)),
            rhs: Box::new(bound_int(2)),
            bin_op_type: Type::Bool,
        }),
        Type::Bool
    );
    assert_eq!(
        Binder::get_type(&BoundExpr::ParenthesizedExpression {
            expr: Box::new(BoundExpr::String { str: "s".to_string() }),
        }),
        Type::String
    );
    assert_eq!(
        Binder::get_type(&BoundExpr::BoundPrint {
            expr_type: Type::String,
            expr: Box::new(bound_int(1)),
        }),
        Type::String
    );
    assert_eq!(Binder::get_type(&bound_decl("x", Type::Bool, bound_int(1))), Type::Bool);
}

#[test]
fn source_positions() {
    assert_eq!(Binder::get_src_pos(&lit(1, 3, 4)), pos(3, 4));
    assert_eq!(Binder::get_src_pos(&boolean(true, 5, 9)), pos(5, 9));
    assert_eq!(Binder::get_src_pos(&text("a", 1, 4)), pos(1, 4));
    assert_eq!(Binder::get_src_pos(&name("a", 2, 3)), pos(2, 3));
    let inner = binary(BinaryOp::Sub { source_pos: pos(12, 13) }, lit(1, 10, 11), lit(2, 14, 15));
    let outer = binary(BinaryOp::Mul { source_pos: pos(7, 8) }, name("a", 5, 6), paren(inner));
    assert_eq!(Binder::get_src_pos(&outer), pos(5, 15));
    assert_eq!(Binder::get_src_pos(&print(paren(lit(1, 8, 9)))), pos(8, 9));
    assert_eq!(*Binder::get_src_pos_bin_op(&BinaryOp::And { source_pos: pos(7, 9) }), pos(7, 9));
}

#[test]
fn operator_types() {
    let at = pos(0, 1);
    for op in [
        BinaryOp::Add { source_pos: at },
        BinaryOp::Sub { source_pos: at },
        BinaryOp::Mul { source_pos: at },
        BinaryOp::Div { source_pos: at },
    ] {
        assert_eq!(Binder::get_op_type(&op), (Type::Int, Type::Int));
    }
    for op in [BinaryOp::And { source_pos: at }, BinaryOp::Or { source_pos: at }] {
        assert_eq!(Binder::get_op_type(&op), (Type::Bool, Type::Bool));
    }
}

#[test]
fn operators_keep_their_kind() {
    let at = pos(3, 4);
    assert_eq!(binary_to_bound_binary_op(BinaryOp::Add { source_pos: at }), BoundBinaryOp::Add);
    assert_eq!(binary_to_bound_binary_op(BinaryOp::Sub { source_pos: at }), BoundBinaryOp::Sub);
    assert_eq!(binary_to_bound_binary_op(BinaryOp::Mul { source_pos: at }), BoundBinaryOp::Mul);
    assert_eq!(binary_to_bound_binary_op(BinaryOp::Div { source_pos: at }), BoundBinaryOp::Div);
    assert_eq!(binary_to_bound_binary_op(BinaryOp::And { source_pos: at }), BoundBinaryOp::And);
    assert_eq!(binary_to_bound_binary_op(BinaryOp::Or { source_pos: at }), BoundBinaryOp::Or);
}

#[test]
fn operator_and_type_names() {
    let at = pos(0, 1);
    assert_eq!(BinaryOp::Add { source_pos: at }.name(), "add");
    assert_eq!(BinaryOp::Sub { source_pos: at }.name(), "sub");
    assert_eq!(BinaryOp::Mul { source_pos: at }.name(), "mul");
    assert_eq!(BinaryOp::Div { source_pos: at }.name(), "div");
    assert_eq!(BinaryOp::And { source_pos: at }.name(), "and");
    assert_eq!(BinaryOp::Or { source_pos: at }.name(), "or");
    assert_eq!(Type::Int.name(), "Int");
    assert_eq!(Type::Bool.name(), "Bool");
    assert_eq!(Type::String.name(), "String");
}

#[test]
fn invalid_operator_error() {
    let res = Binder::invalid_op_err(
        &Type::Bool,
        &Type::String,
        &BinaryOp::Div { source_pos: pos(1, 2) },
        &pos(4, 9),
    );
    assert_eq!(res, Err(error("Cannot perform 'div' between Bool and String.", 4, 9)));
}

#[test]
fn a_new_binder_knows_no_name() {
    let binder = Binder::default();
    assert_eq!(
        binder.retrieve_variable(&ident("x", 1, 2)),
        Err(error("Variable is undefined", 1, 2))
    );
    let mut binder = Binder::new();
    assert_eq!(statements(binder.bind(&program(vec![])).expect("nothing to reject")), vec![]);
}

#[test]
fn try_bind_binds_where_binding_is_defined() {
    let mut binder = Binder::new();
    let prog = program(vec![declare("x", 4, 5, lit(1, 8, 9)), Statement::Expr { expr: name("x", 11, 12) }]);
    let bound = binder
        .try_bind(&prog)
        .expect("binding is defined on the program")
        .expect("the program is well typed");
    assert_eq!(
        statements(bound),
        vec![
            bound_decl("x", Type::Int, bound_int(1)),
            bound_decl("x", Type::Int, bound_int(1)),
        ]
    );
    let failing = program(vec![Statement::Expr { expr: name("y", 0, 1) }]);
    let err = binder
        .try_bind(&failing)
        .expect("binding is defined on the program")
        .expect_err("the name is not declared");
    assert_eq!(err.expr_errors, vec![error("Variable is undefined", 0, 1)]);
}

#[test]
fn try_bind_gives_none_for_a_boolean_print_and_restores_the_table() {
    let mut binder = Binder::new();
    assert!(binder.bind(&program(vec![declare("a", 4, 5, lit(1, 8, 9))])).is_ok());
    let prog = program(vec![
        declare("b", 4, 5, lit(2, 8, 9)),
        Statement::Expr { expr: print(boolean(true, 17, 21)) },
    ]);
    assert!(binder.try_bind(&prog).is_none());
    // `b` is not declared after all, `a` still is
    assert_eq!(
        binder.retrieve_variable(&ident("b", 0, 1)),
        Err(error("Variable is undefined", 0, 1))
    );
    assert_eq!(
        binder.retrieve_variable(&ident("a", 0, 1)),
        Ok(bound_decl("a", Type::Int, bound_int(1)))
    );
}

#[test]
fn statements_after_a_duplicate_declaration_are_not_looked_at() {
    let mut binder = Binder::new();
    let prog = program(vec![
        declare("x", 4, 5, lit(1, 8, 9)),
        declare("x", 15, 16, lit(2, 19, 20)),
        Statement::Expr { expr: print(boolean(true, 28, 32)) },
    ]);
    assert!(!Binder::is_bindable_program(&prog));
    let err = binder
        .try_bind(&prog)
        .expect("the boolean print is never reached")
        .expect_err("a duplicate declaration fails");
    assert_eq!(err.expr_errors, vec![error("Variable identifier is already taken", 15, 16)]);
}

#[test]
fn duplicate_declaration_is_reported_whatever_its_right_hand_side() {
    // let x = 1; let x = print true;
    let prog = program(vec![
        declare("x", 4, 5, lit(1, 8, 9)),
        declare("x", 15, 16, print(boolean(true, 25, 29))),
    ]);
    let mut binder = Binder::new();
    let err = binder
        .try_bind(&prog)
        .expect("the right-hand side of a duplicate is never bound")
        .expect_err("a duplicate declaration fails");
    assert_eq!(err.expr_errors, vec![error("Variable identifier is already taken", 15, 16)]);
    let err = binder.bind(&prog).expect_err("a duplicate declaration fails");
    assert_eq!(err.expr_errors, vec![error("Variable identifier is already taken", 15, 16)]);
    // the name is taken by a former call
    assert!(binder.bind(&program(vec![declare("y", 4, 5, lit(1, 8, 9))])).is_ok());
    let later = program(vec![declare("y", 4, 5, print(boolean(false, 14, 19)))]);
    let err = binder.bind(&later).expect_err("a duplicate declaration fails");
    assert_eq!(err.expr_errors, vec![error("Variable identifier is already taken", 4, 5)]);
}

#[test]
fn a_new_name_with_a_boolean_print_is_not_bound() {
    let mut binder = Binder::new();
    let prog = program(vec![declare("x", 4, 5, print(boolean(true, 14, 18)))]);
    assert!(binder.try_bind(&prog).is_none());
    assert_eq!(
        binder.retrieve_variable(&ident("x", 0, 1)),
        Err(error("Variable is undefined", 0, 1))
    );
}
