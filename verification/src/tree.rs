//! A tree-like rendering of bound programs, for showing them on a terminal.

use vstd::prelude::*;
use vstd::string::*;

use crate::bind::bound_ast::{
    BoundBinaryOp, BoundExpr, BoundExprView, BoundProgram, BoundStatement,
};
use crate::text::{i32_to_decimal, int_decimal};

verus! {

/// `s` in parentheses, coloured red.
pub open spec fn red_text_spec(s: Seq<char>) -> Seq<char> {
    "\x1b[31m("@ + s + ")\x1b[0m"@
}

/// `s` coloured green.
pub open spec fn green_text_spec(s: Seq<char>) -> Seq<char> {
    "\x1b[32m"@ + s + "\x1b[0m"@
}

/// Puts `s` in parentheses and colours it red.
pub fn red_text(s: &str) -> (out: String)
    ensures
        out@ == red_text_spec(s@),
{
    let mut out = String::from_str("\x1b[31m(");
    out.append(s);
    out.append(")\x1b[0m");
    out
}

/// Colours `s` green.
pub fn green_text(s: &str) -> (out: String)
    ensures
        out@ == green_text_spec(s@),
{
    let mut out = String::from_str("\x1b[32m");
    out.append(s);
    out.append("\x1b[0m");
    out
}

/// The sign that the tree shows for an operator.
pub open spec fn op_symbol(op: BoundBinaryOp) -> Seq<char> {
    match op {
        BoundBinaryOp::Add => " +"@,
        BoundBinaryOp::Sub => " -"@,
        BoundBinaryOp::Mul => " *"@,
        BoundBinaryOp::Div => " /"@,
        BoundBinaryOp::And => " &&"@,
        BoundBinaryOp::Or => " ||"@,
    }
}

/// The label of a node: the kind of expression in green, and for a binary
/// operation its sign.
pub open spec fn node_label(expr: BoundExprView) -> Seq<char> {
    match expr {
        BoundExprView::Int { .. } => green_text_spec("Int"@),
        BoundExprView::Bool { .. } => green_text_spec("Bool"@),
        BoundExprView::String { .. } => green_text_spec("String"@),
        BoundExprView::BoundBinaryOp { op, .. } => green_text_spec("BinaryOp"@) + op_symbol(op),
        BoundExprView::ParenthesizedExpression { .. } => green_text_spec(
            "ParenthesizedExpression"@,
        ),
        BoundExprView::BoundPrint { .. } => green_text_spec("Print:"@),
        BoundExprView::BoundDeclaration { .. } => green_text_spec("BoundDeclaration"@),
    }
}

/// The branch mark in front of a node.
pub open spec fn marker(is_last: bool) -> Seq<char> {
    if is_last {
        "└───"@
    } else {
        "├───"@
    }
}

/// The indentation of the nodes below one at `indent`.
pub open spec fn deeper(indent: Seq<char>, is_last: bool) -> Seq<char> {
    indent + (if is_last {
        "    "@
    } else {
        "│   "@
    })
}

/// The lines that show `expr` as a tree.
///
/// A node is shown as its indentation, its branch mark and its label. A
/// literal has its value in red on the same line. The operands of a binary
/// operation and the inside of parentheses follow one level deeper. What a
/// print prints follows without indentation. A declaration shows the name
/// in red on a line of its own, one level deeper, and then its value.
pub open spec fn expr_tree_text(expr: BoundExprView, indent: Seq<char>, is_last: bool) -> Seq<char>
    decreases expr,
{
    let below = deeper(indent, is_last);
    indent + marker(is_last) + node_label(expr) + (match expr {
        BoundExprView::Int { n } => red_text_spec(int_decimal(n as int)) + "\n"@,
        BoundExprView::Bool { b } => red_text_spec(
            if b {
                "true"@
            } else {
                "false"@
            },
        ) + "\n"@,
        BoundExprView::String { str } => red_text_spec(str) + "\n"@,
        BoundExprView::BoundBinaryOp { lhs, rhs, .. } => "\n"@ + expr_tree_text(*lhs, below, false)
            + expr_tree_text(*rhs, below, true),
        BoundExprView::ParenthesizedExpression { expr } => "\n"@ + expr_tree_text(
            *expr,
            below,
            true,
        ),
        BoundExprView::BoundPrint { expr, .. } => "\n"@ + expr_tree_text(
            *expr,
            Seq::empty(),
            is_last,
        ),
        BoundExprView::BoundDeclaration { identifier, rhs, .. } => "\n"@ + below + red_text_spec(
            identifier,
        ) + "\n"@ + expr_tree_text(*rhs, below, is_last),
    })
}

/// The trees of the statements of a program, one after the other.
pub open spec fn program_tree_text(stmts: Seq<BoundExprView>) -> Seq<char>
    decreases stmts.len(),
{
    if stmts.len() == 0 {
        Seq::empty()
    } else {
        program_tree_text(stmts.drop_last()) + expr_tree_text(stmts.last(), Seq::empty(), true)
    }
}

/// Renders the label of a node.
fn node_label_text(expr: &BoundExpr) -> (out: String)
    ensures
        out@ == node_label(expr@),
{
    match expr {
        BoundExpr::Int { .. } => green_text("Int"),
        BoundExpr::Bool { .. } => green_text("Bool"),
        BoundExpr::String { .. } => green_text("String"),
        BoundExpr::BoundBinaryOp { op, .. } => {
            let mut out = green_text("BinaryOp");
            out.append(
                match op {
                    BoundBinaryOp::Add => " +",
                    BoundBinaryOp::Sub => " -",
                    BoundBinaryOp::Mul => " *",
                    BoundBinaryOp::Div => " /",
                    BoundBinaryOp::And => " &&",
                    BoundBinaryOp::Or => " ||",
                },
            );
            out
        },
        BoundExpr::ParenthesizedExpression { .. } => green_text("ParenthesizedExpression"),
        BoundExpr::BoundPrint { .. } => green_text("Print:"),
        BoundExpr::BoundDeclaration { .. } => green_text("BoundDeclaration"),
    }
}

/// Renders `expr` as a tree, each line indented by `indent`.
pub fn print_expr(expr: &BoundExpr, indent: &str, is_last: bool) -> (out: String)
    ensures
        out@ == expr_tree_text(expr@, indent@, is_last),
    decreases expr,
{
    let mut out = String::from_str(indent);
    out.append(if is_last { "└───" } else { "├───" });
    let label = node_label_text(expr);
    out.append(label.as_str());
    let ghost head = indent@ + marker(is_last) + node_label(expr@);
    assert(out@ == head);

    let mut below = String::from_str(indent);
    below.append(if is_last { "    " } else { "│   " });
    assert(below@ == deeper(indent@, is_last));

    match expr {
        BoundExpr::Int { n } => {
            let digits = i32_to_decimal(*n);
            let value = red_text(digits.as_str());
            out.append(value.as_str());
            out.append("\n");
            assert(out@ =~= head + (red_text_spec(int_decimal(*n as int)) + "\n"@));
        },
        BoundExpr::Bool { b } => {
            let value = red_text(if *b { "true" } else { "false" });
            out.append(value.as_str());
            out.append("\n");
            assert(out@ =~= head + (red_text_spec(if *b { "true"@ } else { "false"@ }) + "\n"@));
        },
        BoundExpr::String { str } => {
            let value = red_text(str.as_str());
            out.append(value.as_str());
            out.append("\n");
            assert(out@ =~= head + (red_text_spec(str@) + "\n"@));
        },
        BoundExpr::BoundBinaryOp { lhs, rhs, .. } => {
            assert(expr@->BoundBinaryOp_lhs == Box::new(lhs@));
            assert(expr@->BoundBinaryOp_rhs == Box::new(rhs@));
            out.append("\n");
            let left = print_expr(&**lhs, below.as_str(), false);
            out.append(left.as_str());
            let right = print_expr(&**rhs, below.as_str(), true);
            out.append(right.as_str());
            assert(out@ =~= head + ("\n"@ + expr_tree_text(lhs@, below@, false) + expr_tree_text(
                rhs@,
                below@,
                true,
            )));
        },
        BoundExpr::ParenthesizedExpression { expr: inner } => {
            assert(expr@->ParenthesizedExpression_expr == Box::new(inner@));
            out.append("\n");
            let inside = print_expr(&**inner, below.as_str(), true);
            out.append(inside.as_str());
            assert(out@ =~= head + ("\n"@ + expr_tree_text(inner@, below@, true)));
        },
        BoundExpr::BoundPrint { expr: inner, .. } => {
            assert(expr@->BoundPrint_expr == Box::new(inner@));
            out.append("\n");
            let empty = String::new();
            let inside = print_expr(&**inner, empty.as_str(), is_last);
            out.append(inside.as_str());
            assert(out@ =~= head + ("\n"@ + expr_tree_text(inner@, Seq::empty(), is_last)));
        },
        BoundExpr::BoundDeclaration { identifier, rhs, .. } => {
            assert(expr@->BoundDeclaration_rhs == Box::new(rhs@));
            out.append("\n");
            out.append(below.as_str());
            let name = red_text(identifier.as_str());
            out.append(name.as_str());
            out.append("\n");
            let value = print_expr(&**rhs, below.as_str(), is_last);
            out.append(value.as_str());
            assert(out@ =~= head + ("\n"@ + below@ + red_text_spec(identifier@) + "\n"@
                + expr_tree_text(rhs@, below@, is_last)));
        },
    }
    out
}

/// Renders a tree-like view of the passed program.
pub fn print_program(prog: &BoundProgram) -> (out: String)
    ensures
        out@ == program_tree_text(prog@),
{
    let BoundProgram::Body { stmts } = prog;
    let mut out = String::new();
    let mut i: usize = 0;
    assert(prog@.take(0) =~= Seq::<BoundExprView>::empty());
    while i < stmts.len()
        invariant
            i <= stmts.len(),
            prog@ == crate::bind::bound_ast::bound_statements_view(stmts@),
            out@ == program_tree_text(prog@.take(i as int)),
        decreases stmts.len() - i,
    {
        let BoundStatement::BoundExpr { expr } = &stmts[i];
        proof {
            assert(prog@.take(i + 1).drop_last() =~= prog@.take(i as int));
            assert(prog@.take(i + 1).last() == expr@);
        }
        let empty = String::new();
        let tree = print_expr(expr, empty.as_str(), true);
        out.append(tree.as_str());
        i += 1;
    }
    assert(prog@.take(i as int) =~= prog@);
    out
}

} // verus!
