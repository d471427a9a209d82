//! The syntax tree that the binder consumes.

use vstd::prelude::*;

verus! {

/// A half-open range `[start, end)` of byte offsets into the source text.
#[derive(Clone, Copy, Debug, PartialEq, Eq, Structural)]
pub struct SourcePos {
    pub start: usize,
    pub end: usize,
}

/// A binary operator together with the place where it was written.
#[derive(Clone, Copy, Debug, PartialEq, Eq, Structural)]
pub enum BinaryOp {
    Add { source_pos: SourcePos },
    Sub { source_pos: SourcePos },
    Mul { source_pos: SourcePos },
    Div { source_pos: SourcePos },
    And { source_pos: SourcePos },
    Or { source_pos: SourcePos },
}

/// A name as written in the source.
#[derive(Debug, PartialEq, Eq)]
pub struct Identifier {
    pub text: String,
    pub source_pos: SourcePos,
}

/// What an `Identifier` means: its characters and its place.
pub struct IdentifierView {
    pub text: Seq<char>,
    pub source_pos: SourcePos,
}

impl View for Identifier {
    type V = IdentifierView;

    open spec fn view(&self) -> IdentifierView {
        IdentifierView { text: self.text@, source_pos: self.source_pos }
    }
}

impl Clone for Identifier {
    fn clone(&self) -> (res: Self)
        ensures
            res@ == self@,
    {
        Identifier { text: self.text.clone(), source_pos: self.source_pos }
    }
}

/// An expression of the source language.
#[derive(Debug, PartialEq, Eq)]
pub enum Expr {
    Int { n: i32, source_pos: SourcePos },
    Bool { b: bool, source_pos: SourcePos },
    String { text: String, source_pos: SourcePos },
    Identifier(Identifier),
    BinaryOp { op: BinaryOp, lhs: Box<Expr>, rhs: Box<Expr> },
    ParenthesizedExpression { expr: Box<Expr> },
    Print { expr: Box<Expr> },
}

/// What an `Expr` means: the same tree with every text as a sequence of
/// characters.
pub enum ExprView {
    Int { n: i32, source_pos: SourcePos },
    Bool { b: bool, source_pos: SourcePos },
    String { text: Seq<char>, source_pos: SourcePos },
    Identifier(IdentifierView),
    BinaryOp { op: BinaryOp, lhs: Box<ExprView>, rhs: Box<ExprView> },
    ParenthesizedExpression { expr: Box<ExprView> },
    Print { expr: Box<ExprView> },
}

impl View for Expr {
    type V = ExprView;

    open spec fn view(&self) -> ExprView
        decreases self,
    {
        match self {
            Expr::Int { n, source_pos } => ExprView::Int { n: *n, source_pos: *source_pos },
            Expr::Bool { b, source_pos } => ExprView::Bool { b: *b, source_pos: *source_pos },
            Expr::String { text, source_pos } => ExprView::String {
                text: text@,
                source_pos: *source_pos,
            },
            Expr::Identifier(identifier) => ExprView::Identifier(identifier@),
            Expr::BinaryOp { op, lhs, rhs } => ExprView::BinaryOp {
                op: *op,
                lhs: Box::new((**lhs).view()),
                rhs: Box::new((**rhs).view()),
            },
            Expr::ParenthesizedExpression { expr } => ExprView::ParenthesizedExpression {
                expr: Box::new((**expr).view()),
            },
            Expr::Print { expr } => ExprView::Print { expr: Box::new((**expr).view()) },
        }
    }
}

impl Clone for Expr {
    fn clone(&self) -> (res: Self)
        ensures
            res@ == self@,
        decreases self,
    {
        match self {
            Expr::Int { n, source_pos } => Expr::Int { n: *n, source_pos: *source_pos },
            Expr::Bool { b, source_pos } => Expr::Bool { b: *b, source_pos: *source_pos },
            Expr::String { text, source_pos } => Expr::String {
                text: text.clone(),
                source_pos: *source_pos,
            },
            Expr::Identifier(identifier) => Expr::Identifier(identifier.clone()),
            Expr::BinaryOp { op, lhs, rhs } => Expr::BinaryOp {
                op: *op,
                lhs: Box::new((**lhs).clone()),
                rhs: Box::new((**rhs).clone()),
            },
            Expr::ParenthesizedExpression { expr } => Expr::ParenthesizedExpression {
                expr: Box::new((**expr).clone()),
            },
            Expr::Print { expr } => Expr::Print { expr: Box::new((**expr).clone()) },
        }
    }
}

/// A statement: a bare expression, or the declaration of a new variable.
#[derive(Clone, Debug, PartialEq, Eq)]
pub enum Statement {
    Expr { expr: Expr },
    Declare { identifier: Identifier, rhs: Expr },
}

/// What a `Statement` means.
pub enum StatementView {
    Expr { expr: ExprView },
    Declare { identifier: IdentifierView, rhs: ExprView },
}

impl View for Statement {
    type V = StatementView;

    open spec fn view(&self) -> StatementView {
        match self {
            Statement::Expr { expr } => StatementView::Expr { expr: expr@ },
            Statement::Declare { identifier, rhs } => StatementView::Declare {
                identifier: identifier@,
                rhs: rhs@,
            },
        }
    }
}

/// The statements of a sequence, each as what it means.
pub open spec fn statements_view(stmts: Seq<Statement>) -> Seq<StatementView> {
    stmts.map_values(|s: Statement| s@)
}

/// A whole program: its statements in source order.
#[derive(Clone, Debug, PartialEq, Eq)]
pub enum Program {
    Body { stmts: Vec<Statement> },
}

impl View for Program {
    type V = Seq<StatementView>;

    open spec fn view(&self) -> Seq<StatementView> {
        match self {
            Program::Body { stmts } => statements_view(stmts@),
        }
    }
}

impl SourcePos {
    /// A span is well formed when it does not end before it starts.
    pub open spec fn wf(self) -> bool {
        self.start <= self.end
    }
}

impl BinaryOp {
    /// The place where the operator was written.
    pub open spec fn source_pos(self) -> SourcePos {
        match self {
            BinaryOp::Add { source_pos } => source_pos,
            BinaryOp::Sub { source_pos } => source_pos,
            BinaryOp::Mul { source_pos } => source_pos,
            BinaryOp::Div { source_pos } => source_pos,
            BinaryOp::And { source_pos } => source_pos,
            BinaryOp::Or { source_pos } => source_pos,
        }
    }

    /// The operator's lower-case name, as diagnostics spell it.
    pub open spec fn name_text(self) -> Seq<char> {
        match self {
            BinaryOp::Add { .. } => "add"@,
            BinaryOp::Sub { .. } => "sub"@,
            BinaryOp::Mul { .. } => "mul"@,
            BinaryOp::Div { .. } => "div"@,
            BinaryOp::And { .. } => "and"@,
            BinaryOp::Or { .. } => "or"@,
        }
    }

    /// The operator's name: `add`, `sub`, `mul`, `div`, `and` or `or`.
    pub fn name(&self) -> (s: &'static str)
        ensures
            s@ == self.name_text(),
    {
        match self {
            BinaryOp::Add { .. } => "add",
            BinaryOp::Sub { .. } => "sub",
            BinaryOp::Mul { .. } => "mul",
            BinaryOp::Div { .. } => "div",
            BinaryOp::And { .. } => "and",
            BinaryOp::Or { .. } => "or",
        }
    }
}

} // verus!
