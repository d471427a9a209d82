//! The typed tree that binding produces, and the diagnostics it reports.

use vstd::prelude::*;

use crate::ast::{BinaryOp, SourcePos};

verus! {

/// The static type of a bound expression.
#[derive(Clone, Copy, Debug, PartialEq, Eq, Structural)]
pub enum Type {
    Int,
    Bool,
    String,
}

impl Type {
    /// The type's name as diagnostics spell it.
    pub open spec fn name_text(self) -> Seq<char> {
        match self {
            Type::Int => "Int"@,
            Type::Bool => "Bool"@,
            Type::String => "String"@,
        }
    }

    /// The type's name: `Int`, `Bool` or `String`.
    pub fn name(&self) -> (s: &'static str)
        ensures
            s@ == self.name_text(),
    {
        match self {
            Type::Int => "Int",
            Type::Bool => "Bool",
            Type::String => "String",
        }
    }
}

/// A binary operator of the typed tree.
#[derive(Clone, Copy, Debug, PartialEq, Eq, Structural)]
pub enum BoundBinaryOp {
    Add,
    Sub,
    Mul,
    Div,
    And,
    Or,
}

/// The typed operator that a syntactic operator stands for.
pub open spec fn bound_op_of(op: BinaryOp) -> BoundBinaryOp {
    match op {
        BinaryOp::Add { .. } => BoundBinaryOp::Add,
        BinaryOp::Sub { .. } => BoundBinaryOp::Sub,
        BinaryOp::Mul { .. } => BoundBinaryOp::Mul,
        BinaryOp::Div { .. } => BoundBinaryOp::Div,
        BinaryOp::And { .. } => BoundBinaryOp::And,
        BinaryOp::Or { .. } => BoundBinaryOp::Or,
    }
}

/// Drops the source position of an operator and keeps which operator it is.
pub fn binary_to_bound_binary_op(op: BinaryOp) -> (bound: BoundBinaryOp)
    ensures
        bound == bound_op_of(op),
{
    match op {
        BinaryOp::Add { .. } => BoundBinaryOp::Add,
        BinaryOp::Sub { .. } => BoundBinaryOp::Sub,
        BinaryOp::Mul { .. } => BoundBinaryOp::Mul,
        BinaryOp::Div { .. } => BoundBinaryOp::Div,
        BinaryOp::And { .. } => BoundBinaryOp::And,
        BinaryOp::Or { .. } => BoundBinaryOp::Or,
    }
}

/// A type-annotated expression.
#[derive(Debug, PartialEq, Eq)]
pub enum BoundExpr {
    BoundDeclaration { identifier: String, value_type: Type, rhs: Box<BoundExpr> },
    Int { n: i32 },
    Bool { b: bool },
    String { str: String },
    BoundBinaryOp { op: BoundBinaryOp, lhs: Box<BoundExpr>, rhs: Box<BoundExpr>, bin_op_type: Type },
    ParenthesizedExpression { expr: Box<BoundExpr> },
    BoundPrint { expr_type: Type, expr: Box<BoundExpr> },
}

/// What a `BoundExpr` means: the same tree with every text as a sequence of
/// characters.
pub enum BoundExprView {
    BoundDeclaration { identifier: Seq<char>, value_type: Type, rhs: Box<BoundExprView> },
    Int { n: i32 },
    Bool { b: bool },
    String { str: Seq<char> },
    BoundBinaryOp {
        op: BoundBinaryOp,
        lhs: Box<BoundExprView>,
        rhs: Box<BoundExprView>,
        bin_op_type: Type,
    },
    ParenthesizedExpression { expr: Box<BoundExprView> },
    BoundPrint { expr_type: Type, expr: Box<BoundExprView> },
}

impl BoundExprView {
    /// The static type of a bound expression, defined for every variant:
    /// a literal has its own type, a parenthesised expression that of its
    /// inside, and every other node the type stored in it.
    pub open spec fn type_of(self) -> Type
        decreases self,
    {
        match self {
            BoundExprView::Int { .. } => Type::Int,
            BoundExprView::Bool { .. } => Type::Bool,
            BoundExprView::String { .. } => Type::String,
            BoundExprView::BoundBinaryOp { bin_op_type, .. } => bin_op_type,
            BoundExprView::ParenthesizedExpression { expr } => expr.type_of(),
            BoundExprView::BoundPrint { expr_type, .. } => expr_type,
            BoundExprView::BoundDeclaration { value_type, .. } => value_type,
        }
    }
}

impl View for BoundExpr {
    type V = BoundExprView;

    open spec fn view(&self) -> BoundExprView
        decreases self,
    {
        match self {
            BoundExpr::BoundDeclaration { identifier, value_type, rhs } => {
                BoundExprView::BoundDeclaration {
                    identifier: identifier@,
                    value_type: *value_type,
                    rhs: Box::new((**rhs).view()),
                }
            },
            BoundExpr::Int { n } => BoundExprView::Int { n: *n },
            BoundExpr::Bool { b } => BoundExprView::Bool { b: *b },
            BoundExpr::String { str } => BoundExprView::String { str: str@ },
            BoundExpr::BoundBinaryOp { op, lhs, rhs, bin_op_type } => BoundExprView::BoundBinaryOp {
                op: *op,
                lhs: Box::new((**lhs).view()),
                rhs: Box::new((**rhs).view()),
                bin_op_type: *bin_op_type,
            },
            BoundExpr::ParenthesizedExpression { expr } => BoundExprView::ParenthesizedExpression {
                expr: Box::new((**expr).view()),
            },
            BoundExpr::BoundPrint { expr_type, expr } => BoundExprView::BoundPrint {
                expr_type: *expr_type,
                expr: Box::new((**expr).view()),
            },
        }
    }
}

impl Clone for BoundExpr {
    fn clone(&self) -> (res: Self)
        ensures
            res@ == self@,
        decreases self,
    {
        match self {
            BoundExpr::BoundDeclaration { identifier, value_type, rhs } => {
                BoundExpr::BoundDeclaration {
                    identifier: identifier.clone(),
                    value_type: *value_type,
                    rhs: Box::new((**rhs).clone()),
                }
            },
            BoundExpr::Int { n } => BoundExpr::Int { n: *n },
            BoundExpr::Bool { b } => BoundExpr::Bool { b: *b },
            BoundExpr::String { str } => BoundExpr::String { str: str.clone() },
            BoundExpr::BoundBinaryOp { op, lhs, rhs, bin_op_type } => BoundExpr::BoundBinaryOp {
                op: *op,
                lhs: Box::new((**lhs).clone()),
                rhs: Box::new((**rhs).clone()),
                bin_op_type: *bin_op_type,
            },
            BoundExpr::ParenthesizedExpression { expr } => BoundExpr::ParenthesizedExpression {
                expr: Box::new((**expr).clone()),
            },
            BoundExpr::BoundPrint { expr_type, expr } => BoundExpr::BoundPrint {
                expr_type: *expr_type,
                expr: Box::new((**expr).clone()),
            },
        }
    }
}

/// A statement of the typed tree: one bound expression.
#[derive(Clone, Debug, PartialEq, Eq)]
pub enum BoundStatement {
    BoundExpr { expr: BoundExpr },
}

impl View for BoundStatement {
    type V = BoundExprView;

    open spec fn view(&self) -> BoundExprView {
        match self {
            BoundStatement::BoundExpr { expr } => expr@,
        }
    }
}

/// The statements of a sequence, each as the bound expression it wraps.
pub open spec fn bound_statements_view(stmts: Seq<BoundStatement>) -> Seq<BoundExprView> {
    stmts.map_values(|s: BoundStatement| s@)
}

/// A bound program: its statements in source order.
#[derive(Clone, Debug, PartialEq, Eq)]
pub enum BoundProgram {
    Body { stmts: Vec<BoundStatement> },
}

impl View for BoundProgram {
    type V = Seq<BoundExprView>;

    open spec fn view(&self) -> Seq<BoundExprView> {
        match self {
            BoundProgram::Body { stmts } => bound_statements_view(stmts@),
        }
    }
}

/// A diagnostic: a message and the span of source it is about.
#[derive(Clone, Debug, PartialEq, Eq)]
pub struct TypeError {
    pub msg: String,
    pub source_pos: SourcePos,
}

/// What a `TypeError` means.
pub struct TypeErrorView {
    pub msg: Seq<char>,
    pub source_pos: SourcePos,
}

impl View for TypeError {
    type V = TypeErrorView;

    open spec fn view(&self) -> TypeErrorView {
        TypeErrorView { msg: self.msg@, source_pos: self.source_pos }
    }
}

/// The diagnostics of a sequence, each as what it means.
pub open spec fn errors_view(errors: Seq<TypeError>) -> Seq<TypeErrorView> {
    errors.map_values(|e: TypeError| e@)
}

/// All diagnostics of one failed binding, in the order they were found.
#[derive(Debug)]
pub struct ProgramError {
    pub expr_errors: Vec<TypeError>,
}

impl View for ProgramError {
    type V = Seq<TypeErrorView>;

    open spec fn view(&self) -> Seq<TypeErrorView> {
        errors_view(self.expr_errors@)
    }
}

} // verus!
