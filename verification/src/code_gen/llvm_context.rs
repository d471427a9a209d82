//! The instruction-level data that the code generator works on.

use vstd::prelude::*;
use vstd::string::*;

use crate::text::{i32_to_decimal, int_decimal};

verus! {

/// How a global is reachable from outside the module.
#[derive(Clone, Copy, Debug, PartialEq, Eq, Structural)]
pub enum AccessModifier {
    Global,
    Private,
}

impl AccessModifier {
    /// The modifier as module text spells it.
    pub open spec fn text_spec(self) -> Seq<char> {
        match self {
            AccessModifier::Global => "global"@,
            AccessModifier::Private => "private"@,
        }
    }

    /// The modifier as module text spells it: `global` or `private`.
    pub fn text(&self) -> (s: &'static str)
        ensures
            s@ == self.text_spec(),
    {
        match self {
            AccessModifier::Global => "global",
            AccessModifier::Private => "private",
        }
    }
}

/// An array type: `count` elements of one type.
#[derive(Debug, PartialEq, Eq)]
pub struct Array {
    pub count: i32,
    pub value_type: Box<LLVMType>,
}

impl Array {
    pub fn new(count: i32, value_type: Box<LLVMType>) -> (array: Self)
        ensures
            array == (Array { count, value_type }),
    {
        Self { count, value_type }
    }
}

/// A type of the target's instruction language.
#[derive(Debug, PartialEq, Eq)]
pub enum LLVMType {
    I8Ptr,
    I32Ptr,
    I8,
    I32,
    Array(Array),
}

impl Clone for LLVMType {
    fn clone(&self) -> (res: Self)
        ensures
            res == *self,
        decreases self,
    {
        match self {
            LLVMType::I8Ptr => LLVMType::I8Ptr,
            LLVMType::I32Ptr => LLVMType::I32Ptr,
            LLVMType::I8 => LLVMType::I8,
            LLVMType::I32 => LLVMType::I32,
            LLVMType::Array(array) => LLVMType::Array(
                Array { count: array.count, value_type: Box::new((*array.value_type).clone()) },
            ),
        }
    }
}

impl Clone for Array {
    fn clone(&self) -> (res: Self)
        ensures
            res == *self,
    {
        Array { count: self.count, value_type: Box::new((*self.value_type).clone()) }
    }
}

impl LLVMType {
    /// The type as module text spells it: `i8*`, `i32*`, `i8`, `i32`, or
    /// `[<count> x <element type>]` for an array.
    pub open spec fn text_spec(self) -> Seq<char>
        decreases self,
    {
        match self {
            LLVMType::I8Ptr => "i8*"@,
            LLVMType::I32Ptr => "i32*"@,
            LLVMType::I8 => "i8"@,
            LLVMType::I32 => "i32"@,
            LLVMType::Array(array) => "["@ + int_decimal(array.count as int) + " x "@
                + array.value_type.text_spec() + "]"@,
        }
    }

    /// Renders the type as module text.
    pub fn text(&self) -> (s: String)
        ensures
            s@ == self.text_spec(),
        decreases self,
    {
        match self {
            LLVMType::I8Ptr => String::from_str("i8*"),
            LLVMType::I32Ptr => String::from_str("i32*"),
            LLVMType::I8 => String::from_str("i8"),
            LLVMType::I32 => String::from_str("i32"),
            LLVMType::Array(array) => {
                let mut s = String::from_str("[");
                let count = i32_to_decimal(array.count);
                s.append(count.as_str());
                s.append(" x ");
                let element = (*array.value_type).text();
                s.append(element.as_str());
                s.append("]");
                s
            },
        }
    }

    /// Tells whether this is the 32-bit integer type.
    pub fn is_i32(&self) -> (b: bool)
        ensures
            b == (*self is I32),
    {
        match self {
            LLVMType::I32 => true,
            _ => false,
        }
    }
}

/// The declaration of a routine that takes a variable number of arguments.
#[derive(Clone, Debug, PartialEq, Eq)]
pub struct VarArgFunction {
    pub out_type: LLVMType,
    pub name: String,
    pub in_types: Vec<LLVMType>,
}

/// What a `VarArgFunction` means.
pub struct VarArgFunctionView {
    pub out_type: LLVMType,
    pub name: Seq<char>,
    pub in_types: Seq<LLVMType>,
}

impl View for VarArgFunction {
    type V = VarArgFunctionView;

    open spec fn view(&self) -> VarArgFunctionView {
        VarArgFunctionView { out_type: self.out_type, name: self.name@, in_types: self.in_types@ }
    }
}

/// The declaration of the formatted-output routine: it returns an `i32` and
/// takes a pointer to the format's bytes, then any number of arguments.
pub open spec fn printf_spec() -> VarArgFunctionView {
    VarArgFunctionView { out_type: LLVMType::I32, name: "printf"@, in_types: seq![LLVMType::I8Ptr] }
}

impl VarArgFunction {
    pub fn new(out_type: LLVMType, name: String, in_types: Vec<LLVMType>) -> (function: Self)
        ensures
            function@ == (VarArgFunctionView { out_type, name: name@, in_types: in_types@ }),
    {
        Self { out_type, name, in_types }
    }

    /// The declaration of the formatted-output routine.
    pub fn printf() -> (function: Self)
        ensures
            function@ == printf_spec(),
    {
        let mut in_types: Vec<LLVMType> = Vec::new();
        in_types.push(LLVMType::I8Ptr);
        assert(in_types@ =~= seq![LLVMType::I8Ptr]);
        Self { out_type: LLVMType::I32, name: String::from_str("printf"), in_types }
    }
}

/// The declaration of a module-level variable or constant.
#[derive(Clone, Debug, PartialEq, Eq)]
pub struct GlobalVariable {
    pub name: String,
    pub access: AccessModifier,
    pub is_constant: bool,
    pub value_type: LLVMType,
    pub value: String,
}

/// What a `GlobalVariable` means.
pub struct GlobalVariableView {
    pub name: Seq<char>,
    pub access: AccessModifier,
    pub is_constant: bool,
    pub value_type: LLVMType,
    pub value: Seq<char>,
}

impl View for GlobalVariable {
    type V = GlobalVariableView;

    open spec fn view(&self) -> GlobalVariableView {
        GlobalVariableView {
            name: self.name@,
            access: self.access,
            is_constant: self.is_constant,
            value_type: self.value_type,
            value: self.value@,
        }
    }
}

/// The constant that holds the format for printing a decimal number: the
/// three bytes `%d` and a terminating zero, private to the module.
pub open spec fn format_num_spec() -> GlobalVariableView {
    GlobalVariableView {
        name: "format_num"@,
        access: AccessModifier::Private,
        is_constant: true,
        value_type: LLVMType::Array(Array { count: 3, value_type: Box::new(LLVMType::I8) }),
        value: "c\"%d\\00\""@,
    }
}

impl GlobalVariable {
    pub fn new(
        name: String,
        access: AccessModifier,
        is_constant: bool,
        value_type: LLVMType,
        value: String,
    ) -> (variable: Self)
        ensures
            variable@ == (GlobalVariableView {
                name: name@,
                access,
                is_constant,
                value_type,
                value: value@,
            }),
    {
        Self { name, access, is_constant, value_type, value }
    }

    /// The constant that holds the format for printing a decimal number.
    pub fn format_num() -> (variable: Self)
        ensures
            variable@ == format_num_spec(),
    {
        Self {
            name: String::from_str("format_num"),
            access: AccessModifier::Private,
            is_constant: true,
            value_type: LLVMType::Array(Array { count: 3, value_type: Box::new(LLVMType::I8) }),
            value: String::from_str("c\"%d\\00\""),
        }
    }
}

/// The declaration of a variable of the main function.
#[derive(Clone, Debug, PartialEq, Eq)]
pub struct LocalVariable {
    pub name: String,
    pub value_type: LLVMType,
    pub value: String,
}

/// What a `LocalVariable` means.
pub struct LocalVariableView {
    pub name: Seq<char>,
    pub value_type: LLVMType,
    pub value: Seq<char>,
}

impl View for LocalVariable {
    type V = LocalVariableView;

    open spec fn view(&self) -> LocalVariableView {
        LocalVariableView { name: self.name@, value_type: self.value_type, value: self.value@ }
    }
}

impl LocalVariable {
    pub fn new(name: String, value_type: LLVMType, value: String) -> (variable: Self)
        ensures
            variable@ == (LocalVariableView { name: name@, value_type, value: value@ }),
    {
        Self { name, value_type, value }
    }
}

/// One instruction of the module: a declaration at module level, or a step
/// of the main function.
#[derive(Clone, Debug, PartialEq, Eq)]
pub enum Instruction {
    VarArgFunctionDeclaration(VarArgFunction),
    PrintNumber(String),
    GlobalVariableDeclaration(GlobalVariable),
    LocalVariableDeclaration(LocalVariable),
    ReturnOk,
}

/// What an `Instruction` means.
pub enum InstructionView {
    VarArgFunctionDeclaration(VarArgFunctionView),
    PrintNumber(Seq<char>),
    GlobalVariableDeclaration(GlobalVariableView),
    LocalVariableDeclaration(LocalVariableView),
    ReturnOk,
}

impl View for Instruction {
    type V = InstructionView;

    open spec fn view(&self) -> InstructionView {
        match self {
            Instruction::VarArgFunctionDeclaration(function) => {
                InstructionView::VarArgFunctionDeclaration(function@)
            },
            Instruction::PrintNumber(operand) => InstructionView::PrintNumber(operand@),
            Instruction::GlobalVariableDeclaration(variable) => {
                InstructionView::GlobalVariableDeclaration(variable@)
            },
            Instruction::LocalVariableDeclaration(variable) => {
                InstructionView::LocalVariableDeclaration(variable@)
            },
            Instruction::ReturnOk => InstructionView::ReturnOk,
        }
    }
}

/// The instructions of a stream, each as what it means.
pub open spec fn instructions_view(stream: Seq<Instruction>) -> Seq<InstructionView> {
    stream.map_values(|i: Instruction| i@)
}

/// A named value of the main function.
#[derive(Debug, PartialEq, Eq)]
pub struct Variable {
    pub identifier: String,
    pub value_type: LLVMType,
    pub rhs: LLVMStatement,
}

/// A lowered expression.
#[derive(Debug, PartialEq, Eq)]
pub enum LLVMStatement {
    I32Literal(i32),
    Addition(Box<LLVMStatement>, Box<LLVMStatement>),
    VariableDeclaration(Box<Variable>),
    Print { expr_type: LLVMType, expr: Box<LLVMStatement> },
}

/// What an `LLVMStatement` means: the same tree with every name as a
/// sequence of characters.
pub enum LLVMStatementView {
    I32Literal(i32),
    Addition(Box<LLVMStatementView>, Box<LLVMStatementView>),
    VariableDeclaration { identifier: Seq<char>, value_type: LLVMType, rhs: Box<LLVMStatementView> },
    Print { expr_type: LLVMType, expr: Box<LLVMStatementView> },
}

impl View for LLVMStatement {
    type V = LLVMStatementView;

    open spec fn view(&self) -> LLVMStatementView
        decreases self,
    {
        match self {
            LLVMStatement::I32Literal(n) => LLVMStatementView::I32Literal(*n),
            LLVMStatement::Addition(lhs, rhs) => LLVMStatementView::Addition(
                Box::new((**lhs).view()),
                Box::new((**rhs).view()),
            ),
            LLVMStatement::VariableDeclaration(variable) => LLVMStatementView::VariableDeclaration {
                identifier: variable.identifier@,
                value_type: variable.value_type,
                rhs: Box::new(variable.rhs.view()),
            },
            LLVMStatement::Print { expr_type, expr } => LLVMStatementView::Print {
                expr_type: *expr_type,
                expr: Box::new((**expr).view()),
            },
        }
    }
}

impl Clone for LLVMStatement {
    fn clone(&self) -> (res: Self)
        ensures
            res@ == self@,
        decreases self,
    {
        match self {
            LLVMStatement::I32Literal(n) => LLVMStatement::I32Literal(*n),
            LLVMStatement::Addition(lhs, rhs) => LLVMStatement::Addition(
                Box::new((**lhs).clone()),
                Box::new((**rhs).clone()),
            ),
            LLVMStatement::VariableDeclaration(variable) => LLVMStatement::VariableDeclaration(
                Box::new(
                    Variable {
                        identifier: variable.identifier.clone(),
                        value_type: variable.value_type.clone(),
                        rhs: variable.rhs.clone(),
                    },
                ),
            ),
            LLVMStatement::Print { expr_type, expr } => LLVMStatement::Print {
                expr_type: expr_type.clone(),
                expr: Box::new((**expr).clone()),
            },
        }
    }
}

impl Clone for Variable {
    fn clone(&self) -> (res: Self)
        ensures
            res.identifier@ == self.identifier@,
            res.value_type == self.value_type,
            res.rhs@ == self.rhs@,
    {
        Variable {
            identifier: self.identifier.clone(),
            value_type: self.value_type.clone(),
            rhs: self.rhs.clone(),
        }
    }
}

} // verus!
