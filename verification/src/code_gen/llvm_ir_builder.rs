//! Rendering of lowered expressions and instruction streams as module text.

use vstd::prelude::*;
use vstd::string::*;

use crate::code_gen::llvm_context::{
    instructions_view, Instruction, InstructionView, LLVMStatement, LLVMStatementView,
};
use crate::text::{i32_to_decimal, indent, indent_text, int_decimal};

verus! {

/// Whether a lowered expression can stand as an operand: it is an integer
/// literal or a variable.
pub open spec fn numeric_renderable(expr: LLVMStatementView) -> bool {
    expr is I32Literal || expr is VariableDeclaration
}

/// An operand as text: a bare decimal literal, or `%` and the variable's
/// name.
pub open spec fn numeric_text(expr: LLVMStatementView) -> Seq<char>
    recommends
        numeric_renderable(expr),
{
    match expr {
        LLVMStatementView::I32Literal(n) => int_decimal(n as int),
        LLVMStatementView::VariableDeclaration { identifier, .. } => "%"@ + identifier,
        _ => arbitrary(),
    }
}

/// Whether a lowered expression has a rendering: it is an integer literal, a
/// variable, or an addition of two operands.
pub open spec fn statement_renderable(expr: LLVMStatementView) -> bool {
    match expr {
        LLVMStatementView::I32Literal(_) => true,
        LLVMStatementView::Addition(lhs, rhs) => numeric_renderable(*lhs) && numeric_renderable(
            *rhs,
        ),
        LLVMStatementView::VariableDeclaration { .. } => true,
        LLVMStatementView::Print { .. } => false,
    }
}

/// A lowered expression as text: an integer literal is materialised by
/// adding zero to it, an addition adds its two operands, and a variable is
/// its name.
pub open spec fn statement_text(expr: LLVMStatementView) -> Seq<char>
    recommends
        statement_renderable(expr),
{
    match expr {
        LLVMStatementView::I32Literal(n) => "add i32 "@ + int_decimal(n as int) + ", 0"@,
        LLVMStatementView::Addition(lhs, rhs) => "add i32 "@ + numeric_text(*lhs) + ", "@
            + numeric_text(*rhs),
        LLVMStatementView::VariableDeclaration { identifier, .. } => identifier,
        LLVMStatementView::Print { .. } => arbitrary(),
    }
}

/// Whether an instruction can stand at module level: it declares a routine
/// with at least one fixed parameter, or a global.
pub open spec fn global_instruction(instruction: InstructionView) -> bool {
    match instruction {
        InstructionView::VarArgFunctionDeclaration(function) => function.in_types.len() > 0,
        InstructionView::GlobalVariableDeclaration(_) => true,
        _ => false,
    }
}

/// The line of a module-level instruction.
pub open spec fn global_instruction_text(instruction: InstructionView) -> Seq<char>
    recommends
        global_instruction(instruction),
{
    match instruction {
        InstructionView::VarArgFunctionDeclaration(function) => "declare "@
            + function.out_type.text_spec() + " @"@ + function.name + "("@
            + function.in_types[0].text_spec() + ", ...)\n"@,
        InstructionView::GlobalVariableDeclaration(variable) => "@"@ + variable.name + " = "@
            + variable.access.text_spec() + " "@ + (if variable.is_constant {
            "constant"@
        } else {
            ""@
        }) + " "@ + variable.value_type.text_spec() + " "@ + variable.value + "\n"@,
        _ => arbitrary(),
    }
}

/// Whether an instruction can stand in the main function: it prints a
/// number, declares a 32-bit integer variable, or returns.
pub open spec fn main_instruction(instruction: InstructionView) -> bool {
    match instruction {
        InstructionView::PrintNumber(_) => true,
        InstructionView::LocalVariableDeclaration(variable) => variable.value_type is I32,
        InstructionView::ReturnOk => true,
        _ => false,
    }
}

/// The text of an instruction of the main function, before indentation.
pub open spec fn main_instruction_text(instruction: InstructionView) -> Seq<char>
    recommends
        main_instruction(instruction),
{
    match instruction {
        InstructionView::PrintNumber(operand) =>
            "call i32 (i8*, ...) @printf(i8* getelementptr inbounds ([3 x i8], [3 x i8]* @format_num, i32 0, i32 0), i32 "@
            + operand + ")\n"@,
        InstructionView::LocalVariableDeclaration(variable) => "%"@ + variable.name + " = "@
            + variable.value + "\n"@,
        InstructionView::ReturnOk => "ret i32 0"@,
        _ => arbitrary(),
    }
}

/// Whether every instruction of a stream can stand at module level.
pub open spec fn global_stream(stream: Seq<InstructionView>) -> bool {
    forall|i: int| 0 <= i < stream.len() ==> global_instruction(#[trigger] stream[i])
}

/// Whether every instruction of a stream can stand in the main function.
pub open spec fn main_stream(stream: Seq<InstructionView>) -> bool {
    forall|i: int| 0 <= i < stream.len() ==> main_instruction(#[trigger] stream[i])
}

/// The module-level section: the lines of its instructions in order.
pub open spec fn global_text(stream: Seq<InstructionView>) -> Seq<char>
    decreases stream.len(),
{
    if stream.len() == 0 {
        Seq::empty()
    } else {
        global_text(stream.drop_last()) + global_instruction_text(stream.last())
    }
}

/// The body of the main function before indentation: the opening line,
/// then the text of its instructions in order.
pub open spec fn main_body_text(stream: Seq<InstructionView>) -> Seq<char>
    decreases stream.len(),
{
    if stream.len() == 0 {
        "define i32 @main() {\n"@
    } else {
        main_body_text(stream.drop_last()) + main_instruction_text(stream.last())
    }
}

/// The main function: its body with every line after the first indented by
/// two spaces, closed by a brace on a line of its own.
pub open spec fn main_text(stream: Seq<InstructionView>) -> Seq<char> {
    indent_text(main_body_text(stream)) + "\n}\n"@
}

/// Tells whether a lowered expression can stand as an operand.
pub fn is_numeric_renderable(expr: &LLVMStatement) -> (ok: bool)
    ensures
        ok == numeric_renderable(expr@),
{
    match expr {
        LLVMStatement::I32Literal(_) => true,
        LLVMStatement::VariableDeclaration(_) => true,
        _ => false,
    }
}

/// Tells whether a lowered expression has a rendering.
pub fn is_statement_renderable(expr: &LLVMStatement) -> (ok: bool)
    ensures
        ok == statement_renderable(expr@),
{
    match expr {
        LLVMStatement::I32Literal(_) => true,
        LLVMStatement::Addition(lhs, rhs) => {
            assert(expr@ == LLVMStatementView::Addition(Box::new(lhs@), Box::new(rhs@)));
            is_numeric_renderable(&**lhs) && is_numeric_renderable(&**rhs)
        },
        LLVMStatement::VariableDeclaration(_) => true,
        LLVMStatement::Print { .. } => false,
    }
}

/// Stringifies a numeric statement.
pub fn stringify_llvm_numeric(expr: &LLVMStatement) -> (s: String)
    requires
        numeric_renderable(expr@),
    ensures
        s@ == numeric_text(expr@),
{
    match expr {
        LLVMStatement::I32Literal(n) => i32_to_decimal(*n),
        LLVMStatement::VariableDeclaration(variable) => {
            let mut s = String::from_str("%");
            s.append(variable.identifier.as_str());
            s
        },
        _ => vstd::pervasive::unreached(),
    }
}

/// Stringifies a statement.
pub fn stringify_llvm_statement(expr: &LLVMStatement) -> (s: String)
    requires
        statement_renderable(expr@),
    ensures
        s@ == statement_text(expr@),
{
    match expr {
        LLVMStatement::I32Literal(n) => {
            let mut s = String::from_str("add i32 ");
            let digits = i32_to_decimal(*n);
            s.append(digits.as_str());
            s.append(", 0");
            s
        },
        LLVMStatement::Addition(lhs, rhs) => {
            assert(expr@ == LLVMStatementView::Addition(Box::new(lhs@), Box::new(rhs@)));
            let mut s = String::from_str("add i32 ");
            let left = stringify_llvm_numeric(&**lhs);
            s.append(left.as_str());
            s.append(", ");
            let right = stringify_llvm_numeric(&**rhs);
            s.append(right.as_str());
            s
        },
        LLVMStatement::VariableDeclaration(variable) => variable.identifier.clone(),
        LLVMStatement::Print { .. } => vstd::pervasive::unreached(),
    }
}

/// Renders one module-level instruction as its line.
fn global_instruction_line(instruction: &Instruction) -> (s: String)
    requires
        global_instruction(instruction@),
    ensures
        s@ == global_instruction_text(instruction@),
{
    match instruction {
        Instruction::VarArgFunctionDeclaration(function) => {
            let mut s = String::from_str("declare ");
            let out_type = function.out_type.text();
            s.append(out_type.as_str());
            s.append(" @");
            s.append(function.name.as_str());
            s.append("(");
            let in_type = function.in_types[0].text();
            s.append(in_type.as_str());
            s.append(", ...)\n");
            s
        },
        Instruction::GlobalVariableDeclaration(variable) => {
            let mut s = String::from_str("@");
            s.append(variable.name.as_str());
            s.append(" = ");
            s.append(variable.access.text());
            s.append(" ");
            s.append(if variable.is_constant { "constant" } else { "" });
            s.append(" ");
            let value_type = variable.value_type.text();
            s.append(value_type.as_str());
            s.append(" ");
            s.append(variable.value.as_str());
            s.append("\n");
            s
        },
        _ => vstd::pervasive::unreached(),
    }
}

/// Renders one instruction of the main function, before indentation.
fn main_instruction_line(instruction: &Instruction) -> (s: String)
    requires
        main_instruction(instruction@),
    ensures
        s@ == main_instruction_text(instruction@),
{
    match instruction {
        Instruction::PrintNumber(operand) => {
            let mut s = String::from_str(
                "call i32 (i8*, ...) @printf(i8* getelementptr inbounds ([3 x i8], [3 x i8]* @format_num, i32 0, i32 0), i32 ",
            );
            s.append(operand.as_str());
            s.append(")\n");
            s
        },
        Instruction::LocalVariableDeclaration(variable) => {
            let mut s = String::from_str("%");
            s.append(variable.name.as_str());
            s.append(" = ");
            s.append(variable.value.as_str());
            s.append("\n");
            s
        },
        Instruction::ReturnOk => String::from_str("ret i32 0"),
        _ => vstd::pervasive::unreached(),
    }
}

/// Returns the texts of the module-level section and of the main function.
pub fn stringify_instructions(
    global_instructions: &Vec<Instruction>,
    main_instructions: &Vec<Instruction>,
) -> (res: Result<(String, String), String>)
    requires
        global_stream(instructions_view(global_instructions@)),
        main_stream(instructions_view(main_instructions@)),
    ensures
        res is Ok,
        res->Ok_0.0@ == global_text(instructions_view(global_instructions@)),
        res->Ok_0.1@ == main_text(instructions_view(main_instructions@)),
{
    let ghost globals = instructions_view(global_instructions@);
    let ghost mains = instructions_view(main_instructions@);
    let mut global = String::new();
    let mut main = String::from_str("define i32 @main() {\n");

    let mut i: usize = 0;
    assert(globals.take(0) =~= Seq::<InstructionView>::empty());
    while i < global_instructions.len()
        invariant
            i <= global_instructions.len(),
            globals == instructions_view(global_instructions@),
            global_stream(globals),
            global@ == global_text(globals.take(i as int)),
        decreases global_instructions.len() - i,
    {
        proof {
            assert(globals.take(i + 1).drop_last() =~= globals.take(i as int));
            assert(globals.take(i + 1).last() == global_instructions[i as int]@);
            assert(global_instruction(globals[i as int]));
        }
        let line = global_instruction_line(&global_instructions[i]);
        global.append(line.as_str());
        i += 1;
    }
    assert(globals.take(i as int) =~= globals);

    let mut j: usize = 0;
    assert(mains.take(0) =~= Seq::<InstructionView>::empty());
    while j < main_instructions.len()
        invariant
            j <= main_instructions.len(),
            mains == instructions_view(main_instructions@),
            main_stream(mains),
            main@ == main_body_text(mains.take(j as int)),
        decreases main_instructions.len() - j,
    {
        proof {
            assert(mains.take(j + 1).drop_last() =~= mains.take(j as int));
            assert(mains.take(j + 1).last() == main_instructions[j as int]@);
            assert(main_instruction(mains[j as int]));
        }
        let line = main_instruction_line(&main_instructions[j]);
        main.append(line.as_str());
        j += 1;
    }
    assert(mains.take(j as int) =~= mains);

    let mut main = indent(main.as_str());
    main.append("\n}\n");
    Ok((global, main))
}

} // verus!
