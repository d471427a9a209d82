//! The code generator: lowers bound programs into two instruction streams
//! that persist over a session, and renders them as one module.

use vstd::prelude::*;
use vstd::string::*;

use crate::bind::bound_ast::{BoundBinaryOp, BoundExpr, BoundExprView, BoundProgram, BoundStatement, Type};
use crate::code_gen::llvm_context::{
    format_num_spec, instructions_view, printf_spec, GlobalVariable, Instruction, InstructionView,
    LLVMStatement, LLVMStatementView, LLVMType, LocalVariable, LocalVariableView, VarArgFunction,
    Variable,
};
use crate::code_gen::llvm_ir_builder::{
    global_stream, global_text, main_instruction, main_stream, main_text, numeric_renderable,
    numeric_text, statement_renderable, statement_text, stringify_instructions,
    stringify_llvm_numeric, stringify_llvm_statement,
};

verus! {

/// Whether a source type has a lowering: only `Int` has one so far.
pub open spec fn type_lowerable(value_type: Type) -> bool {
    value_type is Int
}

/// The instruction-level type of a source type.
pub open spec fn lower_type(value_type: Type) -> LLVMType
    recommends
        type_lowerable(value_type),
{
    match value_type {
        Type::Int => LLVMType::I32,
        _ => arbitrary(),
    }
}

/// Whether a bound expression has a lowering: it is built from integer
/// literals, `Int` declarations, additions and `Int` prints.
pub open spec fn lowerable(expr: BoundExprView) -> bool
    decreases expr,
{
    match expr {
        BoundExprView::Int { .. } => true,
        BoundExprView::BoundDeclaration { value_type, rhs, .. } => type_lowerable(value_type)
            && lowerable(*rhs),
        BoundExprView::BoundBinaryOp { op, lhs, rhs, .. } => op is Add && lowerable(*lhs)
            && lowerable(*rhs),
        BoundExprView::BoundPrint { expr_type, expr } => type_lowerable(expr_type) && lowerable(
            *expr,
        ),
        _ => false,
    }
}

/// The lowering of a bound expression.
pub open spec fn lower(expr: BoundExprView) -> LLVMStatementView
    recommends
        lowerable(expr),
    decreases expr,
{
    match expr {
        BoundExprView::Int { n } => LLVMStatementView::I32Literal(n),
        BoundExprView::BoundDeclaration { identifier, value_type, rhs } => {
            LLVMStatementView::VariableDeclaration {
                identifier,
                value_type: lower_type(value_type),
                rhs: Box::new(lower(*rhs)),
            }
        },
        BoundExprView::BoundBinaryOp { lhs, rhs, .. } => LLVMStatementView::Addition(
            Box::new(lower(*lhs)),
            Box::new(lower(*rhs)),
        ),
        BoundExprView::BoundPrint { expr_type, expr } => LLVMStatementView::Print {
            expr_type: lower_type(expr_type),
            expr: Box::new(lower(*expr)),
        },
        _ => arbitrary(),
    }
}

/// Whether a lowered statement can be emitted: it prints an operand, or
/// declares a variable whose initialiser has a rendering.
pub open spec fn emittable_statement(statement: LLVMStatementView) -> bool {
    match statement {
        LLVMStatementView::Print { expr_type, expr } => expr_type is I32 && numeric_renderable(
            *expr,
        ),
        LLVMStatementView::VariableDeclaration { value_type, rhs, .. } => value_type is I32
            && statement_renderable(*rhs),
        _ => false,
    }
}

/// Whether generation is defined on a bound statement.
pub open spec fn emittable(expr: BoundExprView) -> bool {
    lowerable(expr) && emittable_statement(lower(expr))
}

/// Whether generation is defined on every statement of a bound program.
pub open spec fn program_emittable(stmts: Seq<BoundExprView>) -> bool {
    forall|i: int| 0 <= i < stmts.len() ==> emittable(#[trigger] stmts[i])
}

/// What a builder holds: the two one-time-emission flags and the two
/// instruction streams.
pub struct BuilderView {
    /// The output routine has been declared.
    pub printf_declared: bool,
    /// The decimal format constant has been declared.
    pub format_declared: bool,
    pub global: Seq<InstructionView>,
    pub main: Seq<InstructionView>,
}

/// The module-level stream that the two flags stand for.
pub open spec fn declarations(printf_declared: bool, format_declared: bool) -> Seq<InstructionView> {
    (if printf_declared {
        seq![InstructionView::VarArgFunctionDeclaration(printf_spec())]
    } else {
        Seq::empty()
    }) + (if format_declared {
        seq![InstructionView::GlobalVariableDeclaration(format_num_spec())]
    } else {
        Seq::empty()
    })
}

/// The builder's invariant.
///
/// The module-level stream holds exactly the declarations that the flags
/// record, each once. The main stream is empty, or it ends in the one
/// return it holds, with only prints and integer declarations before it.
pub open spec fn builder_wf(st: BuilderView) -> bool {
    &&& st.format_declared == st.printf_declared
    &&& st.global == declarations(st.printf_declared, st.format_declared)
    &&& st.main.len() > 0 ==> st.main.last() is ReturnOk
    &&& forall|i: int|
        0 <= i < st.main.len() - 1 ==> main_instruction(#[trigger] st.main[i]) && !(st.main[i]
            is ReturnOk)
}

/// The stream without the return that a former call has left at its end.
pub open spec fn without_return(main: Seq<InstructionView>) -> Seq<InstructionView> {
    if main.len() > 0 && main.last() is ReturnOk {
        main.drop_last()
    } else {
        main
    }
}

/// Emitting one lowered statement.
///
/// A print declares the output routine unless that was done before, and
/// with it the format constant unless that was done before; then it adds a
/// print instruction for its operand. A declaration adds a local variable
/// with its rendered initialiser.
pub open spec fn emit(st: BuilderView, statement: LLVMStatementView) -> BuilderView
    recommends
        emittable_statement(statement),
{
    match statement {
        LLVMStatementView::Print { expr, .. } => {
            let format_declared = st.format_declared || !st.printf_declared;
            BuilderView {
                printf_declared: true,
                format_declared,
                global: if st.printf_declared {
                    st.global
                } else if st.format_declared {
                    st.global.push(InstructionView::VarArgFunctionDeclaration(printf_spec()))
                } else {
                    st.global.push(InstructionView::VarArgFunctionDeclaration(printf_spec())).push(
                        InstructionView::GlobalVariableDeclaration(format_num_spec()),
                    )
                },
                main: st.main.push(InstructionView::PrintNumber(numeric_text(*expr))),
            }
        },
        LLVMStatementView::VariableDeclaration { identifier, value_type, rhs } => BuilderView {
            main: st.main.push(
                InstructionView::LocalVariableDeclaration(
                    LocalVariableView { name: identifier, value_type, value: statement_text(*rhs) },
                ),
            ),
            ..st
        },
        _ => st,
    }
}

/// Emitting the statements of a bound program in order.
pub open spec fn emit_all(st: BuilderView, stmts: Seq<BoundExprView>) -> BuilderView
    decreases stmts.len(),
{
    if stmts.len() == 0 {
        st
    } else {
        emit(emit_all(st, stmts.drop_last()), lower(stmts.last()))
    }
}

/// One call of the generator: the return of a former call is taken away,
/// the program's statements are emitted, and one return closes the stream.
pub open spec fn generate_spec(st: BuilderView, stmts: Seq<BoundExprView>) -> BuilderView {
    let opened = BuilderView { main: without_return(st.main), ..st };
    let emitted = emit_all(opened, stmts);
    BuilderView { main: emitted.main.push(InstructionView::ReturnOk), ..emitted }
}

/// The module: the module-level section, an empty line, the main function.
pub open spec fn module_text(st: BuilderView) -> Seq<char> {
    global_text(st.global) + "\n"@ + main_text(st.main)
}

/// Which of the shared declarations a builder has made so far.
#[derive(Clone, Copy, Debug)]
pub struct PrintInformation {
    printf_declared: bool,
    format_declared: bool,
}

/// A code-generation session: both instruction streams and the
/// one-time-emission flags live as long as the builder does.
pub struct LLVMProgramBuilder {
    print_information: PrintInformation,
    global_instructions: Vec<Instruction>,
    main_instructions: Vec<Instruction>,
}

/// A finished module as text.
#[derive(Debug)]
pub struct LLVMProgram {
    pub code: String,
}

impl View for LLVMProgramBuilder {
    type V = BuilderView;

    closed spec fn view(&self) -> BuilderView {
        BuilderView {
            printf_declared: self.print_information.printf_declared,
            format_declared: self.print_information.format_declared,
            global: instructions_view(self.global_instructions@),
            main: instructions_view(self.main_instructions@),
        }
    }
}

/// The state of a builder that has generated nothing yet.
pub open spec fn empty_builder() -> BuilderView {
    BuilderView {
        printf_declared: false,
        format_declared: false,
        global: Seq::empty(),
        main: Seq::empty(),
    }
}

/// The streams of a well-formed builder can be rendered.
pub proof fn lemma_wf_streams_render(st: BuilderView)
    requires
        builder_wf(st),
    ensures
        global_stream(st.global),
        main_stream(st.main),
{
    assert forall|i: int| 0 <= i < st.main.len() implies main_instruction(#[trigger] st.main[i]) by {
        if i == st.main.len() - 1 {
            assert(st.main[i] == st.main.last());
        }
    }
}

impl Default for LLVMProgramBuilder {
    fn default() -> (builder: Self)
        ensures
            builder@ == empty_builder(),
            builder.wf(),
    {
        LLVMProgramBuilder::new()
    }
}

impl LLVMProgramBuilder {
    /// The builder's invariant: see `builder_wf`.
    pub open spec fn wf(&self) -> bool {
        builder_wf(self@)
    }

    /// A builder that has generated nothing yet.
    pub fn new() -> (builder: Self)
        ensures
            builder@ == empty_builder(),
            builder.wf(),
    {
        let builder = LLVMProgramBuilder {
            print_information: PrintInformation { printf_declared: false, format_declared: false },
            global_instructions: Vec::new(),
            main_instructions: Vec::new(),
        };
        assert(builder@.global =~= Seq::<InstructionView>::empty());
        assert(builder@.main =~= Seq::<InstructionView>::empty());
        assert(declarations(false, false) =~= Seq::<InstructionView>::empty());
        builder
    }

    /// The module-level stream.
    pub fn global_instructions(&self) -> (stream: &Vec<Instruction>)
        ensures
            instructions_view(stream@) == self@.global,
    {
        &self.global_instructions
    }

    /// The stream of the main function.
    pub fn main_instructions(&self) -> (stream: &Vec<Instruction>)
        ensures
            instructions_view(stream@) == self@.main,
    {
        &self.main_instructions
    }

    /// Lowers a source type.
    pub fn type_to_llvm_type(value_type: Type) -> (lowered: LLVMType)
        requires
            type_lowerable(value_type),
        ensures
            lowered == lower_type(value_type),
    {
        match value_type {
            Type::Int => LLVMType::I32,
            _ => vstd::pervasive::unreached(),
        }
    }

    /// Tells whether a bound expression has a lowering.
    pub fn is_lowerable(expr: &BoundExpr) -> (ok: bool)
        ensures
            ok == lowerable(expr@),
        decreases expr,
    {
        match expr {
            BoundExpr::Int { .. } => true,
            BoundExpr::BoundDeclaration { value_type, rhs, .. } => {
                assert(expr@->BoundDeclaration_rhs == Box::new(rhs@));
                match value_type {
                    Type::Int => Self::is_lowerable(&**rhs),
                    _ => false,
                }
            },
            BoundExpr::BoundBinaryOp { op, lhs, rhs, .. } => {
                assert(expr@->BoundBinaryOp_lhs == Box::new(lhs@));
                assert(expr@->BoundBinaryOp_rhs == Box::new(rhs@));
                match op {
                    BoundBinaryOp::Add => Self::is_lowerable(&**lhs) && Self::is_lowerable(&**rhs),
                    _ => false,
                }
            },
            BoundExpr::BoundPrint { expr_type, expr: inner } => {
                assert(expr@->BoundPrint_expr == Box::new(inner@));
                match expr_type {
                    Type::Int => Self::is_lowerable(&**inner),
                    _ => false,
                }
            },
            _ => false,
        }
    }

    /// Lowers a bound expression.
    pub fn bound_expr_to_llvm(expr: BoundExpr) -> (lowered: LLVMStatement)
        requires
            lowerable(expr@),
        ensures
            lowered@ == lower(expr@),
        decreases expr,
    {
        match expr {
            BoundExpr::Int { n } => LLVMStatement::I32Literal(n),
            BoundExpr::BoundDeclaration { identifier, value_type, rhs } => {
                assert(expr@->BoundDeclaration_rhs == Box::new(rhs@));
                let value_type = Self::type_to_llvm_type(value_type);
                let variable = Variable {
                    identifier,
                    value_type,
                    rhs: Self::bound_expr_to_llvm(*rhs),
                };
                LLVMStatement::VariableDeclaration(Box::new(variable))
            },
            BoundExpr::BoundBinaryOp { op, lhs, rhs, bin_op_type: _ } => {
                assert(expr@->BoundBinaryOp_lhs == Box::new(lhs@));
                assert(expr@->BoundBinaryOp_rhs == Box::new(rhs@));
                let lhs = Box::new(Self::bound_expr_to_llvm(*lhs));
                let rhs = Box::new(Self::bound_expr_to_llvm(*rhs));
                LLVMStatement::Addition(lhs, rhs)
            },
            BoundExpr::BoundPrint { expr_type, expr: inner } => {
                assert(expr@->BoundPrint_expr == Box::new(inner@));
                let expr_type = Self::type_to_llvm_type(expr_type);
                let inner = Box::new(Self::bound_expr_to_llvm(*inner));
                LLVMStatement::Print { expr_type, expr: inner }
            },
            _ => vstd::pervasive::unreached(),
        }
    }
}

/// The invariant of a builder between the statements of one call: as
/// `builder_wf`, but the main stream holds no return at all.
pub open spec fn builder_open(st: BuilderView) -> bool {
    &&& st.format_declared == st.printf_declared
    &&& st.global == declarations(st.printf_declared, st.format_declared)
    &&& forall|i: int|
        0 <= i < st.main.len() ==> main_instruction(#[trigger] st.main[i]) && !(st.main[i]
            is ReturnOk)
}

/// Emitting a statement keeps an open builder open.
pub proof fn lemma_emit_keeps_open(st: BuilderView, statement: LLVMStatementView)
    requires
        builder_open(st),
        emittable_statement(statement),
    ensures
        builder_open(emit(st, statement)),
{
    let next = emit(st, statement);
    assert forall|i: int| 0 <= i < next.main.len() implies main_instruction(
        #[trigger] next.main[i],
    ) && !(next.main[i] is ReturnOk) by {
        if i < st.main.len() {
            assert(next.main[i] == st.main[i]);
        }
    }
    assert(next.global =~= declarations(next.printf_declared, next.format_declared));
}

impl LLVMProgramBuilder {
    /// Tells whether generation is defined on a bound statement.
    pub fn is_emittable(expr: &BoundExpr) -> (ok: bool)
        ensures
            ok == emittable(expr@),
    {
        if !Self::is_lowerable(expr) {
            return false;
        }
        let lowered = Self::bound_expr_to_llvm(expr.clone());
        match &lowered {
            LLVMStatement::Print { expr_type, expr: operand } => {
                assert(lowered@->Print_expr == Box::new(operand@));
                expr_type.is_i32() && crate::code_gen::llvm_ir_builder::is_numeric_renderable(
                    &**operand,
                )
            },
            LLVMStatement::VariableDeclaration(variable) => {
                assert(lowered@->VariableDeclaration_rhs == Box::new(variable.rhs@));
                variable.value_type.is_i32()
                    && crate::code_gen::llvm_ir_builder::is_statement_renderable(&variable.rhs)
            },
            _ => false,
        }
    }

    /// Tells whether generation is defined on every statement of `prog`.
    pub fn can_generate(prog: &BoundProgram) -> (ok: bool)
        ensures
            ok == program_emittable(prog@),
    {
        let BoundProgram::Body { stmts } = prog;
        let mut i: usize = 0;
        while i < stmts.len()
            invariant
                i <= stmts.len(),
                prog@ == crate::bind::bound_ast::bound_statements_view(stmts@),
                forall|j: int| 0 <= j < i ==> emittable(#[trigger] prog@[j]),
            decreases stmts.len() - i,
        {
            let BoundStatement::BoundExpr { expr } = &stmts[i];
            assert(prog@[i as int] == expr@);
            if !Self::is_emittable(expr) {
                return false;
            }
            i += 1;
        }
        true
    }

    /// Renders the module that the builder holds.
    pub fn build(&self) -> (res: Result<String, String>)
        requires
            self.wf(),
        ensures
            res is Ok,
            res->Ok_0@ == module_text(self@),
    {
        proof {
            lemma_wf_streams_render(self@);
        }
        let mut res = String::new();
        match stringify_instructions(&self.global_instructions, &self.main_instructions) {
            Ok((global, main)) => {
                res.append(global.as_str());
                res.append("\n");
                res.append(main.as_str());
                assert(res@ =~= module_text(self@));
                Ok(res)
            },
            Err(e) => Err(e),
        }
    }

    /// Emits one lowered statement into the streams.
    fn emit_statement(&mut self, statement: LLVMStatement)
        requires
            builder_open(old(self)@),
            emittable_statement(statement@),
        ensures
            final(self)@ == emit(old(self)@, statement@),
    {
        match statement {
            LLVMStatement::Print { expr_type, expr } => {
                assert(statement@->Print_expr == Box::new(expr@));
                if !self.print_information.printf_declared {
                    self.global_instructions.push(
                        Instruction::VarArgFunctionDeclaration(VarArgFunction::printf()),
                    );
                    self.print_information.printf_declared = true;
                    if expr_type.is_i32() && !self.print_information.format_declared {
                        self.global_instructions.push(
                            Instruction::GlobalVariableDeclaration(GlobalVariable::format_num()),
                        );
                        self.print_information.format_declared = true;
                    }
                }
                let operand = stringify_llvm_numeric(&*expr);
                self.main_instructions.push(Instruction::PrintNumber(operand));
                assert(self@.global =~= emit(old(self)@, statement@).global);
                assert(self@.main =~= emit(old(self)@, statement@).main);
            },
            LLVMStatement::VariableDeclaration(variable) => {
                assert(statement@->VariableDeclaration_rhs == Box::new(variable.rhs@));
                let value = stringify_llvm_statement(&variable.rhs);
                let Variable { identifier, value_type, rhs: _ } = *variable;
                let var = LocalVariable { name: identifier, value_type, value };
                self.main_instructions.push(Instruction::LocalVariableDeclaration(var));
                assert(self@.global =~= emit(old(self)@, statement@).global);
                assert(self@.main =~= emit(old(self)@, statement@).main);
            },
            _ => {},
        }
    }

    /// Lowers one bound program into the streams and renders the module.
    ///
    /// The return that a former call left at the end of the main stream is
    /// taken away, the program's statements are emitted in order, and one
    /// return closes the stream again. The shared declarations are made at
    /// the first print of the builder's lifetime and never again.
    pub fn generate_llvm(&mut self, prog: BoundProgram) -> (text: String)
        requires
            old(self).wf(),
            program_emittable(prog@),
        ensures
            final(self).wf(),
            final(self)@ == generate_spec(old(self)@, prog@),
            text@ == module_text(final(self)@),
    {
        let BoundProgram::Body { stmts } = prog;
        let ghost program = crate::bind::bound_ast::bound_statements_view(stmts@);

        let len = self.main_instructions.len();
        if len > 0 {
            let ends_in_return = match &self.main_instructions[len - 1] {
                Instruction::ReturnOk => true,
                _ => false,
            };
            assert(self@.main.last() == self.main_instructions[len - 1]@);
            if ends_in_return {
                self.main_instructions.pop();
            }
        }
        let ghost opened = BuilderView { main: without_return(old(self)@.main), ..old(self)@ };
        assert(self@.main =~= opened.main);
        assert(self@ == opened);
        assert(builder_open(opened)) by {
            assert forall|i: int| 0 <= i < opened.main.len() implies main_instruction(
                #[trigger] opened.main[i],
            ) && !(opened.main[i] is ReturnOk) by {
                assert(opened.main[i] == old(self)@.main[i]);
            }
        }

        let mut i: usize = 0;
        assert(program.take(0) =~= Seq::<BoundExprView>::empty());
        while i < stmts.len()
            invariant
                i <= stmts.len(),
                program == crate::bind::bound_ast::bound_statements_view(stmts@),
                program_emittable(program),
                builder_open(self@),
                self@ == emit_all(opened, program.take(i as int)),
            decreases stmts.len() - i,
        {
            let BoundStatement::BoundExpr { expr } = &stmts[i];
            proof {
                assert(program.take(i + 1).drop_last() =~= program.take(i as int));
                assert(program.take(i + 1).last() == expr@);
                assert(emittable(program[i as int]));
                lemma_emit_keeps_open(self@, lower(expr@));
            }
            let statement = Self::bound_expr_to_llvm(expr.clone());
            self.emit_statement(statement);
            i += 1;
        }
        assert(program.take(i as int) =~= program);

        let ghost emitted = self@;
        self.main_instructions.push(Instruction::ReturnOk);
        assert(self@.main =~= emitted.main.push(InstructionView::ReturnOk));
        assert(self@ == generate_spec(old(self)@, program));
        assert(self.wf()) by {
            assert forall|k: int| 0 <= k < self@.main.len() - 1 implies main_instruction(
                #[trigger] self@.main[k],
            ) && !(self@.main[k] is ReturnOk) by {
                assert(self@.main[k] == emitted.main[k]);
            }
        }

        match self.build() {
            Ok(text) => text,
            Err(e) => e,
        }
    }
}

} // verus!
