//! What holds of a builder over a whole session: the shared declarations
//! are made once, and the main stream ends in its only return.

use vstd::prelude::*;

use crate::bind::bound_ast::BoundExprView;
use crate::code_gen::llvm_context::{format_num_spec, printf_spec, InstructionView};
use crate::code_gen::llvm_module::{
    builder_open, builder_wf, declarations, emit, emit_all, emittable, generate_spec,
    lemma_emit_keeps_open, lower, program_emittable, without_return, BuilderView,
};

verus! {

/// Whether some statement of a bound program is a print.
pub open spec fn has_print(stmts: Seq<BoundExprView>) -> bool {
    exists|i: int| 0 <= i < stmts.len() && #[trigger] stmts[i] is BoundPrint
}

/// The module-level stream once the shared declarations have been made: the
/// output routine, then the format constant, and nothing else.
pub open spec fn shared_declarations() -> Seq<InstructionView> {
    seq![
        InstructionView::VarArgFunctionDeclaration(printf_spec()),
        InstructionView::GlobalVariableDeclaration(format_num_spec()),
    ]
}

/// Emitting the statements of a program into an open builder.
///
/// The builder stays open. Every statement adds exactly one instruction at
/// the end of the main stream, and what was there stays in place. Once the
/// output routine is declared it stays declared and the module-level stream
/// no longer changes; a print among the statements has it declared.
pub proof fn lemma_emit_all(st: BuilderView, stmts: Seq<BoundExprView>)
    requires
        builder_open(st),
        program_emittable(stmts),
    ensures
        builder_open(emit_all(st, stmts)),
        emit_all(st, stmts).main.len() == st.main.len() + stmts.len(),
        emit_all(st, stmts).main.take(st.main.len() as int) == st.main,
        st.printf_declared ==> emit_all(st, stmts).printf_declared && emit_all(st, stmts).global
            == st.global,
        has_print(stmts) ==> emit_all(st, stmts).printf_declared,
        !st.printf_declared && !has_print(stmts) ==> !emit_all(st, stmts).printf_declared,
    decreases stmts.len(),
{
    if stmts.len() == 0 {
        assert(st.main.take(st.main.len() as int) =~= st.main);
    } else {
        let init = stmts.drop_last();
        let last = stmts.last();
        assert forall|i: int| 0 <= i < init.len() implies emittable(#[trigger] init[i]) by {
            assert(init[i] == stmts[i]);
        }
        assert(emittable(stmts[stmts.len() - 1]));
        lemma_emit_all(st, init);
        let before = emit_all(st, init);
        lemma_emit_keeps_open(before, lower(last));
        let after = emit(before, lower(last));
        assert(after.main.take(st.main.len() as int) =~= before.main.take(st.main.len() as int));
        if has_print(stmts) {
            let i = choose|i: int| 0 <= i < stmts.len() && #[trigger] stmts[i] is BoundPrint;
            if i < init.len() {
                assert(init[i] is BoundPrint);
            }
        }
        if has_print(init) {
            let i = choose|i: int| 0 <= i < init.len() && #[trigger] init[i] is BoundPrint;
            assert(stmts[i] is BoundPrint);
        }
        if last is BoundPrint {
            assert(stmts[stmts.len() - 1] is BoundPrint);
        }
    }
}

/// One call of the generator keeps the builder's invariant.
///
/// Whatever was generated before, the main stream afterwards ends in a
/// return and holds no other, and the module-level stream holds each shared
/// declaration at most once. The call adds one instruction for each
/// statement of the program.
pub proof fn lemma_generate_keeps_invariant(st: BuilderView, stmts: Seq<BoundExprView>)
    requires
        builder_wf(st),
        program_emittable(stmts),
    ensures
        builder_wf(generate_spec(st, stmts)),
        generate_spec(st, stmts).main.len() == without_return(st.main).len() + stmts.len() + 1,
        generate_spec(st, stmts).main.take(without_return(st.main).len() as int) == without_return(
            st.main,
        ),
{
    let opened = BuilderView { main: without_return(st.main), ..st };
    assert(builder_open(opened)) by {
        assert forall|i: int| 0 <= i < opened.main.len() implies crate::code_gen::llvm_ir_builder::main_instruction(
            #[trigger] opened.main[i],
        ) && !(opened.main[i] is ReturnOk) by {
            assert(opened.main[i] == st.main[i]);
        }
    }
    lemma_emit_all(opened, stmts);
    let emitted = emit_all(opened, stmts);
    let done = generate_spec(st, stmts);
    assert forall|i: int| 0 <= i < done.main.len() - 1 implies crate::code_gen::llvm_ir_builder::main_instruction(
        #[trigger] done.main[i],
    ) && !(done.main[i] is ReturnOk) by {
        assert(done.main[i] == emitted.main[i]);
    }
    assert(done.main.take(opened.main.len() as int) =~= emitted.main.take(
        opened.main.len() as int,
    ));
}

/// The shared declarations are made exactly once.
///
/// After a call, the module-level stream is empty if no print has ever been
/// generated, and otherwise holds the output routine and the format
/// constant once each, however many prints there were. A builder that has
/// made the declarations never adds to them.
pub proof fn lemma_declarations_made_once(st: BuilderView, stmts: Seq<BoundExprView>)
    requires
        builder_wf(st),
        program_emittable(stmts),
    ensures
        generate_spec(st, stmts).printf_declared == (st.printf_declared || has_print(stmts)),
        generate_spec(st, stmts).global == if st.printf_declared || has_print(stmts) {
            shared_declarations()
        } else {
            Seq::<InstructionView>::empty()
        },
        st.printf_declared ==> generate_spec(st, stmts).global == st.global,
{
    let opened = BuilderView { main: without_return(st.main), ..st };
    assert(builder_open(opened)) by {
        assert forall|i: int| 0 <= i < opened.main.len() implies crate::code_gen::llvm_ir_builder::main_instruction(
            #[trigger] opened.main[i],
        ) && !(opened.main[i] is ReturnOk) by {
            assert(opened.main[i] == st.main[i]);
        }
    }
    lemma_emit_all(opened, stmts);
    lemma_generate_keeps_invariant(st, stmts);
    assert(declarations(true, true) =~= shared_declarations());
    assert(declarations(false, false) =~= Seq::<InstructionView>::empty());
}

/// A second call on the same builder.
///
/// It does not repeat the return: the return of the first call is replaced
/// by the second program's instructions and one return after them, so that
/// the stream again ends in its only return. Everything that the first call
/// emitted before its return stays in place, and if the first call made the
/// shared declarations the second makes none.
pub proof fn lemma_second_generate(
    st: BuilderView,
    first: Seq<BoundExprView>,
    second: Seq<BoundExprView>,
)
    requires
        builder_wf(st),
        program_emittable(first),
        program_emittable(second),
    ensures
        ({
            let once = generate_spec(st, first);
            let twice = generate_spec(once, second);
            &&& builder_wf(twice)
            &&& twice.main.len() == once.main.len() + second.len()
            &&& twice.main.take(once.main.len() - 1) == once.main.drop_last()
            &&& twice.main.last() is ReturnOk
            &&& forall|i: int| 0 <= i < twice.main.len() - 1 ==> !(#[trigger] twice.main[i] is ReturnOk)
            &&& once.printf_declared ==> twice.global == once.global
        }),
{
    lemma_generate_keeps_invariant(st, first);
    let once = generate_spec(st, first);
    lemma_generate_keeps_invariant(once, second);
    lemma_declarations_made_once(once, second);
}

} // verus!
