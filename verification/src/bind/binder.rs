//! The binder: resolves names against a session's symbol table and checks
//! types.

use vstd::prelude::*;
use vstd::string::*;

use crate::ast::{
    statements_view, BinaryOp, Expr, ExprView, Identifier, IdentifierView, Program, SourcePos,
    Statement, StatementView,
};
use crate::bind::bound_ast::{
    binary_to_bound_binary_op, bound_op_of, bound_statements_view, errors_view, BoundExpr,
    BoundExprView, BoundProgram, BoundStatement, ProgramError, Type, TypeError, TypeErrorView,
};

verus! {

/// The symbol table as a sequence of declarations, oldest first: each is a
/// name and the bound expression it was declared with.
pub type Symbols = Seq<(Seq<char>, BoundExprView)>;

/// Whether `name` is declared in `table`.
pub open spec fn declared(table: Symbols, name: Seq<char>) -> bool {
    exists|i: int| 0 <= i < table.len() && (#[trigger] table[i]).0 == name
}

/// The bound expression that the oldest declaration of `name` holds.
pub open spec fn lookup(table: Symbols, name: Seq<char>) -> Option<BoundExprView>
    decreases table.len(),
{
    if table.len() == 0 {
        None
    } else if table[0].0 == name {
        Some(table[0].1)
    } else {
        lookup(table.drop_first(), name)
    }
}

/// No name is declared twice.
pub open spec fn unique_names(table: Symbols) -> bool {
    forall|i: int, j: int|
        0 <= i < j < table.len() ==> (#[trigger] table[i]).0 != (#[trigger] table[j]).0
}

/// The span of source that an expression covers: a literal's or a name's own
/// span; for a binary operation, from the start of its left operand to the
/// end of its right operand; parentheses and `print` have the span of what
/// they hold.
pub open spec fn span_of(e: ExprView) -> SourcePos
    decreases e,
{
    match e {
        ExprView::Int { source_pos, .. } => source_pos,
        ExprView::Bool { source_pos, .. } => source_pos,
        ExprView::String { source_pos, .. } => source_pos,
        ExprView::Identifier(identifier) => identifier.source_pos,
        ExprView::BinaryOp { lhs, rhs, .. } => SourcePos {
            start: span_of(*lhs).start,
            end: span_of(*rhs).end,
        },
        ExprView::ParenthesizedExpression { expr } => span_of(*expr),
        ExprView::Print { expr } => span_of(*expr),
    }
}

/// The type that an operator asks of both operands.
pub open spec fn operand_type(op: BinaryOp) -> Type {
    match op {
        BinaryOp::And { .. } | BinaryOp::Or { .. } => Type::Bool,
        _ => Type::Int,
    }
}

/// The type of an operator's result.
pub open spec fn result_type(op: BinaryOp) -> Type {
    match op {
        BinaryOp::And { .. } | BinaryOp::Or { .. } => Type::Bool,
        _ => Type::Int,
    }
}

/// The diagnostic for a reference to a name that was never declared.
pub open spec fn undefined_variable(at: SourcePos) -> TypeErrorView {
    TypeErrorView { msg: "Variable is undefined"@, source_pos: at }
}

/// The diagnostic for declaring a name a second time.
pub open spec fn duplicate_declaration(at: SourcePos) -> TypeErrorView {
    TypeErrorView { msg: "Variable identifier is already taken"@, source_pos: at }
}

/// The diagnostic for a `print` whose target is neither a literal nor a name.
pub open spec fn non_literal_print_target(at: SourcePos) -> TypeErrorView {
    TypeErrorView { msg: "Can only print literals"@, source_pos: at }
}

/// The message of a type mismatch: it names the operator and the types of
/// the left and the right operand.
pub open spec fn type_mismatch_msg(op: BinaryOp, lhs: Type, rhs: Type) -> Seq<char> {
    "Cannot perform '"@ + op.name_text() + "' between "@ + lhs.name_text() + " and "@
        + rhs.name_text() + "."@
}

/// The diagnostic for operands whose types the operator does not take.
pub open spec fn type_mismatch(op: BinaryOp, lhs: Type, rhs: Type, at: SourcePos) -> TypeErrorView {
    TypeErrorView { msg: type_mismatch_msg(op, lhs, rhs), source_pos: at }
}

/// What a reference to `identifier` binds to: a declaration-shaped node that
/// repeats the stored value and its type, or `UndefinedVariable` at the
/// identifier's span.
pub open spec fn resolve(table: Symbols, identifier: IdentifierView) -> Result<
    BoundExprView,
    TypeErrorView,
> {
    match lookup(table, identifier.text) {
        Some(value) => Ok(
            BoundExprView::BoundDeclaration {
                identifier: identifier.text,
                value_type: value.type_of(),
                rhs: Box::new(value),
            },
        ),
        None => Err(undefined_variable(identifier.source_pos)),
    }
}

/// Whether binding is defined on `e`: nowhere in it is a boolean literal the
/// direct target of a `print`.
pub open spec fn bindable(e: ExprView) -> bool
    decreases e,
{
    match e {
        ExprView::BinaryOp { lhs, rhs, .. } => bindable(*lhs) && bindable(*rhs),
        ExprView::ParenthesizedExpression { expr } => bindable(*expr),
        ExprView::Print { expr } => !(*expr is Bool),
        _ => true,
    }
}

/// What the target of a `print` binds to.
pub open spec fn bind_print_spec(table: Symbols, target: ExprView) -> Result<
    BoundExprView,
    TypeErrorView,
>
    recommends
        !(target is Bool),
{
    match target {
        ExprView::Int { n, .. } => Ok(
            BoundExprView::BoundPrint {
                expr_type: Type::Int,
                expr: Box::new(BoundExprView::Int { n }),
            },
        ),
        ExprView::String { text, .. } => Ok(
            BoundExprView::BoundPrint {
                expr_type: Type::String,
                expr: Box::new(BoundExprView::String { str: text }),
            },
        ),
        ExprView::Identifier(identifier) => match resolve(table, identifier) {
            Ok(value) => Ok(
                BoundExprView::BoundPrint { expr_type: value.type_of(), expr: Box::new(value) },
            ),
            Err(e) => Err(e),
        },
        ExprView::Bool { .. } => arbitrary(),
        _ => Err(non_literal_print_target(span_of(target))),
    }
}

/// What a binary operation binds to, given what its operands bound to. The
/// left operand's diagnostic wins over the right one's.
pub open spec fn bind_binary_spec(
    op: BinaryOp,
    at: SourcePos,
    lhs: Result<BoundExprView, TypeErrorView>,
    rhs: Result<BoundExprView, TypeErrorView>,
) -> Result<BoundExprView, TypeErrorView> {
    match (lhs, rhs) {
        (Ok(l), Ok(r)) => {
            if l.type_of() == operand_type(op) && r.type_of() == operand_type(op) {
                Ok(
                    BoundExprView::BoundBinaryOp {
                        op: bound_op_of(op),
                        lhs: Box::new(l),
                        rhs: Box::new(r),
                        bin_op_type: result_type(op),
                    },
                )
            } else {
                Err(type_mismatch(op, l.type_of(), r.type_of(), at))
            }
        },
        (Err(e), _) => Err(e),
        (Ok(_), Err(e)) => Err(e),
    }
}

/// What an expression binds to against a symbol table.
pub open spec fn bind_expr_spec(table: Symbols, e: ExprView) -> Result<
    BoundExprView,
    TypeErrorView,
>
    recommends
        bindable(e),
    decreases e,
{
    match e {
        ExprView::Int { n, .. } => Ok(BoundExprView::Int { n }),
        ExprView::Bool { b, .. } => Ok(BoundExprView::Bool { b }),
        ExprView::String { text, .. } => Ok(BoundExprView::String { str: text }),
        ExprView::Identifier(identifier) => resolve(table, identifier),
        ExprView::ParenthesizedExpression { expr } => bind_expr_spec(table, *expr),
        ExprView::BinaryOp { op, lhs, rhs } => bind_binary_spec(
            op,
            span_of(e),
            bind_expr_spec(table, *lhs),
            bind_expr_spec(table, *rhs),
        ),
        ExprView::Print { expr } => bind_print_spec(table, *expr),
    }
}

/// The outcome of binding one expression, as what it means.
pub open spec fn bound_result_view(res: Result<BoundExpr, TypeError>) -> Result<
    BoundExprView,
    TypeErrorView,
> {
    match res {
        Ok(value) => Ok(value@),
        Err(e) => Err(e@),
    }
}

/// Whether binding is defined on a statement.
pub open spec fn statement_bindable(stmt: StatementView) -> bool {
    match stmt {
        StatementView::Expr { expr } => bindable(expr),
        StatementView::Declare { rhs, .. } => bindable(rhs),
    }
}

/// Whether binding is defined on every statement of a program.
pub open spec fn program_bindable(stmts: Seq<StatementView>) -> bool {
    forall|i: int| 0 <= i < stmts.len() ==> statement_bindable(#[trigger] stmts[i])
}

/// Where binding stands after some statements of a program: the symbol
/// table, the statements bound so far, the diagnostics collected so far, and
/// whether a duplicate declaration has ended the run.
pub struct BindState {
    pub table: Symbols,
    pub bound: Seq<BoundExprView>,
    pub errors: Seq<TypeErrorView>,
    pub stopped: bool,
}

/// Binding one more statement.
///
/// Once a duplicate declaration has stopped the run, nothing changes any
/// more. An expression statement adds its bound form or its diagnostic. A
/// declaration of a name that is already in the table adds
/// `DuplicateDeclaration` at the name's span and stops the run; otherwise
/// its right-hand side is bound, and on success the name is recorded with
/// that value and a declaration node carrying the value's type is added.
pub open spec fn bind_step(st: BindState, stmt: StatementView) -> BindState {
    if st.stopped {
        st
    } else {
        match stmt {
            StatementView::Expr { expr } => match bind_expr_spec(st.table, expr) {
                Ok(value) => BindState { bound: st.bound.push(value), ..st },
                Err(e) => BindState { errors: st.errors.push(e), ..st },
            },
            StatementView::Declare { identifier, rhs } => {
                if declared(st.table, identifier.text) {
                    BindState {
                        errors: st.errors.push(duplicate_declaration(identifier.source_pos)),
                        stopped: true,
                        ..st
                    }
                } else {
                    match bind_expr_spec(st.table, rhs) {
                        Ok(value) => BindState {
                            table: st.table.push((identifier.text, value)),
                            bound: st.bound.push(
                                BoundExprView::BoundDeclaration {
                                    identifier: identifier.text,
                                    value_type: value.type_of(),
                                    rhs: Box::new(value),
                                },
                            ),
                            ..st
                        },
                        Err(e) => BindState { errors: st.errors.push(e), ..st },
                    }
                }
            },
        }
    }
}

/// Binding the statements of a program in source order, starting from
/// `table` with nothing bound and no diagnostics.
pub open spec fn bind_statements(table: Symbols, stmts: Seq<StatementView>) -> BindState
    decreases stmts.len(),
{
    if stmts.len() == 0 {
        BindState { table, bound: Seq::empty(), errors: Seq::empty(), stopped: false }
    } else {
        bind_step(bind_statements(table, stmts.drop_last()), stmts.last())
    }
}

/// What binding a program returns: the bound statements when no diagnostic
/// was collected, and all the diagnostics otherwise.
pub open spec fn bind_spec(table: Symbols, stmts: Seq<StatementView>) -> Result<
    Seq<BoundExprView>,
    Seq<TypeErrorView>,
> {
    let end = bind_statements(table, stmts);
    if end.errors.len() == 0 {
        Ok(end.bound)
    } else {
        Err(end.errors)
    }
}

/// The symbol table after binding a program: with the program's
/// declarations when no diagnostic was collected, and as it was before
/// otherwise.
pub open spec fn table_after_bind(table: Symbols, stmts: Seq<StatementView>) -> Symbols {
    let end = bind_statements(table, stmts);
    if end.errors.len() == 0 {
        end.table
    } else {
        table
    }
}

/// The outcome of binding a program, as what it means.
pub open spec fn program_result_view(res: Result<BoundProgram, ProgramError>) -> Result<
    Seq<BoundExprView>,
    Seq<TypeErrorView>,
> {
    match res {
        Ok(program) => Ok(program@),
        Err(e) => Err(e@),
    }
}

/// Whether binding is defined on a statement that is reached with `table`
/// as the symbol table: on an expression statement, if it is defined on the
/// expression; on a declaration, if the name is already declared, so that
/// the right-hand side is never bound, or if it is defined on the
/// right-hand side.
pub open spec fn statement_defined(table: Symbols, stmt: StatementView) -> bool {
    match stmt {
        StatementView::Expr { expr } => bindable(expr),
        StatementView::Declare { identifier, rhs } => declared(table, identifier.text) || bindable(
            rhs,
        ),
    }
}

/// Whether binding is defined on the first `n` statements of a program: on
/// every one of them that is reached before a duplicate declaration ends
/// the run, against the symbol table that it is reached with.
pub open spec fn bind_defined_until(table: Symbols, stmts: Seq<StatementView>, n: int) -> bool {
    forall|i: int|
        0 <= i < n && i < stmts.len() ==> bind_statements(table, stmts.take(i)).stopped
            || statement_defined(bind_statements(table, stmts.take(i)).table, #[trigger] stmts[i])
}

/// Whether binding is defined on a program: on every statement that is
/// reached before a duplicate declaration ends the run.
pub open spec fn bind_defined(table: Symbols, stmts: Seq<StatementView>) -> bool {
    bind_defined_until(table, stmts, stmts.len() as int)
}

/// Binding one statement more of a program is one step from where binding
/// stood before it.
pub proof fn lemma_bind_statements_step(table: Symbols, stmts: Seq<StatementView>, i: int)
    requires
        0 <= i < stmts.len(),
    ensures
        bind_statements(table, stmts.take(i + 1)) == bind_step(
            bind_statements(table, stmts.take(i)),
            stmts[i],
        ),
{
    assert(stmts.take(i + 1).drop_last() =~= stmts.take(i));
    assert(stmts.take(i + 1).last() == stmts[i]);
}

/// Binding stays defined over one statement more if it is defined on that
/// statement, or if the run has stopped before it.
pub proof fn lemma_bind_defined_step(table: Symbols, stmts: Seq<StatementView>, i: int)
    requires
        0 <= i < stmts.len(),
        bind_defined_until(table, stmts, i),
        bind_statements(table, stmts.take(i)).stopped || statement_defined(
            bind_statements(table, stmts.take(i)).table,
            stmts[i],
        ),
    ensures
        bind_defined_until(table, stmts, i + 1),
{
}

/// Binding is not defined on a program that reaches a statement on which
/// it is not defined.
pub proof fn lemma_bind_undefined_at(table: Symbols, stmts: Seq<StatementView>, i: int)
    requires
        0 <= i < stmts.len(),
        !bind_statements(table, stmts.take(i)).stopped,
        !statement_defined(bind_statements(table, stmts.take(i)).table, stmts[i]),
    ensures
        !bind_defined(table, stmts),
{
}

/// Where binding is defined on a program, it is defined on the program
/// without its last statement, and on that statement if the run reaches it.
pub proof fn lemma_bind_defined_prefix(table: Symbols, stmts: Seq<StatementView>)
    requires
        stmts.len() > 0,
        bind_defined(table, stmts),
    ensures
        bind_defined(table, stmts.drop_last()),
        bind_statements(table, stmts.drop_last()).stopped || statement_defined(
            bind_statements(table, stmts.drop_last()).table,
            stmts.last(),
        ),
{
    let init = stmts.drop_last();
    assert(stmts.take(stmts.len() - 1) =~= init);
    assert(stmts[stmts.len() - 1] == stmts.last());
    assert forall|i: int| 0 <= i < init.len() implies bind_statements(
        table,
        init.take(i),
    ).stopped || statement_defined(
        bind_statements(table, init.take(i)).table,
        #[trigger] init[i],
    ) by {
        assert(init[i] == stmts[i]);
        assert(init.take(i) =~= stmts.take(i));
    }
}

/// Binding is defined on a program on all of whose statements it is
/// defined, whatever the symbol table.
pub proof fn lemma_bindable_program_is_defined(table: Symbols, stmts: Seq<StatementView>)
    requires
        program_bindable(stmts),
    ensures
        bind_defined(table, stmts),
{
    assert forall|i: int| 0 <= i < stmts.len() implies statement_defined(
        bind_statements(table, stmts.take(i)).table,
        #[trigger] stmts[i],
    ) by {
        assert(statement_bindable(stmts[i]));
    }
}

/// Once a run has stopped, the statements that follow change nothing.
pub proof fn lemma_stopped_run_is_final(table: Symbols, stmts: Seq<StatementView>, i: int)
    requires
        0 <= i <= stmts.len(),
        bind_statements(table, stmts.take(i)).stopped,
    ensures
        bind_statements(table, stmts) == bind_statements(table, stmts.take(i)),
    decreases stmts.len() - i,
{
    if i < stmts.len() {
        assert(stmts.take(i + 1).drop_last() =~= stmts.take(i));
        lemma_stopped_run_is_final(table, stmts, i + 1);
    } else {
        assert(stmts.take(i) =~= stmts);
    }
}

/// A run that has stopped with binding defined so far is defined on the
/// whole program: nothing after the stop is reached.
pub proof fn lemma_stopped_run_is_defined(table: Symbols, stmts: Seq<StatementView>, i: int)
    requires
        0 <= i <= stmts.len(),
        bind_statements(table, stmts.take(i)).stopped,
        bind_defined_until(table, stmts, i),
    ensures
        bind_defined(table, stmts),
{
    assert forall|j: int| i <= j < stmts.len() implies bind_statements(
        table,
        stmts.take(j),
    ).stopped by {
        assert(stmts.take(j).take(i) =~= stmts.take(i));
        lemma_stopped_run_is_final(table, stmts.take(j), i);
    }
}

/// A declaration of a name that is already declared ends the run: the
/// program's outcome is what came of the statements before it, with one
/// `DuplicateDeclaration` at the span of that name added, and no statement
/// after it is bound.
pub proof fn lemma_duplicate_declaration_ends_run(
    table: Symbols,
    stmts: Seq<StatementView>,
    i: int,
)
    requires
        0 <= i < stmts.len(),
        stmts[i] is Declare,
        !bind_statements(table, stmts.take(i)).stopped,
        declared(bind_statements(table, stmts.take(i)).table, stmts[i]->identifier.text),
    ensures
        ({
            let before = bind_statements(table, stmts.take(i));
            bind_statements(table, stmts) == BindState {
                errors: before.errors.push(
                    duplicate_declaration(stmts[i]->identifier.source_pos),
                ),
                stopped: true,
                ..before
            }
        }),
{
    assert(stmts.take(i + 1).drop_last() =~= stmts.take(i));
    assert(stmts.take(i + 1).last() == stmts[i]);
    lemma_stopped_run_is_final(table, stmts, i + 1);
}

/// A binding session: the symbol table lives as long as the binder does.
pub struct Binder {
    bound_exprs: Vec<(String, BoundExpr)>,
}

impl View for Binder {
    type V = Symbols;

    closed spec fn view(&self) -> Symbols {
        self.bound_exprs@.map_values(|entry: (String, BoundExpr)| (entry.0@, entry.1@))
    }
}

impl Default for Binder {
    fn default() -> (binder: Self)
        ensures
            binder@ == Symbols::empty(),
            binder.wf(),
    {
        Binder::new()
    }
}

impl Binder {
    /// The table's invariant: no name is declared twice.
    pub open spec fn wf(&self) -> bool {
        unique_names(self@)
    }

    /// A binder with an empty symbol table.
    pub fn new() -> (binder: Self)
        ensures
            binder@ == Symbols::empty(),
            binder.wf(),
    {
        let binder = Binder { bound_exprs: Vec::new() };
        assert(binder@ =~= Symbols::empty());
        binder
    }

    /// Returns the `Type` of the passed bound expression.
    pub fn get_type(expr: &BoundExpr) -> (t: Type)
        ensures
            t == expr@.type_of(),
        decreases expr,
    {
        match expr {
            BoundExpr::Int { .. } => Type::Int,
            BoundExpr::Bool { .. } => Type::Bool,
            BoundExpr::BoundBinaryOp { bin_op_type, .. } => *bin_op_type,
            BoundExpr::ParenthesizedExpression { expr } => Self::get_type(&**expr),
            BoundExpr::BoundPrint { expr_type, .. } => *expr_type,
            BoundExpr::String { .. } => Type::String,
            BoundExpr::BoundDeclaration { value_type, .. } => *value_type,
        }
    }

    /// Returns the source position of the passed expression.
    pub fn get_src_pos(expr: &Expr) -> (pos: SourcePos)
        ensures
            pos == span_of(expr@),
        decreases expr,
    {
        match expr {
            Expr::Int { source_pos, .. } => *source_pos,
            Expr::Bool { source_pos, .. } => *source_pos,
            Expr::String { source_pos, .. } => *source_pos,
            Expr::Identifier(identifier) => identifier.source_pos,
            Expr::BinaryOp { lhs, rhs, .. } => {
                let lhs_pos = Self::get_src_pos(&**lhs);
                let rhs_pos = Self::get_src_pos(&**rhs);
                SourcePos { start: lhs_pos.start, end: rhs_pos.end }
            },
            Expr::ParenthesizedExpression { expr } => Self::get_src_pos(&**expr),
            Expr::Print { expr } => Self::get_src_pos(&**expr),
        }
    }

    /// Returns the place where a binary operator itself was written.
    pub fn get_src_pos_bin_op(op: &BinaryOp) -> (pos: &SourcePos)
        ensures
            *pos == op.source_pos(),
    {
        match op {
            BinaryOp::Add { source_pos } => source_pos,
            BinaryOp::Sub { source_pos } => source_pos,
            BinaryOp::Mul { source_pos } => source_pos,
            BinaryOp::Div { source_pos } => source_pos,
            BinaryOp::And { source_pos } => source_pos,
            BinaryOp::Or { source_pos } => source_pos,
        }
    }

    /// Returns the operator's `(operand type, result type)`.
    pub fn get_op_type(op: &BinaryOp) -> (types: (Type, Type))
        ensures
            types.0 == operand_type(*op),
            types.1 == result_type(*op),
    {
        match op {
            BinaryOp::Add { .. } | BinaryOp::Sub { .. } | BinaryOp::Mul { .. } | BinaryOp::Div {
                ..
            } => (Type::Int, Type::Int),
            BinaryOp::And { .. } | BinaryOp::Or { .. } => (Type::Bool, Type::Bool),
        }
    }

    /// Builds the diagnostic for operands that an operator does not take.
    pub fn invalid_op_err(lhs: &Type, rhs: &Type, op: &BinaryOp, source_pos: &SourcePos) -> (res:
        Result<BoundExpr, TypeError>)
        ensures
            bound_result_view(res) == Err::<BoundExprView, TypeErrorView>(
                type_mismatch(*op, *lhs, *rhs, *source_pos),
            ),
    {
        let mut msg = String::from_str("Cannot perform '");
        msg.append(op.name());
        msg.append("' between ");
        msg.append(lhs.name());
        msg.append(" and ");
        msg.append(rhs.name());
        msg.append(".");
        Err(TypeError { msg, source_pos: *source_pos })
    }

    /// Turns an `Identifier` into a `BoundExpr`, or into a `TypeError` if the
    /// variable is not defined.
    pub fn retrieve_variable(&self, identifier: &Identifier) -> (res: Result<BoundExpr, TypeError>)
        ensures
            bound_result_view(res) == resolve(self@, identifier@),
    {
        let mut i: usize = 0;
        assert(self@.skip(0) =~= self@);
        while i < self.bound_exprs.len()
            invariant
                i <= self.bound_exprs.len(),
                lookup(self@, identifier@.text) == lookup(self@.skip(i as int), identifier@.text),
            decreases self.bound_exprs.len() - i,
        {
            let entry = &self.bound_exprs[i];
            proof {
                let rest = self@.skip(i as int);
                assert(rest[0] == self@[i as int]);
                assert(rest.drop_first() =~= self@.skip(i + 1));
            }
            if entry.0 == identifier.text {
                let value_type = Self::get_type(&entry.1);
                let rhs = Box::new(entry.1.clone());
                return Ok(
                    BoundExpr::BoundDeclaration {
                        identifier: identifier.text.clone(),
                        value_type,
                        rhs,
                    },
                );
            }
            i += 1;
        }
        Err(
            TypeError {
                msg: String::from_str("Variable is undefined"),
                source_pos: identifier.source_pos,
            },
        )
    }
}

impl Binder {
    /// Tells whether binding is defined on `expr`.
    pub fn is_bindable(expr: &Expr) -> (ok: bool)
        ensures
            ok == bindable(expr@),
        decreases expr,
    {
        match expr {
            Expr::BinaryOp { lhs, rhs, .. } => {
                Self::is_bindable(&**lhs) && Self::is_bindable(&**rhs)
            },
            Expr::ParenthesizedExpression { expr } => Self::is_bindable(&**expr),
            Expr::Print { expr: target } => {
                assert(expr@ == ExprView::Print { expr: Box::new(target@) });
                match &**target {
                    Expr::Bool { .. } => false,
                    _ => true,
                }
            },
            _ => true,
        }
    }

    /// Tries to bind an expression against the symbol table, which it leaves
    /// as it was.
    pub fn bind_expr(&mut self, expr: &Expr) -> (res: Result<BoundExpr, TypeError>)
        requires
            bindable(expr@),
        ensures
            final(self)@ == old(self)@,
            bound_result_view(res) == bind_expr_spec(old(self)@, expr@),
        decreases expr,
    {
        match expr {
            Expr::Int { n, .. } => Ok(BoundExpr::Int { n: *n }),
            Expr::Bool { b, .. } => Ok(BoundExpr::Bool { b: *b }),
            Expr::String { text, .. } => Ok(BoundExpr::String { str: text.clone() }),
            Expr::Identifier(identifier) => self.retrieve_variable(identifier),
            Expr::ParenthesizedExpression { expr: inner } => {
                assert(expr@ == ExprView::ParenthesizedExpression { expr: Box::new(inner@) });
                self.bind_expr(&**inner)
            },
            Expr::BinaryOp { op, lhs, rhs } => {
                assert(expr@ == ExprView::BinaryOp {
                    op: *op,
                    lhs: Box::new(lhs@),
                    rhs: Box::new(rhs@),
                });
                let source_pos = Self::get_src_pos(expr);
                let lhs_expr = self.bind_expr(&**lhs);
                let rhs_expr = self.bind_expr(&**rhs);
                match (lhs_expr, rhs_expr) {
                    (Ok(lhs_expr), Ok(rhs_expr)) => {
                        let lhs_type = Self::get_type(&lhs_expr);
                        let rhs_type = Self::get_type(&rhs_expr);
                        let (in_type, bin_op_type) = Self::get_op_type(op);
                        let types_are_correct = lhs_type == rhs_type && lhs_type == in_type;
                        if types_are_correct {
                            Ok(
                                BoundExpr::BoundBinaryOp {
                                    op: binary_to_bound_binary_op(*op),
                                    lhs: Box::new(lhs_expr),
                                    rhs: Box::new(rhs_expr),
                                    bin_op_type,
                                },
                            )
                        } else {
                            Self::invalid_op_err(&lhs_type, &rhs_type, op, &source_pos)
                        }
                    },
                    (Ok(_), Err(err)) => Err(err),
                    (Err(err), _) => Err(err),
                }
            },
            Expr::Print { expr: target } => {
                assert(expr@ == ExprView::Print { expr: Box::new(target@) });
                self.bind_print(&**target)
            },
        }
    }

    /// Binds the target of a `print`.
    fn bind_print(&self, target: &Expr) -> (res: Result<BoundExpr, TypeError>)
        requires
            !(target@ is Bool),
        ensures
            bound_result_view(res) == bind_print_spec(self@, target@),
    {
        match target {
            Expr::Int { n, .. } => {
                let value = BoundExpr::Int { n: *n };
                assert(value@ == BoundExprView::Int { n: *n });
                Ok(BoundExpr::BoundPrint { expr_type: Type::Int, expr: Box::new(value) })
            },
            Expr::String { text, .. } => {
                let value = BoundExpr::String { str: text.clone() };
                assert(value@ == BoundExprView::String { str: text@ });
                Ok(BoundExpr::BoundPrint { expr_type: Type::String, expr: Box::new(value) })
            },
            Expr::Identifier(identifier) => match self.retrieve_variable(identifier) {
                Ok(value) => {
                    let expr_type = Self::get_type(&value);
                    Ok(BoundExpr::BoundPrint { expr_type, expr: Box::new(value) })
                },
                Err(err) => Err(err),
            },
            _ => Err(
                TypeError {
                    msg: String::from_str("Can only print literals"),
                    source_pos: Self::get_src_pos(target),
                },
            ),
        }
    }
}

impl Binder {
    /// Tells whether binding is defined on every statement of `prog`.
    pub fn is_bindable_program(prog: &Program) -> (ok: bool)
        ensures
            ok == program_bindable(prog@),
    {
        let Program::Body { stmts } = prog;
        let mut i: usize = 0;
        while i < stmts.len()
            invariant
                i <= stmts.len(),
                prog@ == statements_view(stmts@),
                forall|j: int| 0 <= j < i ==> statement_bindable(#[trigger] prog@[j]),
            decreases stmts.len() - i,
        {
            let ok = match &stmts[i] {
                Statement::Expr { expr } => Self::is_bindable(expr),
                Statement::Declare { rhs, .. } => Self::is_bindable(rhs),
            };
            assert(prog@[i as int] == stmts[i as int]@);
            if !ok {
                return false;
            }
            i += 1;
        }
        true
    }

    /// Tells whether `name` is already in the symbol table.
    fn is_declared(&self, name: &String) -> (found: bool)
        ensures
            found == declared(self@, name@),
    {
        let mut i: usize = 0;
        while i < self.bound_exprs.len()
            invariant
                i <= self.bound_exprs.len(),
                forall|j: int| 0 <= j < i ==> (#[trigger] self@[j]).0 != name@,
            decreases self.bound_exprs.len() - i,
        {
            if self.bound_exprs[i].0 == *name {
                assert(self@[i as int].0 == name@);
                return true;
            }
            i += 1;
        }
        false
    }

    /// Records a new declaration at the end of the symbol table.
    fn declare(&mut self, name: String, value: BoundExpr)
        requires
            old(self).wf(),
            !declared(old(self)@, name@),
        ensures
            final(self).wf(),
            final(self)@ == old(self)@.push((name@, value@)),
    {
        self.bound_exprs.push((name, value));
        assert(self@ =~= old(self)@.push((name@, value@)));
    }

    /// Binds one statement that is reached, and tells whether it ends the
    /// run; or finds that binding is not defined on it and changes nothing.
    fn bind_statement(
        &mut self,
        stmt: &Statement,
        bound_statements: &mut Vec<BoundStatement>,
        expr_errors: &mut Vec<TypeError>,
    ) -> (res: Option<bool>)
        requires
            old(self).wf(),
        ensures
            final(self).wf(),
            old(self)@.len() <= final(self)@.len(),
            final(self)@.take(old(self)@.len() as int) == old(self)@,
            res is Some == statement_defined(old(self)@, stmt@),
            res matches Some(stopped) ==> bind_step(
                BindState {
                    table: old(self)@,
                    bound: bound_statements_view(old(bound_statements)@),
                    errors: errors_view(old(expr_errors)@),
                    stopped: false,
                },
                stmt@,
            ) == (BindState {
                table: final(self)@,
                bound: bound_statements_view(final(bound_statements)@),
                errors: errors_view(final(expr_errors)@),
                stopped,
            }),
            res is None ==> final(self)@ == old(self)@,
    {
        let ghost bound_before = bound_statements_view(bound_statements@);
        let ghost errors_before = errors_view(expr_errors@);
        assert(self@.take(self@.len() as int) =~= self@);
        match stmt {
            Statement::Expr { expr } => {
                if !Self::is_bindable(expr) {
                    return None;
                }
                match self.bind_expr(expr) {
                    Ok(expr) => {
                        bound_statements.push(BoundStatement::BoundExpr { expr });
                        assert(bound_statements_view(bound_statements@) =~= bound_before.push(
                            expr@,
                        ));
                    },
                    Err(err) => {
                        expr_errors.push(err);
                        assert(errors_view(expr_errors@) =~= errors_before.push(err@));
                    },
                }
                Some(false)
            },
            Statement::Declare { identifier, rhs } => {
                if self.is_declared(&identifier.text) {
                    let err = TypeError {
                        msg: String::from_str("Variable identifier is already taken"),
                        source_pos: SourcePos {
                            start: identifier.source_pos.start,
                            end: identifier.source_pos.end,
                        },
                    };
                    expr_errors.push(err);
                    assert(errors_view(expr_errors@) =~= errors_before.push(err@));
                    Some(true)
                } else if !Self::is_bindable(rhs) {
                    None
                } else {
                    match self.bind_expr(rhs) {
                        Ok(rhs) => {
                            self.declare(identifier.text.clone(), rhs.clone());
                            let expr = BoundExpr::BoundDeclaration {
                                identifier: identifier.text.clone(),
                                value_type: Self::get_type(&rhs),
                                rhs: Box::new(rhs),
                            };
                            bound_statements.push(BoundStatement::BoundExpr { expr });
                            assert(bound_statements_view(bound_statements@) =~= bound_before.push(
                                expr@,
                            ));
                            assert(self@.take(old(self)@.len() as int) =~= old(self)@);
                        },
                        Err(err) => {
                            expr_errors.push(err);
                            assert(errors_view(expr_errors@) =~= errors_before.push(err@));
                        },
                    }
                    Some(false)
                }
            },
        }
    }

    /// Takes back the declarations made since the table held
    /// `declared_before` of them.
    fn forget_declarations(&mut self, declared_before: usize)
        requires
            declared_before <= old(self)@.len(),
            unique_names(old(self)@.take(declared_before as int)),
        ensures
            final(self).wf(),
            final(self)@ == old(self)@.take(declared_before as int),
    {
        self.bound_exprs.truncate(declared_before);
        assert(self@ =~= old(self)@.take(declared_before as int));
    }

    /// Binds the statements of a program, or finds that binding is not
    /// defined on one that is reached. The declarations of a run that
    /// collects a diagnostic, or that is not defined, are taken back.
    fn bind_run(&mut self, stmts: &Vec<Statement>) -> (res: Option<
        (Vec<BoundStatement>, Vec<TypeError>),
    >)
        requires
            old(self).wf(),
        ensures
            final(self).wf(),
            res is Some == bind_defined(old(self)@, statements_view(stmts@)),
            res matches Some((bound, errors)) ==> {
                let end = bind_statements(old(self)@, statements_view(stmts@));
                &&& final(self)@ == table_after_bind(old(self)@, statements_view(stmts@))
                &&& bound_statements_view(bound@) == end.bound
                &&& errors_view(errors@) == end.errors
            },
            res is None ==> final(self)@ == old(self)@,
    {
        let ghost start = self@;
        let ghost program = statements_view(stmts@);
        let declared_before = self.bound_exprs.len();
        let mut bound_statements: Vec<BoundStatement> = Vec::new();
        let mut expr_errors: Vec<TypeError> = Vec::new();
        let mut stopped = false;
        let mut i: usize = 0;
        assert(program.take(0) =~= Seq::<StatementView>::empty());
        assert(bound_statements_view(bound_statements@) =~= Seq::<BoundExprView>::empty());
        assert(errors_view(expr_errors@) =~= Seq::<TypeErrorView>::empty());
        assert(self@.take(declared_before as int) =~= start);
        while i < stmts.len() && !stopped
            invariant
                i <= stmts.len(),
                program == statements_view(stmts@),
                self.wf(),
                start == old(self)@,
                unique_names(start),
                declared_before == start.len(),
                declared_before <= self@.len(),
                self@.take(declared_before as int) == start,
                bind_defined_until(start, program, i as int),
                bind_statements(start, program.take(i as int)) == (BindState {
                    table: self@,
                    bound: bound_statements_view(bound_statements@),
                    errors: errors_view(expr_errors@),
                    stopped,
                }),
            decreases stmts.len() - i,
        {
            let ghost grown = self@;
            assert(program[i as int] == stmts[i as int]@);
            match self.bind_statement(&stmts[i], &mut bound_statements, &mut expr_errors) {
                Some(ends_run) => {
                    proof {
                        lemma_bind_statements_step(start, program, i as int);
                        lemma_bind_defined_step(start, program, i as int);
                        assert(self@.take(declared_before as int) =~= grown.take(
                            declared_before as int,
                        ));
                    }
                    stopped = ends_run;
                },
                None => {
                    proof {
                        lemma_bind_undefined_at(start, program, i as int);
                    }
                    self.forget_declarations(declared_before);
                    return None;
                },
            }
            i += 1;
        }
        proof {
            if stopped {
                lemma_stopped_run_is_final(start, program, i as int);
                lemma_stopped_run_is_defined(start, program, i as int);
            } else {
                assert(program.take(i as int) =~= program);
            }
        }
        if !expr_errors.is_empty() {
            self.forget_declarations(declared_before);
        }
        Some((bound_statements, expr_errors))
    }

    /// Binds the program.
    ///
    /// Statements are bound in source order against the session's symbol
    /// table, each seeing the declarations of those before it. The call
    /// succeeds exactly when no diagnostic was collected, and then the
    /// program's declarations stay in the table. A failing call hands out
    /// the diagnostics and none of the statements that it bound, and leaves
    /// the table as it was before the call.
    pub fn bind(&mut self, prog: &Program) -> (res: Result<BoundProgram, ProgramError>)
        requires
            old(self).wf(),
            bind_defined(old(self)@, prog@),
        ensures
            final(self).wf(),
            final(self)@ == table_after_bind(old(self)@, prog@),
            program_result_view(res) == bind_spec(old(self)@, prog@),
    {
        let Program::Body { stmts } = prog;
        match self.bind_run(stmts) {
            Some((bound_statements, expr_errors)) => {
                if expr_errors.is_empty() {
                    Ok(BoundProgram::Body { stmts: bound_statements })
                } else {
                    Err(ProgramError { expr_errors })
                }
            },
            None => vstd::pervasive::unreached(),
        }
    }

    /// Binds the program if binding is defined on it; otherwise gives
    /// `None` and leaves the symbol table as it was.
    pub fn try_bind(&mut self, prog: &Program) -> (res: Option<Result<BoundProgram, ProgramError>>)
        requires
            old(self).wf(),
        ensures
            final(self).wf(),
            res is Some == bind_defined(old(self)@, prog@),
            res matches Some(outcome) ==> {
                &&& final(self)@ == table_after_bind(old(self)@, prog@)
                &&& program_result_view(outcome) == bind_spec(old(self)@, prog@)
            },
            res is None ==> final(self)@ == old(self)@,
    {
        let Program::Body { stmts } = prog;
        match self.bind_run(stmts) {
            Some((bound_statements, expr_errors)) => {
                if expr_errors.is_empty() {
                    Some(Ok(BoundProgram::Body { stmts: bound_statements }))
                } else {
                    Some(Err(ProgramError { expr_errors }))
                }
            },
            None => None,
        }
    }
}

} // verus!
