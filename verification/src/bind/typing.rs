//! The typing rules of the language, stated on their own, and the proof that
//! the binder accepts exactly the programs that they accept.

use vstd::prelude::*;

use crate::ast::{ExprView, IdentifierView, StatementView};
use crate::bind::binder::{
    bind_defined, bind_expr_spec, bind_spec, bind_statements, bind_step, bindable, declared,
    lemma_bind_defined_prefix, lemma_bindable_program_is_defined, lookup, operand_type,
    program_bindable, result_type, statement_bindable, statement_defined, undefined_variable,
    BindState, Symbols,
};
use crate::bind::bound_ast::TypeErrorView;
use crate::bind::bound_ast::{BoundExprView, Type};

verus! {

/// The types of the declared names.
pub type TypeEnv = Map<Seq<char>, Type>;

/// The type environment that a symbol table stands for: every declared name
/// with the type of the value it was declared with.
pub open spec fn env_of(table: Symbols) -> TypeEnv {
    Map::new(
        |name: Seq<char>| declared(table, name),
        |name: Seq<char>| lookup(table, name).unwrap().type_of(),
    )
}

/// The type of a name in an environment, if it is declared.
pub open spec fn name_type(env: TypeEnv, name: Seq<char>) -> Option<Type> {
    if env.contains_key(name) {
        Some(env[name])
    } else {
        None
    }
}

/// The static type of an expression, or `None` where it has none.
///
/// Literals have their own type and a name the type it was declared with.
/// An arithmetic operator takes two `Int`s and gives an `Int`; a logical
/// operator takes two `Bool`s and gives a `Bool`. Parentheses do not change
/// a type. `print` takes an integer literal, a text literal or a declared
/// name, and has the type of what it prints.
pub open spec fn static_type(env: TypeEnv, e: ExprView) -> Option<Type>
    decreases e,
{
    match e {
        ExprView::Int { .. } => Some(Type::Int),
        ExprView::Bool { .. } => Some(Type::Bool),
        ExprView::String { .. } => Some(Type::String),
        ExprView::Identifier(identifier) => name_type(env, identifier.text),
        ExprView::ParenthesizedExpression { expr } => static_type(env, *expr),
        ExprView::BinaryOp { op, lhs, rhs } => {
            if static_type(env, *lhs) == Some(operand_type(op)) && static_type(env, *rhs) == Some(
                operand_type(op),
            ) {
                Some(result_type(op))
            } else {
                None
            }
        },
        ExprView::Print { expr } => match *expr {
            ExprView::Int { .. } => Some(Type::Int),
            ExprView::String { .. } => Some(Type::String),
            ExprView::Identifier(identifier) => name_type(env, identifier.text),
            _ => None,
        },
    }
}

/// Checks one statement: an expression statement must have a type; a
/// declaration must introduce a new name and its right-hand side must have a
/// type, which the name then has. Gives the environment after the statement.
pub open spec fn check_statement(env: TypeEnv, stmt: StatementView) -> Option<TypeEnv> {
    match stmt {
        StatementView::Expr { expr } => match static_type(env, expr) {
            Some(_) => Some(env),
            None => None,
        },
        StatementView::Declare { identifier, rhs } => {
            if env.contains_key(identifier.text) {
                None
            } else {
                match static_type(env, rhs) {
                    Some(t) => Some(env.insert(identifier.text, t)),
                    None => None,
                }
            }
        },
    }
}

/// Checks the statements of a program in source order. Gives the
/// environment after the last one, or `None` if some statement is ill-typed.
pub open spec fn check_statements(env: TypeEnv, stmts: Seq<StatementView>) -> Option<TypeEnv>
    decreases stmts.len(),
{
    if stmts.len() == 0 {
        Some(env)
    } else {
        match check_statements(env, stmts.drop_last()) {
            Some(before) => check_statement(before, stmts.last()),
            None => None,
        }
    }
}

/// A program is well typed against a symbol table when every one of its
/// statements checks, in order.
pub open spec fn well_typed(table: Symbols, stmts: Seq<StatementView>) -> bool {
    check_statements(env_of(table), stmts) is Some
}

/// A name is declared exactly when looking it up finds a value.
pub proof fn lemma_lookup_declared(table: Symbols, name: Seq<char>)
    ensures
        declared(table, name) <==> lookup(table, name) is Some,
    decreases table.len(),
{
    if table.len() > 0 {
        if table[0].0 == name {
        } else {
            let rest = table.drop_first();
            lemma_lookup_declared(rest, name);
            if declared(rest, name) {
                let i = choose|i: int| 0 <= i < rest.len() && (#[trigger] rest[i]).0 == name;
                assert(table[i + 1] == rest[i]);
            }
            if declared(table, name) {
                let i = choose|i: int| 0 <= i < table.len() && (#[trigger] table[i]).0 == name;
                assert(rest[i - 1] == table[i]);
            }
        }
    }
}

/// Looking a name up after one more declaration: an older declaration of
/// the name still wins; otherwise the new one is found if it has that name.
pub proof fn lemma_lookup_push(table: Symbols, entry: (Seq<char>, BoundExprView), name: Seq<char>)
    ensures
        lookup(table.push(entry), name) == match lookup(table, name) {
            Some(value) => Some(value),
            None => if entry.0 == name {
                Some(entry.1)
            } else {
                None
            },
        },
    decreases table.len(),
{
    let longer = table.push(entry);
    if table.len() == 0 {
        assert(longer[0] == entry);
        assert(longer.drop_first() =~= Symbols::empty());
    } else {
        assert(longer[0] == table[0]);
        assert(longer.drop_first() =~= table.drop_first().push(entry));
        if table[0].0 != name {
            lemma_lookup_push(table.drop_first(), entry, name);
        }
    }
}

/// Declaring a new name extends the environment by that name and the type
/// of its value.
pub proof fn lemma_env_of_push(table: Symbols, name: Seq<char>, value: BoundExprView)
    requires
        !declared(table, name),
    ensures
        env_of(table.push((name, value))) == env_of(table).insert(name, value.type_of()),
{
    let longer = table.push((name, value));
    let extended = env_of(table).insert(name, value.type_of());
    assert forall|other: Seq<char>| #[trigger]
        env_of(longer).dom().contains(other) == extended.dom().contains(other) by {
        lemma_lookup_push(table, (name, value), other);
        lemma_lookup_declared(table, other);
        lemma_lookup_declared(longer, other);
    }
    assert forall|other: Seq<char>| #[trigger] env_of(longer).dom().contains(other) implies env_of(
        longer,
    )[other] == extended[other] by {
        lemma_lookup_push(table, (name, value), other);
        lemma_lookup_declared(table, other);
        lemma_lookup_declared(longer, other);
    }
    assert(env_of(longer) =~= env_of(table).insert(name, value.type_of()));
}

/// A reference to a name that is not declared is rejected as an undefined
/// variable at the span of that name, whether it stands alone or is what a
/// `print` prints.
pub proof fn lemma_unbound_name_is_undefined(table: Symbols, identifier: IdentifierView)
    requires
        !declared(table, identifier.text),
    ensures
        bind_expr_spec(table, ExprView::Identifier(identifier)) == Err::<
            BoundExprView,
            TypeErrorView,
        >(undefined_variable(identifier.source_pos)),
        bind_expr_spec(table, ExprView::Print { expr: Box::new(ExprView::Identifier(identifier)) })
            == Err::<BoundExprView, TypeErrorView>(undefined_variable(identifier.source_pos)),
{
    lemma_lookup_declared(table, identifier.text);
}

/// Binding an expression agrees with the typing rules: an expression that
/// has a type binds, to a bound expression of that type; one that has none
/// is rejected with a diagnostic.
pub proof fn lemma_bind_expr_agrees_with_typing(table: Symbols, e: ExprView)
    ensures
        match static_type(env_of(table), e) {
            Some(t) => bindable(e) && bind_expr_spec(table, e) is Ok && bind_expr_spec(
                table,
                e,
            )->Ok_0.type_of() == t,
            None => bindable(e) ==> bind_expr_spec(table, e) is Err,
        },
    decreases e,
{
    match e {
        ExprView::Identifier(identifier) => {
            lemma_lookup_declared(table, identifier.text);
        },
        ExprView::ParenthesizedExpression { expr } => {
            lemma_bind_expr_agrees_with_typing(table, *expr);
        },
        ExprView::BinaryOp { op, lhs, rhs } => {
            lemma_bind_expr_agrees_with_typing(table, *lhs);
            lemma_bind_expr_agrees_with_typing(table, *rhs);
        },
        ExprView::Print { expr } => {
            if let ExprView::Identifier(identifier) = *expr {
                lemma_lookup_declared(table, identifier.text);
            }
        },
        _ => {},
    }
}

/// Binding one statement agrees with checking it. A statement that checks
/// is bound without a diagnostic, and the table then holds the checked
/// environment; one that does not check adds a diagnostic.
pub proof fn lemma_bind_step_agrees_with_typing(before: BindState, stmt: StatementView)
    requires
        !before.stopped,
    ensures
        match check_statement(env_of(before.table), stmt) {
            Some(env) => {
                let after = bind_step(before, stmt);
                &&& statement_bindable(stmt)
                &&& after.errors == before.errors
                &&& !after.stopped
                &&& after.bound.len() == before.bound.len() + 1
                &&& env_of(after.table) == env
            },
            None => statement_defined(before.table, stmt) ==> bind_step(before, stmt).errors.len()
                > before.errors.len(),
        },
{
    match stmt {
        StatementView::Expr { expr } => {
            lemma_bind_expr_agrees_with_typing(before.table, expr);
        },
        StatementView::Declare { identifier, rhs } => {
            if !declared(before.table, identifier.text) {
                lemma_bind_expr_agrees_with_typing(before.table, rhs);
                if let Ok(value) = bind_expr_spec(before.table, rhs) {
                    lemma_env_of_push(before.table, identifier.text, value);
                }
            }
        },
    }
}

/// Binding a program agrees with checking it, statement by statement: while
/// the statements check, nothing is rejected, every statement is bound, and
/// the table holds the checked environment; once a statement fails to
/// check, a diagnostic has been collected.
pub proof fn lemma_bind_agrees_with_typing(table: Symbols, stmts: Seq<StatementView>)
    ensures
        match check_statements(env_of(table), stmts) {
            Some(env) => {
                let end = bind_statements(table, stmts);
                &&& program_bindable(stmts)
                &&& end.errors.len() == 0
                &&& !end.stopped
                &&& end.bound.len() == stmts.len()
                &&& env_of(end.table) == env
            },
            None => bind_defined(table, stmts) ==> bind_statements(table, stmts).errors.len() > 0,
        },
    decreases stmts.len(),
{
    if stmts.len() > 0 {
        let init = stmts.drop_last();
        let last = stmts.last();
        lemma_bind_agrees_with_typing(table, init);
        let before = bind_statements(table, init);
        if bind_defined(table, stmts) {
            lemma_bind_defined_prefix(table, stmts);
        }
        match check_statements(env_of(table), init) {
            Some(env) => {
                lemma_bind_step_agrees_with_typing(before, last);
                if check_statement(env, last) is Some {
                    assert forall|i: int| 0 <= i < stmts.len() implies statement_bindable(
                        #[trigger] stmts[i],
                    ) by {
                        if i < init.len() {
                            assert(init[i] == stmts[i]);
                        }
                    }
                }
            },
            None => {},
        }
    }
}

/// Every well-typed program binds: binding is defined on it, and the call
/// succeeds with one bound statement for each statement of the program.
pub proof fn lemma_well_typed_program_binds(table: Symbols, stmts: Seq<StatementView>)
    requires
        well_typed(table, stmts),
    ensures
        bind_defined(table, stmts),
        bind_spec(table, stmts) is Ok,
        bind_spec(table, stmts)->Ok_0.len() == stmts.len(),
{
    lemma_bind_agrees_with_typing(table, stmts);
    lemma_bindable_program_is_defined(table, stmts);
}

/// Only well-typed programs bind: a program on which binding is defined and
/// succeeds is well typed.
pub proof fn lemma_bound_program_is_well_typed(table: Symbols, stmts: Seq<StatementView>)
    requires
        bind_defined(table, stmts),
        bind_spec(table, stmts) is Ok,
    ensures
        well_typed(table, stmts),
{
    lemma_bind_agrees_with_typing(table, stmts);
}

} // verus!
