use vstd::prelude::*;

use crate::ast::expression::{expr_view, opt_string_view, Expression, ExpressionV};

verus! {

/// One statement of a method body. A method body is an ordered sequence of
/// statements; the order is the execution order.
#[derive(Debug)]
pub enum Statement {
    Expression { expression: Expression },
    VariableAssignment {
        name: String,
        var_type: Option<String>,
        is_final: bool,
        value: Option<Expression>,
    },
}

/// The mathematical shape of a `Statement`.
#[verifier::ext_equal]
pub enum StatementV {
    Expression { expression: ExpressionV },
    VariableAssignment {
        name: Seq<char>,
        var_type: Option<Seq<char>>,
        is_final: bool,
        value: Option<ExpressionV>,
    },
}

pub open spec fn stmt_view(s: Statement) -> StatementV {
    match s {
        Statement::Expression { expression } => StatementV::Expression {
            expression: expr_view(expression),
        },
        Statement::VariableAssignment { name, var_type, is_final, value } => {
            StatementV::VariableAssignment {
                name: name@,
                var_type: opt_string_view(var_type),
                is_final,
                value: match value {
                    Some(e) => Some(expr_view(e)),
                    None => None,
                },
            }
        },
    }
}

pub open spec fn stmts_view(ss: Seq<Statement>) -> Seq<StatementV> {
    ss.map_values(|s: Statement| stmt_view(s))
}

impl View for Statement {
    type V = StatementV;

    open spec fn view(&self) -> StatementV {
        stmt_view(*self)
    }
}

impl Statement {
    pub fn new_expression_statement(expression: Expression) -> (s: Statement)
        ensures
            s@ == (StatementV::Expression { expression: expression@ }),
    {
        Statement::Expression { expression }
    }

    pub fn new_var_assignment(
        name: String,
        var_type: Option<String>,
        is_final: bool,
        value: Option<Expression>,
    ) -> (s: Statement)
        ensures
            s@ == (StatementV::VariableAssignment {
                name: name@,
                var_type: opt_string_view(var_type),
                is_final,
                value: match value {
                    Some(e) => Some(e@),
                    None => None,
                },
            }),
    {
        Statement::VariableAssignment { name, var_type, is_final, value }
    }
}

} // verus!
