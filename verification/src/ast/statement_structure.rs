use vstd::prelude::*;

use crate::ast::expression_structure::{
    consume_next_token_if_type, cursor_frame, find_next_expression, grammar_ready,
    lemma_push_drop_last, spec_consume, spec_expression,
};
use crate::ast::parser::AstParser;
use crate::ast::statement::{stmt_view, Statement, StatementV};
use crate::ast::ParseError;
use crate::scanner::token::{tokens_view, tokens_wf, TokenType, TokenV};

verus! {

/// The ordered alternatives of the statement grammar.
#[derive(Copy, Clone, Debug, PartialEq, Eq, Structural)]
pub enum StatementBuilder {
    Assignment,
    Expression,
}

/// An assignment statement: `[type] identifier '=' [expression] ';'`. A
/// second identifier after the first makes the first the declared type. A
/// missing right-hand expression still forms the statement, with no value;
/// the terminator is always required.
pub open spec fn spec_assignment_statement(t: Seq<TokenV>, pos: int) -> Option<(StatementV, int)>
    decreases t.len() - pos, 65int,
{
    match spec_consume(t, pos, TokenType::Identifier) {
        None => None,
        Some(p1) => {
            let second = p1 < t.len() && t[p1].token_type == TokenType::Identifier;
            let type_def = if second {
                Some(t[pos].lexeme.unwrap())
            } else {
                None
            };
            let name = if second {
                t[p1].lexeme.unwrap()
            } else {
                t[pos].lexeme.unwrap()
            };
            let p2 = if second {
                p1 + 1
            } else {
                p1
            };
            match spec_consume(t, p2, TokenType::Equal) {
                None => None,
                Some(p3) => {
                    let value_r = spec_expression(t, p3);
                    let value = match value_r {
                        Some((e, _q)) => Some(e),
                        None => None,
                    };
                    let p4 = match value_r {
                        Some((_e, q)) => q,
                        None => p3,
                    };
                    match spec_consume(t, p4, TokenType::SemiColon) {
                        None => None,
                        Some(p5) => Some(
                            (
                                StatementV::VariableAssignment {
                                    name,
                                    var_type: type_def,
                                    is_final: false,
                                    value,
                                },
                                p5,
                            ),
                        ),
                    }
                },
            }
        },
    }
}

/// A bare expression statement: `expression ';'`.
pub open spec fn spec_expression_statement(t: Seq<TokenV>, pos: int) -> Option<(StatementV, int)>
    decreases t.len() - pos, 55int,
{
    match spec_expression(t, pos) {
        None => None,
        Some((e, p1)) => match spec_consume(t, p1, TokenType::SemiColon) {
            None => None,
            Some(p2) => Some((StatementV::Expression { expression: e }, p2)),
        },
    }
}

/// What the statement grammar parses at `pos`: an assignment statement, else
/// an expression statement.
pub open spec fn spec_statement(t: Seq<TokenV>, pos: int) -> Option<(StatementV, int)>
    decreases t.len() - pos, 70int,
{
    match spec_assignment_statement(t, pos) {
        Some(r) => Some(r),
        None => spec_expression_statement(t, pos),
    }
}

/// The termination weight of one statement alternative.
pub open spec fn statement_weight(s: StatementBuilder) -> nat {
    match s {
        StatementBuilder::Assignment => 66,
        StatementBuilder::Expression => 56,
    }
}

/// What one statement alternative parses at `pos`.
pub open spec fn spec_statement_structure(t: Seq<TokenV>, pos: int, s: StatementBuilder) -> Option<
    (StatementV, int),
>
    decreases t.len() - pos, statement_weight(s),
{
    match s {
        StatementBuilder::Assignment => spec_assignment_statement(t, pos),
        StatementBuilder::Expression => spec_expression_statement(t, pos),
    }
}

/// The contract of each statement alternative: nothing consumed past a
/// failure is kept by the caller's rollback; success lands exactly on the
/// grammar specification.
pub open spec fn statement_alternative_outcome(
    pre: AstParser,
    post: AstParser,
    spec_r: Option<(StatementV, int)>,
    r: Option<Statement>,
) -> bool {
    &&& cursor_frame(pre, post)
    &&& post.position < post.tokens@.len()
    &&& post.wf()
    &&& match spec_r {
        None => r is None,
        Some((sv, p)) => {
            &&& r is Some
            &&& stmt_view(r.unwrap()) == sv
            &&& post.position == p
            &&& pre.position < p
        },
    }
}

impl StatementBuilder {
    /// Tries the two alternatives in priority order, each inside its own
    /// transaction, committing the first that matches.
    pub fn next_statement_from(parser: &mut AstParser) -> (r: Option<Statement>)
        requires
            grammar_ready(*old(parser)),
        ensures
            cursor_frame(*old(parser), *final(parser)),
            final(parser).position < final(parser).tokens@.len(),
            final(parser).wf(),
            match spec_statement(tokens_view(old(parser).tokens@), old(parser).position as int) {
                None => r is None && final(parser).position == old(parser).position,
                Some((sv, p)) => {
                    &&& r is Some
                    &&& stmt_view(r.unwrap()) == sv
                    &&& final(parser).position == p
                    &&& old(parser).position < p
                },
            },
        decreases parser.tokens@.len() - parser.position, 72int,
    {
        broadcast use lemma_push_drop_last;

        parser.start_transaction();
        let r = StatementBuilder::Assignment.optionally_get_statement_from(parser);
        if r.is_some() {
            parser.commit();
            return r;
        }
        parser.rollback();

        parser.start_transaction();
        let r = StatementBuilder::Expression.optionally_get_statement_from(parser);
        if r.is_some() {
            parser.commit();
            return r;
        }
        parser.rollback();

        None
    }

    /// Parses one particular statement alternative at the current position.
    pub fn optionally_get_statement_from(&self, parser: &mut AstParser) -> (r: Option<Statement>)
        requires
            grammar_ready(*old(parser)),
        ensures
            statement_alternative_outcome(
                *old(parser),
                *final(parser),
                spec_statement_structure(tokens_view(old(parser).tokens@), old(parser).position as int, *self),
                r,
            ),
        decreases parser.tokens@.len() - parser.position, statement_weight(*self),
    {
        match self {
            StatementBuilder::Assignment => parse_assignment_statement(parser),
            StatementBuilder::Expression => parse_expression_statement(parser),
        }
    }
}

/// The assignment-statement alternative.
fn parse_assignment_statement(parser: &mut AstParser) -> (r: Option<Statement>)
    requires
        grammar_ready(*old(parser)),
    ensures
        statement_alternative_outcome(
            *old(parser),
            *final(parser),
            spec_assignment_statement(tokens_view(old(parser).tokens@), old(parser).position as int),
            r,
        ),
    decreases parser.tokens@.len() - parser.position, 65int,
{
    let mut name = match consume_next_token_if_type(TokenType::Identifier, parser) {
        Some(tk) => tk,
        None => {
            return None;
        },
    };
    let mut type_def: Option<String> = None;
    if parser.is_next_token(TokenType::Identifier) {
        type_def = Some(name.lexeme().clone());
        name = match consume_next_token_if_type(TokenType::Identifier, parser) {
            Some(tk) => tk,
            None => {
                proof {
                    assert(false);
                }
                return None;
            },
        };
    }
    if consume_next_token_if_type(TokenType::Equal, parser).is_none() {
        return None;
    }
    let value = find_next_expression(parser);
    let statement = Statement::new_var_assignment(name.lexeme().clone(), type_def, false, value);
    if consume_next_token_if_type(TokenType::SemiColon, parser).is_none() {
        return None;
    }
    Some(statement)
}

/// The expression-statement alternative.
fn parse_expression_statement(parser: &mut AstParser) -> (r: Option<Statement>)
    requires
        grammar_ready(*old(parser)),
    ensures
        statement_alternative_outcome(
            *old(parser),
            *final(parser),
            spec_expression_statement(tokens_view(old(parser).tokens@), old(parser).position as int),
            r,
        ),
    decreases parser.tokens@.len() - parser.position, 55int,
{
    let expression = match find_next_expression(parser) {
        Some(e) => e,
        None => {
            return None;
        },
    };
    let statement = Statement::new_expression_statement(expression);
    if consume_next_token_if_type(TokenType::SemiColon, parser).is_none() {
        return None;
    }
    Some(statement)
}

/// The statement grammar's entry point, in transactional mode for the whole
/// attempt. A position where no statement alternative matches is a hard parse
/// failure, reported with the cursor restored to that position.
pub fn find_next_statement(parser: &mut AstParser) -> (r: Result<Statement, ParseError>)
    requires
        tokens_wf(tokens_view(old(parser).tokens@)),
        old(parser).position < old(parser).tokens@.len(),
        old(parser).auto_commit,
        old(parser).transaction_positions@.len() == 0,
        old(parser).wf(),
    ensures
        cursor_frame(*old(parser), *final(parser)),
        final(parser).position < final(parser).tokens@.len(),
        final(parser).wf(),
        match spec_statement(tokens_view(old(parser).tokens@), old(parser).position as int) {
            None => {
                &&& r == Err::<Statement, ParseError>(
                    ParseError::MalformedStatement { position: old(parser).position },
                )
                &&& final(parser).position == old(parser).position
            },
            Some((sv, p)) => {
                &&& r is Ok
                &&& stmt_view(r.unwrap()) == sv
                &&& final(parser).position == p
                &&& old(parser).position < p
            },
        },
    decreases parser.tokens@.len() - parser.position, 73int,
{
    broadcast use lemma_push_drop_last;

    let failed_at = parser.position;
    parser.auto_commit(false);
    parser.start_transaction();
    match StatementBuilder::next_statement_from(parser) {
        Some(statement) => {
            parser.commit();
            parser.auto_commit(true);
            Ok(statement)
        },
        None => {
            parser.rollback();
            parser.auto_commit(true);
            Err(ParseError::MalformedStatement { position: failed_at })
        },
    }
}

} // verus!
