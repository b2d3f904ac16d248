use vstd::prelude::*;

use crate::ast::expression_structure::cursor_frame;
use crate::ast::parser::AstParser;
use crate::ast::statement::{stmt_view, stmts_view, Statement, StatementV};
use crate::ast::statement_structure::{find_next_statement, spec_statement};
use crate::ast::ParseError;
use crate::scanner::token::{tokens_view, tokens_wf, TokenType, TokenV};

verus! {

/// What collecting statements until the closing brace yields: the parsed
/// statements and the position of the brace (or of the end of the tokens),
/// or the first statement's parse failure.
pub open spec fn spec_statements(t: Seq<TokenV>, pos: int) -> Result<(Seq<StatementV>, int), ParseError>
    decreases t.len() - pos, 80int,
{
    if pos < 0 || pos >= t.len() {
        Ok((Seq::empty(), pos))
    } else if t[pos].token_type == TokenType::RightBrace {
        Ok((Seq::empty(), pos))
    } else {
        match spec_statement(t, pos) {
            None => Err(ParseError::MalformedStatement { position: pos as usize }),
            Some((s, p)) => if pos < p <= t.len() {
                match spec_statements(t, p) {
                    Err(e) => Err(e),
                    Ok((rest, q)) => Ok((seq![s] + rest, q)),
                }
            } else {
                Err(ParseError::MalformedStatement { position: pos as usize })
            },
        }
    }
}

/// Collects the statements of one method body, until the body's closing
/// brace.
pub struct AstStatementBuilder {
    pub statements: Vec<Statement>,
}

impl AstStatementBuilder {
    pub fn new() -> (b: AstStatementBuilder)
        ensures
            b.statements@ == Seq::<Statement>::empty(),
    {
        AstStatementBuilder { statements: Vec::new() }
    }

    /// Parses statements until the method body's closing brace (or the end
    /// of the tokens) and appends them, in order, to the collected list.
    #[verifier::loop_isolation(false)]
    pub fn build(&mut self, parser: &mut AstParser) -> (r: Result<(), ParseError>)
        requires
            tokens_wf(tokens_view(old(parser).tokens@)),
            old(parser).position <= old(parser).tokens@.len(),
            old(parser).auto_commit,
            old(parser).transaction_positions@.len() == 0,
            old(parser).wf(),
        ensures
            cursor_frame(*old(parser), *final(parser)),
            final(parser).wf(),
            final(parser).auto_commit,
            final(parser).transaction_positions@.len() == 0,
            old(parser).position <= final(parser).position,
            final(parser).position <= final(parser).tokens@.len(),
            match spec_statements(
                tokens_view(old(parser).tokens@),
                old(parser).position as int,
            ) {
                Ok((ss, p)) => {
                    &&& r is Ok
                    &&& stmts_view(final(self).statements@) == stmts_view(old(self).statements@)
                        + ss
                    &&& final(parser).position == p
                },
                Err(e) => r == Err::<(), ParseError>(e),
            },
    {
        let ghost t = tokens_view(parser.tokens@);
        let ghost pos0 = parser.position as int;
        let ghost mut done: Seq<StatementV> = Seq::empty();
        proof {
            assert(stmts_view(self.statements@) + done =~= stmts_view(self.statements@));
        }
        loop
            invariant
                tokens_wf(tokens_view(parser.tokens@)),
                parser.position <= parser.tokens@.len(),
                parser.auto_commit,
                parser.transaction_positions@.len() == 0,
                parser.wf(),
                cursor_frame(*old(parser), *parser),
                t == tokens_view(parser.tokens@),
                pos0 <= parser.position as int,
                stmts_view(self.statements@) == stmts_view(old(self).statements@) + done,
                spec_statements(t, pos0) == (match spec_statements(t, parser.position as int) {
                    Err(e) => Err::<(Seq<StatementV>, int), ParseError>(e),
                    Ok((rest, p)) => Ok((done + rest, p)),
                }),
            decreases t.len() - parser.position,
        {
            if !(parser.has_more_tokens() && !parser.is_next_token(TokenType::RightBrace)) {
                break;
            }
            let ghost stmts_pre = self.statements@;
            let ghost done_pre = done;
            match find_next_statement(parser) {
                Ok(statement) => {
                    self.statements.push(statement);
                    proof {
                        done = done.push(stmt_view(statement));
                        assert(stmts_view(stmts_pre.push(statement)) =~= stmts_view(
                            stmts_pre,
                        ).push(stmt_view(statement)));
                        assert(stmts_view(old(self).statements@) + done =~= (stmts_view(
                            old(self).statements@,
                        ) + done_pre).push(stmt_view(statement)));
                        if let Ok((rest, p)) = spec_statements(t, parser.position as int) {
                            assert(done_pre + (seq![stmt_view(statement)] + rest) =~= done + rest);
                        }
                    }
                },
                Err(e) => {
                    return Err(e);
                },
            }
        }
        proof {
            let endp = parser.position as int;
            assert(spec_statements(t, endp) == Ok::<(Seq<StatementV>, int), ParseError>(
                (Seq::empty(), endp),
            ));
            assert(done + Seq::<StatementV>::empty() =~= done);
        }
        Ok(())
    }

    /// Hands the collected statements out.
    pub fn statements(self) -> (r: Vec<Statement>)
        ensures
            r == self.statements,
    {
        self.statements
    }
}

} // verus!
