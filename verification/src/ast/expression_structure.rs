use vstd::prelude::*;

use crate::ast::expression::{expr_view, exprs_view, lemma_exprs_view, Expression, ExpressionV};
use crate::ast::parser::AstParser;
use crate::scanner::token::{tokens_view, tokens_wf, Token, TokenType, TokenV};

verus! {

/// Pushing a save point and popping it again leaves the stack as it was.
pub broadcast proof fn lemma_push_drop_last<A>(s: Seq<A>, x: A)
    ensures
        #[trigger] s.push(x).drop_last() == s,
{
    assert(s.push(x).drop_last() =~= s);
}

/// The ordered alternatives of the expression grammar, tried by transactional
/// backtracking in declaration order.
#[derive(Copy, Clone, Debug, PartialEq, Eq, Structural)]
pub enum ExpressionStructure {
    ObjectExpression,
    Call,
    Identifier,
    StringLiteral,
}

/// The cursor's token sequence, transaction stack and auto-commit flag are
/// exactly what they were: only the position may have moved.
pub open spec fn cursor_frame(a: AstParser, b: AstParser) -> bool {
    &&& b.tokens == a.tokens
    &&& b.transaction_positions@ == a.transaction_positions@
    &&& b.auto_commit == a.auto_commit
}

/// The cursor state every grammar function expects: well-formed tokens, a
/// position on an unconsumed token, and transactional mode.
pub open spec fn grammar_ready(p: AstParser) -> bool {
    &&& tokens_wf(tokens_view(p.tokens@))
    &&& p.position < p.tokens@.len()
    &&& !p.auto_commit
    &&& p.wf()
}

/// What consuming one token of kind `tt` at `pos` yields: the next position,
/// or nothing when the position does not hold such a token.
pub open spec fn spec_consume(t: Seq<TokenV>, pos: int, tt: TokenType) -> Option<int> {
    if 0 <= pos < t.len() && t[pos].token_type == tt {
        Some(pos + 1)
    } else {
        None
    }
}

/// A bare identifier parses as a static identifier reference.
pub open spec fn spec_identifier(t: Seq<TokenV>, pos: int) -> Option<(ExpressionV, int)> {
    match spec_consume(t, pos, TokenType::Identifier) {
        Some(p) => Some(
            (ExpressionV::StaticIdentifier { name: t[pos].lexeme.unwrap() }, p),
        ),
        None => None,
    }
}

/// A string token parses as a string literal carrying its decoded value.
pub open spec fn spec_string_literal(t: Seq<TokenV>, pos: int) -> Option<(ExpressionV, int)> {
    match spec_consume(t, pos, TokenType::StringLiteral) {
        Some(p) => Some(
            (ExpressionV::StringLiteral { value: t[pos].literal.unwrap() }, p),
        ),
        None => None,
    }
}

/// A call: `identifier '(' arguments ')'`.
pub open spec fn spec_call(t: Seq<TokenV>, pos: int) -> Option<(ExpressionV, int)>
    decreases t.len() - pos, 8int,
{
    match spec_consume(t, pos, TokenType::Identifier) {
        None => None,
        Some(p1) => match spec_consume(t, p1, TokenType::LeftParen) {
            None => None,
            Some(p2) => match spec_call_args(t, p2) {
                None => None,
                Some((args, p3)) => Some(
                    (ExpressionV::Call { method_name: t[pos].lexeme.unwrap(), arguments: args }, p3),
                ),
            },
        },
    }
}

/// Call arguments: expressions until the closing parenthesis, each optionally
/// followed by a comma. The result position is just past the `)`.
pub open spec fn spec_call_args(t: Seq<TokenV>, pos: int) -> Option<(Seq<ExpressionV>, int)>
    decreases t.len() - pos, 60int,
{
    if pos < 0 || pos >= t.len() {
        None
    } else if t[pos].token_type == TokenType::RightParen {
        Some((Seq::empty(), pos + 1))
    } else {
        match spec_expression(t, pos) {
            None => None,
            Some((arg, p1)) => if pos < p1 <= t.len() {
                let p2 = if p1 < t.len() && t[p1].token_type == TokenType::Comma {
                    p1 + 1
                } else {
                    p1
                };
                match spec_call_args(t, p2) {
                    None => None,
                    Some((rest, p3)) => Some((seq![arg] + rest, p3)),
                }
            } else {
                None
            },
        }
    }
}

/// An object chain: an identifier-or-call parent (tried in that order), a
/// dot, then any expression as the child, which right-associates longer
/// chains.
pub open spec fn spec_object_expression(t: Seq<TokenV>, pos: int) -> Option<(ExpressionV, int)>
    decreases t.len() - pos, 24int,
{
    let parent_r = match spec_identifier(t, pos) {
        Some(r) => Some(r),
        None => spec_call(t, pos),
    };
    match parent_r {
        None => None,
        Some((parent, p1)) => match spec_consume(t, p1, TokenType::Dot) {
            None => None,
            Some(p2) => if pos < p2 <= t.len() {
                match spec_expression(t, p2) {
                    None => None,
                    Some((child, p3)) => Some(
                        (
                            ExpressionV::ObjectExpression {
                                parent: Box::new(parent),
                                child: Box::new(child),
                            },
                            p3,
                        ),
                    ),
                }
            } else {
                None
            },
        },
    }
}

/// The termination weight of one alternative.
pub open spec fn structure_weight(s: ExpressionStructure) -> nat {
    match s {
        ExpressionStructure::ObjectExpression => 30,
        ExpressionStructure::Call => 9,
        ExpressionStructure::Identifier => 4,
        ExpressionStructure::StringLiteral => 4,
    }
}

/// The termination weight of an alternative list.
pub open spec fn structures_weight(ss: Seq<ExpressionStructure>) -> nat
    decreases ss.len(),
{
    if ss.len() == 0 {
        0
    } else {
        structure_weight(ss[0]) + 1 + structures_weight(ss.drop_first())
    }
}

pub proof fn lemma_structures_weight(ss: Seq<ExpressionStructure>)
    ensures
        forall|i: int|
            0 <= i < ss.len() ==> structure_weight(#[trigger] ss[i]) < structures_weight(ss),
    decreases ss.len(),
{
    if ss.len() > 0 {
        lemma_structures_weight(ss.drop_first());
        assert forall|i: int|
            0 <= i < ss.len() implies structure_weight(#[trigger] ss[i]) < structures_weight(
            ss,
        ) by {
            if i > 0 {
                assert(ss.drop_first()[i - 1] == ss[i]);
            }
        }
    }
}

/// What one alternative parses at `pos`.
pub open spec fn spec_structure(t: Seq<TokenV>, pos: int, s: ExpressionStructure) -> Option<
    (ExpressionV, int),
>
    decreases t.len() - pos, structure_weight(s),
{
    match s {
        ExpressionStructure::ObjectExpression => spec_object_expression(t, pos),
        ExpressionStructure::Call => spec_call(t, pos),
        ExpressionStructure::Identifier => spec_identifier(t, pos),
        ExpressionStructure::StringLiteral => spec_string_literal(t, pos),
    }
}

/// First-match semantics over an ordered list of alternatives: exactly the
/// backtracking loop, where a failed alternative leaves the position alone.
pub open spec fn spec_try_structures(
    t: Seq<TokenV>,
    pos: int,
    ss: Seq<ExpressionStructure>,
) -> Option<(ExpressionV, int)>
    decreases t.len() - pos, structures_weight(ss),
{
    if ss.len() == 0 {
        None
    } else {
        match spec_structure(t, pos, ss[0]) {
            Some(r) => Some(r),
            None => spec_try_structures(t, pos, ss.drop_first()),
        }
    }
}

/// What the full expression grammar parses at `pos`: the first of
/// object-chain, call, identifier, string literal that matches.
pub open spec fn spec_expression(t: Seq<TokenV>, pos: int) -> Option<(ExpressionV, int)>
    decreases t.len() - pos, 51int,
{
    match spec_object_expression(t, pos) {
        Some(r) => Some(r),
        None => match spec_call(t, pos) {
            Some(r) => Some(r),
            None => match spec_identifier(t, pos) {
                Some(r) => Some(r),
                None => spec_string_literal(t, pos),
            },
        },
    }
}

/// The contract every expression-parsing entry point meets: on failure the
/// position is exactly where it was (the backtracking invariant); on success
/// the returned expression and the new position are the ones the grammar
/// specification gives.
pub open spec fn expression_outcome(
    pre: AstParser,
    post: AstParser,
    spec_r: Option<(ExpressionV, int)>,
    r: Option<Expression>,
) -> bool {
    &&& cursor_frame(pre, post)
    &&& post.position < post.tokens@.len()
    &&& post.wf()
    &&& match spec_r {
        None => r is None && post.position == pre.position,
        Some((ev, p)) => {
            &&& r is Some
            &&& expr_view(r.unwrap()) == ev
            &&& post.position == p
            &&& pre.position < p
        },
    }
}

/// The same, without the transaction bookkeeping: what each single
/// alternative guarantees (its caller owns the enclosing transaction).
pub open spec fn alternative_outcome(
    pre: AstParser,
    post: AstParser,
    spec_r: Option<(ExpressionV, int)>,
    r: Option<Expression>,
) -> bool {
    &&& cursor_frame(pre, post)
    &&& post.position < post.tokens@.len()
    &&& post.wf()
    &&& match spec_r {
        None => r is None,
        Some((ev, p)) => {
            &&& r is Some
            &&& expr_view(r.unwrap()) == ev
            &&& post.position == p
            &&& pre.position < p
        },
    }
}

/// Consumes the next token exactly when it has the expected kind.
pub fn consume_next_token_if_type(expected_token_type: TokenType, parser: &mut AstParser) -> (r:
    Option<Token>)
    ensures
        cursor_frame(*old(parser), *final(parser)),
        old(parser).wf() ==> final(parser).wf(),
        match spec_consume(
            tokens_view(old(parser).tokens@),
            old(parser).position as int,
            expected_token_type,
        ) {
            None => {
                &&& r is None
                &&& final(parser).position == old(parser).position
            },
            Some(p) => {
                &&& r == Some(old(parser).tokens@[old(parser).position as int])
                &&& final(parser).position == p
            },
        },
        tokens_wf(tokens_view(old(parser).tokens@)) && expected_token_type != TokenType::Eof && r
            is Some ==> final(parser).position < final(parser).tokens@.len(),
{
    if parser.has_more_tokens() && parser.is_next_token(expected_token_type) {
        let t = parser.next_token();
        proof {
            if tokens_wf(tokens_view(old(parser).tokens@)) && expected_token_type
                != TokenType::Eof {
                let ts = tokens_view(old(parser).tokens@);
                let p = old(parser).position as int;
                assert(ts[p] == old(parser).tokens@[p]@);
                assert(ts[p].token_type != TokenType::Eof);
                assert(ts.last() == ts[ts.len() - 1]);
                assert(p != ts.len() - 1);
            }
        }
        Some(t)
    } else {
        None
    }
}

impl ExpressionStructure {
    /// Tries the four alternatives in priority order, each inside its own
    /// transaction, committing the first that matches and rolling the cursor
    /// back after each one that does not.
    pub fn next_expression_from_parser(parser: &mut AstParser) -> (r: Option<Expression>)
        requires
            grammar_ready(*old(parser)),
        ensures
            expression_outcome(
                *old(parser),
                *final(parser),
                spec_expression(tokens_view(old(parser).tokens@), old(parser).position as int),
                r,
            ),
        decreases parser.tokens@.len() - parser.position, 52int,
    {
        broadcast use lemma_push_drop_last;

        parser.start_transaction();
        let r = ExpressionStructure::ObjectExpression.optionally_get_expression_from(parser);
        if r.is_some() {
            parser.commit();
            return r;
        }
        parser.rollback();

        parser.start_transaction();
        let r = ExpressionStructure::Call.optionally_get_expression_from(parser);
        if r.is_some() {
            parser.commit();
            return r;
        }
        parser.rollback();

        parser.start_transaction();
        let r = ExpressionStructure::Identifier.optionally_get_expression_from(parser);
        if r.is_some() {
            parser.commit();
            return r;
        }
        parser.rollback();

        parser.start_transaction();
        let r = ExpressionStructure::StringLiteral.optionally_get_expression_from(parser);
        if r.is_some() {
            parser.commit();
            return r;
        }
        parser.rollback();

        None
    }

    /// Tries only the given alternatives, in the given order.
    #[verifier::loop_isolation(false)]
    pub fn next_expression_from_parser_within_range(
        parser: &mut AstParser,
        within: Vec<ExpressionStructure>,
    ) -> (r: Option<Expression>)
        requires
            grammar_ready(*old(parser)),
        ensures
            expression_outcome(
                *old(parser),
                *final(parser),
                spec_try_structures(tokens_view(old(parser).tokens@), old(parser).position as int, within@),
                r,
            ),
        decreases parser.tokens@.len() - parser.position, structures_weight(within@),
    {
        broadcast use lemma_push_drop_last;

        proof {
            lemma_structures_weight(within@);
        }
        let ghost pre = *parser;
        let ghost t = tokens_view(parser.tokens@);
        let ghost pos0 = parser.position as int;
        let n = within.len();
        proof {
            assert(within@.skip(0) =~= within@);
        }
        for i in 0..n
            invariant
                grammar_ready(*parser),
                cursor_frame(pre, *parser),
                parser.position as int == pos0,
                t == tokens_view(parser.tokens@),
                n == within@.len(),
                forall|j: int|
                    0 <= j < within@.len() ==> structure_weight(#[trigger] within@[j])
                        < structures_weight(within@),
                spec_try_structures(t, pos0, within@) == spec_try_structures(
                    t,
                    pos0,
                    within@.skip(i as int),
                ),
        {
            proof {
                assert(within@.skip(i as int)[0] == within@[i as int]);
                assert(within@.skip(i as int).drop_first() =~= within@.skip(i + 1));
            }
            parser.start_transaction();
            let r = within[i].optionally_get_expression_from(parser);
            if r.is_some() {
                parser.commit();
                return r;
            }
            parser.rollback();
        }
        proof {
            assert(within@.skip(n as int) =~= Seq::<ExpressionStructure>::empty());
        }
        None
    }

    /// Parses one particular alternative at the current position.
    pub fn optionally_get_expression_from(&self, parser: &mut AstParser) -> (r: Option<Expression>)
        requires
            grammar_ready(*old(parser)),
        ensures
            alternative_outcome(
                *old(parser),
                *final(parser),
                spec_structure(tokens_view(old(parser).tokens@), old(parser).position as int, *self),
                r,
            ),
        decreases parser.tokens@.len() - parser.position, structure_weight(*self),
    {
        match self {
            ExpressionStructure::ObjectExpression => parse_object_expression(parser),
            ExpressionStructure::Call => parse_call(parser),
            ExpressionStructure::Identifier => parse_identifier(parser),
            ExpressionStructure::StringLiteral => parse_string_literal(parser),
        }
    }
}

/// The object-chain alternative: `identifier-or-call '.' expression`.
fn parse_object_expression(parser: &mut AstParser) -> (r: Option<Expression>)
    requires
        grammar_ready(*old(parser)),
    ensures
        alternative_outcome(
            *old(parser),
            *final(parser),
            spec_object_expression(tokens_view(old(parser).tokens@), old(parser).position as int),
            r,
        ),
    decreases parser.tokens@.len() - parser.position, 26int,
{
    let ghost t = tokens_view(parser.tokens@);
    let ghost pos0 = parser.position as int;
    let mut within: Vec<ExpressionStructure> = Vec::new();
    within.push(ExpressionStructure::Identifier);
    within.push(ExpressionStructure::Call);
    proof {
        let ghost ss = seq![ExpressionStructure::Identifier, ExpressionStructure::Call];
        assert(within@ =~= ss);
        assert(ss.drop_first() =~= seq![ExpressionStructure::Call]);
        assert(seq![ExpressionStructure::Call].drop_first() =~= Seq::<
            ExpressionStructure,
        >::empty());
        assert(structures_weight(Seq::<ExpressionStructure>::empty()) == 0);
        assert(structures_weight(seq![ExpressionStructure::Call]) == 10);
        assert(structures_weight(ss) == 15);
        // The fixed two-alternative list has first-match semantics
        // `identifier, else call`.
        assert(spec_try_structures(t, pos0, ss) == (match spec_identifier(t, pos0) {
            Some(r_) => Some(r_),
            None => spec_call(t, pos0),
        })) by {
            reveal_with_fuel(spec_try_structures, 4);
        }
    }
    let parent = match ExpressionStructure::next_expression_from_parser_within_range(
        parser,
        within,
    ) {
        Some(p) => p,
        None => {
            return None;
        },
    };
    if consume_next_token_if_type(TokenType::Dot, parser).is_none() {
        return None;
    }
    let child = match ExpressionStructure::next_expression_from_parser(parser) {
        Some(c) => c,
        None => {
            return None;
        },
    };
    Some(Expression::new_object_expression(parent, child))
}

/// The call alternative: `identifier '(' arguments ')'`.
#[verifier::loop_isolation(false)]
fn parse_call(parser: &mut AstParser) -> (r: Option<Expression>)
    requires
        grammar_ready(*old(parser)),
    ensures
        alternative_outcome(
            *old(parser),
            *final(parser),
            spec_call(tokens_view(old(parser).tokens@), old(parser).position as int),
            r,
        ),
    decreases parser.tokens@.len() - parser.position, 7int,
{
    let ghost pre = *parser;
    let ghost t = tokens_view(parser.tokens@);
    let ghost pos0 = parser.position as int;
    let method_name = match consume_next_token_if_type(TokenType::Identifier, parser) {
        Some(tk) => tk,
        None => {
            return None;
        },
    };
    if consume_next_token_if_type(TokenType::LeftParen, parser).is_none() {
        return None;
    }
    let ghost args_pos = parser.position as int;

    let mut args: Vec<Expression> = Vec::new();
    proof {
        assert(exprs_view(args@) =~= Seq::<ExpressionV>::empty());
        if let Some((rest, p)) = spec_call_args(t, args_pos) {
            assert(exprs_view(args@) + rest =~= rest);
        }
    }
    loop
        invariant
            grammar_ready(*parser),
            cursor_frame(pre, *parser),
            t == tokens_view(parser.tokens@),
            args_pos <= parser.position as int,
            spec_call_args(t, args_pos) == (match spec_call_args(t, parser.position as int) {
                None => None::<(Seq<ExpressionV>, int)>,
                Some((rest, p)) => Some((exprs_view(args@) + rest, p)),
            }),
        decreases t.len() - parser.position,
    {
        if parser.is_next_token(TokenType::RightParen) {
            break;
        }
        let ghost iter_pos = parser.position as int;
        let ghost args_pre = args@;
        let arg = match ExpressionStructure::next_expression_from_parser(parser) {
            Some(a) => a,
            None => {
                return None;
            },
        };
        args.push(arg);
        if parser.is_next_token(TokenType::Comma) {
            if consume_next_token_if_type(TokenType::Comma, parser).is_none() {
                proof {
                    assert(false);
                }
                return None;
            }
        }
        proof {
            lemma_exprs_view(args_pre);
            lemma_exprs_view(args_pre.push(arg));
            assert(exprs_view(args_pre.push(arg)) =~= exprs_view(args_pre) + seq![expr_view(arg)]);
            if let Some((rest, p)) = spec_call_args(t, parser.position as int) {
                assert(exprs_view(args_pre) + (seq![expr_view(arg)] + rest) =~= exprs_view(
                    args_pre.push(arg),
                ) + rest);
            }
        }
    }
    let ghost end_pos = parser.position as int;
    proof {
        assert(spec_call_args(t, end_pos) == Some((Seq::<ExpressionV>::empty(), end_pos + 1)));
        assert(exprs_view(args@) + Seq::<ExpressionV>::empty() =~= exprs_view(args@));
    }
    if consume_next_token_if_type(TokenType::RightParen, parser).is_none() {
        proof {
            assert(false);
        }
        return None;
    }
    let name = method_name.lexeme().clone();
    Some(Expression::new_call(name, args))
}

/// The bare-identifier alternative.
fn parse_identifier(parser: &mut AstParser) -> (r: Option<Expression>)
    requires
        grammar_ready(*old(parser)),
    ensures
        alternative_outcome(
            *old(parser),
            *final(parser),
            spec_identifier(tokens_view(old(parser).tokens@), old(parser).position as int),
            r,
        ),
{
    let identifier = match consume_next_token_if_type(TokenType::Identifier, parser) {
        Some(tk) => tk,
        None => {
            return None;
        },
    };
    Some(Expression::new_static_identifier(identifier.lexeme().clone()))
}

/// The string-literal alternative.
fn parse_string_literal(parser: &mut AstParser) -> (r: Option<Expression>)
    requires
        grammar_ready(*old(parser)),
    ensures
        alternative_outcome(
            *old(parser),
            *final(parser),
            spec_string_literal(tokens_view(old(parser).tokens@), old(parser).position as int),
            r,
        ),
{
    let token = match consume_next_token_if_type(TokenType::StringLiteral, parser) {
        Some(tk) => tk,
        None => {
            return None;
        },
    };
    Some(Expression::new_string_literal(token.literal().text().clone()))
}

/// The expression grammar's entry point: one expression, or nothing with the
/// cursor position exactly where it was.
pub fn find_next_expression(parser: &mut AstParser) -> (r: Option<Expression>)
    requires
        grammar_ready(*old(parser)),
    ensures
        expression_outcome(
            *old(parser),
            *final(parser),
            spec_expression(tokens_view(old(parser).tokens@), old(parser).position as int),
            r,
        ),
    decreases parser.tokens@.len() - parser.position, 53int,
{
    ExpressionStructure::next_expression_from_parser(parser)
}

} // verus!
