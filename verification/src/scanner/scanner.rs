use vstd::prelude::*;

use crate::scanner::token::{tokens_view, tokens_wf, Literal, Token, TokenType, TokenV};

verus! {

pub open spec fn is_newline_char(c: char) -> bool {
    c == '\n'
}

pub open spec fn is_whitespace_char(c: char) -> bool {
    c == ' ' || c == '\r' || c == '\t'
}

pub open spec fn is_alpha_char(c: char) -> bool {
    ('a' <= c && c <= 'z') || ('A' <= c && c <= 'Z') || c == '_'
}

pub open spec fn is_digit_char(c: char) -> bool {
    '0' <= c && c <= '9'
}

pub open spec fn is_alpha_numeric_char(c: char) -> bool {
    is_alpha_char(c) || is_digit_char(c)
}

/// The kind a single-character token has, if the character forms one.
pub open spec fn single_char_token(c: char) -> Option<TokenType> {
    match c {
        '(' => Some(TokenType::LeftParen),
        ')' => Some(TokenType::RightParen),
        '{' => Some(TokenType::LeftBrace),
        '}' => Some(TokenType::RightBrace),
        '[' => Some(TokenType::LeftSquareBracket),
        ']' => Some(TokenType::RightSquareBracket),
        ';' => Some(TokenType::SemiColon),
        '.' => Some(TokenType::Dot),
        ',' => Some(TokenType::Comma),
        '=' => Some(TokenType::Equal),
        _ => None,
    }
}

/// The kind a word has: a reserved keyword, or an identifier.
pub open spec fn keyword_for(lex: Seq<char>) -> TokenType {
    if lex == "class"@ {
        TokenType::Class
    } else if lex == "public"@ {
        TokenType::Public
    } else if lex == "private"@ {
        TokenType::Private
    } else if lex == "static"@ {
        TokenType::Static
    } else {
        TokenType::Identifier
    }
}

/// The position of the closing quote at or after `j`, if any.
pub open spec fn spec_string_end(s: Seq<char>, j: int) -> Option<int>
    decreases s.len() - j,
{
    if j < 0 || j >= s.len() {
        None
    } else if s[j] == '"' {
        Some(j)
    } else {
        spec_string_end(s, j + 1)
    }
}

/// The first position at or after `j` that no longer belongs to a word.
pub open spec fn spec_ident_end(s: Seq<char>, j: int) -> int
    decreases s.len() - j,
{
    if j < 0 || j >= s.len() {
        j
    } else if is_alpha_numeric_char(s[j]) {
        spec_ident_end(s, j + 1)
    } else {
        j
    }
}

/// The end-of-file sentinel at position `p`.
pub open spec fn eof_token(p: int) -> TokenV {
    TokenV { token_type: TokenType::Eof, lexeme: None, literal: None, start: p, end: p }
}

/// What scanning the rest of `s` from `pos` yields. Whitespace separates
/// tokens; a string literal runs to the next quote (an unterminated one is
/// dropped and ends the scan); a word is a keyword or an identifier; any
/// other character is skipped.
pub open spec fn spec_scan_loop(s: Seq<char>, pos: int) -> Seq<TokenV>
    decreases s.len() - pos,
{
    if pos < 0 || pos >= s.len() {
        seq![eof_token(s.len() as int)]
    } else {
        let c = s[pos];
        if is_newline_char(c) || is_whitespace_char(c) {
            spec_scan_loop(s, pos + 1)
        } else if single_char_token(c) is Some {
            seq![
                TokenV {
                    token_type: single_char_token(c).unwrap(),
                    lexeme: Some(s.subrange(pos, pos + 1)),
                    literal: None,
                    start: pos,
                    end: pos + 1,
                },
            ] + spec_scan_loop(s, pos + 1)
        } else if c == '"' {
            match spec_string_end(s, pos + 1) {
                None => seq![eof_token(s.len() as int)],
                Some(j) => if pos < j < s.len() {
                    seq![
                        TokenV {
                            token_type: TokenType::StringLiteral,
                            lexeme: Some(s.subrange(pos, j + 1)),
                            literal: Some(s.subrange(pos + 1, j)),
                            start: pos,
                            end: j + 1,
                        },
                    ] + spec_scan_loop(s, j + 1)
                } else {
                    seq![eof_token(s.len() as int)]
                },
            }
        } else if is_alpha_char(c) {
            let j = spec_ident_end(s, pos + 1);
            if pos < j <= s.len() {
                seq![
                    TokenV {
                        token_type: keyword_for(s.subrange(pos, j)),
                        lexeme: Some(s.subrange(pos, j)),
                        literal: None,
                        start: pos,
                        end: j,
                    },
                ] + spec_scan_loop(s, j)
            } else {
                seq![eof_token(s.len() as int)]
            }
        } else {
            spec_scan_loop(s, pos + 1)
        }
    }
}

/// What scanning a whole source yields.
pub open spec fn spec_scan(s: Seq<char>) -> Seq<TokenV> {
    spec_scan_loop(s, 0)
}

/// What the scanner produces is a well-formed token sequence: payloads
/// present, one end-of-file sentinel, at the end.
pub proof fn lemma_spec_scan_loop_wf(s: Seq<char>, pos: int)
    ensures
        tokens_wf(spec_scan_loop(s, pos)),
    decreases s.len() - pos,
{
    let r = spec_scan_loop(s, pos);
    if pos < 0 || pos >= s.len() {
    } else {
        let c = s[pos];
        if is_newline_char(c) || is_whitespace_char(c) {
            lemma_spec_scan_loop_wf(s, pos + 1);
        } else if single_char_token(c) is Some {
            lemma_spec_scan_loop_wf(s, pos + 1);
            let rest = spec_scan_loop(s, pos + 1);
            assert(r.last() == rest.last());
            assert(forall|i: int| 0 <= i < rest.len() ==> #[trigger] rest[i] == r[i + 1]);
        } else if c == '"' {
            match spec_string_end(s, pos + 1) {
                None => {},
                Some(j) => {
                    if pos < j < s.len() {
                        lemma_spec_scan_loop_wf(s, j + 1);
                        let rest = spec_scan_loop(s, j + 1);
                        assert(r.last() == rest.last());
                        assert(forall|i: int|
                            0 <= i < rest.len() ==> #[trigger] rest[i] == r[i + 1]);
                    }
                },
            }
        } else if is_alpha_char(c) {
            let j = spec_ident_end(s, pos + 1);
            if pos < j <= s.len() {
                lemma_spec_scan_loop_wf(s, j);
                let rest = spec_scan_loop(s, j);
                assert(r.last() == rest.last());
                assert(forall|i: int| 0 <= i < rest.len() ==> #[trigger] rest[i] == r[i + 1]);
            }
        } else {
            lemma_spec_scan_loop_wf(s, pos + 1);
        }
    }
}

/// Scans a whole source text into its token sequence.
pub fn scan(source: &str) -> (r: Vec<Token>)
    ensures
        tokens_view(r@) == spec_scan(source@),
        tokens_wf(tokens_view(r@)),
{
    let mut scanner = Scanner::for_source(source);
    scanner.scan_tokens();
    proof {
        lemma_spec_scan_loop_wf(source@, 0);
    }
    scanner.tokens()
}

fn exec_single_char_token(c: char) -> (r: Option<TokenType>)
    ensures
        r == single_char_token(c),
{
    match c {
        '(' => Some(TokenType::LeftParen),
        ')' => Some(TokenType::RightParen),
        '{' => Some(TokenType::LeftBrace),
        '}' => Some(TokenType::RightBrace),
        '[' => Some(TokenType::LeftSquareBracket),
        ']' => Some(TokenType::RightSquareBracket),
        ';' => Some(TokenType::SemiColon),
        '.' => Some(TokenType::Dot),
        ',' => Some(TokenType::Comma),
        '=' => Some(TokenType::Equal),
        _ => None,
    }
}

/// The character-level lexer: walks the source left to right, producing one
/// token per construct and a closing end-of-file sentinel. Positions are
/// character offsets into the source.
pub struct Scanner<'a> {
    pub source: &'a str,
    pub token_start: usize,
    pub current_position: usize,
    pub end: usize,
    pub tokens: Vec<Token>,
}

impl<'a> Scanner<'a> {
    /// The cached end is the source's character length, and both cursors
    /// stay inside it.
    pub open spec fn wf(&self) -> bool {
        &&& self.end == self.source@.len()
        &&& self.current_position <= self.end
        &&& self.token_start <= self.current_position
    }

    pub fn for_source(source: &'a str) -> (s: Scanner<'a>)
        ensures
            s.wf(),
            s.source@ == source@,
            s.current_position == 0,
            s.tokens@ == Seq::<Token>::empty(),
    {
        let end = source.unicode_len();
        Scanner { source, token_start: 0, current_position: 0, end, tokens: Vec::new() }
    }

    /// Runs the scan to the end of the source and closes the token sequence
    /// with the end-of-file sentinel.
    #[verifier::loop_isolation(false)]
    pub fn scan_tokens(&mut self)
        requires
            old(self).wf(),
            old(self).current_position == 0,
            old(self).tokens@ == Seq::<Token>::empty(),
        ensures
            final(self).source@ == old(self).source@,
            tokens_view(final(self).tokens@) == spec_scan(old(self).source@),
    {
        let ghost s = self.source@;
        proof {
            assert(tokens_view(self.tokens@) =~= Seq::<TokenV>::empty());
            assert(Seq::<TokenV>::empty() + spec_scan_loop(s, 0) =~= spec_scan_loop(s, 0));
        }
        while !self.is_finished()
            invariant
                self.wf(),
                self.source@ == s,
                spec_scan_loop(s, 0) == tokens_view(self.tokens@) + spec_scan_loop(
                    s,
                    self.current_position as int,
                ),
            decreases self.end - self.current_position,
        {
            self.prepare_token_start();
            self.next_token();
        }
        let p = self.current_position;
        let tok = Token::empty(TokenType::Eof, p);
        let ghost tokv = tok@;
        let ghost pre = self.tokens@;
        self.tokens.push(tok);
        proof {
            assert(tokv =~= eof_token(s.len() as int));
            assert(spec_scan_loop(s, self.current_position as int) =~= seq![tokv]);
            assert(tokens_view(pre.push(tok)) =~= tokens_view(pre) + seq![tokv]);
        }
    }

    /// Hands the collected tokens out.
    pub fn tokens(self) -> (r: Vec<Token>)
        ensures
            r == self.tokens,
    {
        self.tokens
    }

    /// Scans one construct starting at the current position: possibly
    /// nothing (whitespace, an unrecognised character, an unterminated
    /// string), else one token.
    fn next_token(&mut self)
        requires
            old(self).wf(),
            old(self).token_start == old(self).current_position,
            old(self).current_position < old(self).end,
        ensures
            final(self).wf(),
            final(self).source == old(self).source,
            final(self).end == old(self).end,
            old(self).current_position < final(self).current_position,
            tokens_view(final(self).tokens@) + spec_scan_loop(
                final(self).source@,
                final(self).current_position as int,
            ) == tokens_view(old(self).tokens@) + spec_scan_loop(
                old(self).source@,
                old(self).current_position as int,
            ),
    {
        let ghost s = self.source@;
        let ghost pos = self.current_position as int;
        let next_char = self.next_char();
        if Self::is_newline(next_char) {
            proof {
                assert(spec_scan_loop(s, pos) == spec_scan_loop(s, pos + 1));
            }
            return;
        }
        if Self::is_whitespace(next_char) {
            proof {
                assert(spec_scan_loop(s, pos) == spec_scan_loop(s, pos + 1));
            }
            return;
        }
        if let Some(token_type) = exec_single_char_token(next_char) {
            let tok = self.create_token(token_type);
            let ghost tokv = tok@;
            let ghost pre = self.tokens@;
            self.tokens.push(tok);
            proof {
                assert(tokens_view(pre.push(tok)) =~= tokens_view(pre).push(tokv));
                assert(tokv =~= (TokenV {
                    token_type: single_char_token(s[pos]).unwrap(),
                    lexeme: Some(s.subrange(pos, pos + 1)),
                    literal: None,
                    start: pos,
                    end: pos + 1,
                }));
                assert(tokens_view(self.tokens@) + spec_scan_loop(
                    s,
                    self.current_position as int,
                ) =~= tokens_view(pre) + (seq![tokv] + spec_scan_loop(
                    s,
                    self.current_position as int,
                )));
            }
            return;
        }
        if next_char == '"' {
            proof {
                assert(single_char_token('"') is None);
                assert(!is_newline_char(s[pos]) && !is_whitespace_char(s[pos]));
            }
            let ghost pre = self.tokens@;
            if let Some(tok) = self.string_token() {
                let ghost tokv = tok@;
                self.tokens.push(tok);
                proof {
                    let j = spec_string_end(s, pos + 1).unwrap();
                    assert(pos < j && j < s.len());
                    assert(tokv =~= (TokenV {
                        token_type: TokenType::StringLiteral,
                        lexeme: Some(s.subrange(pos, j + 1)),
                        literal: Some(s.subrange(pos + 1, j)),
                        start: pos,
                        end: j + 1,
                    }));
                    assert(tokens_view(pre.push(tok)) =~= tokens_view(pre).push(tokv));
                    assert(tokens_view(self.tokens@) + spec_scan_loop(
                        s,
                        self.current_position as int,
                    ) =~= tokens_view(pre) + (seq![tokv] + spec_scan_loop(
                        s,
                        self.current_position as int,
                    )));
                }
            } else {
                proof {
                    assert(spec_string_end(s, pos + 1) is None);
                    assert(spec_scan_loop(s, pos) =~= seq![eof_token(s.len() as int)]);
                    assert(spec_scan_loop(s, self.current_position as int) =~= seq![
                        eof_token(s.len() as int),
                    ]);
                }
            }
            return;
        }
        if Self::is_alpha(next_char) {
            let ghost pre = self.tokens@;
            if let Some(tok) = self.identifier_token() {
                let ghost tokv = tok@;
                self.tokens.push(tok);
                proof {
                    let j = spec_ident_end(s, pos + 1);
                    assert(pos < j && j <= s.len());
                    assert(tokv =~= (TokenV {
                        token_type: keyword_for(s.subrange(pos, j)),
                        lexeme: Some(s.subrange(pos, j)),
                        literal: None,
                        start: pos,
                        end: j,
                    }));
                    assert(tokens_view(pre.push(tok)) =~= tokens_view(pre).push(tokv));
                    assert(tokens_view(self.tokens@) + spec_scan_loop(
                        s,
                        self.current_position as int,
                    ) =~= tokens_view(pre) + (seq![tokv] + spec_scan_loop(
                        s,
                        self.current_position as int,
                    )));
                }
            }
            return;
        }
        proof {
            assert(!is_newline_char(s[pos]) && !is_whitespace_char(s[pos]));
            assert(single_char_token(s[pos]) is None);
            assert(s[pos] != '"');
            assert(!is_alpha_char(s[pos]));
            assert(spec_scan_loop(s, pos) == spec_scan_loop(s, pos + 1));
        }
        // an unrecognised character is skipped
    }

    fn create_token(&self, token_type: TokenType) -> (t: Token)
        requires
            self.wf(),
        ensures
            t@ == (TokenV {
                token_type,
                lexeme: Some(
                    self.source@.subrange(self.token_start as int, self.current_position as int),
                ),
                literal: None,
                start: self.token_start as int,
                end: self.current_position as int,
            }),
    {
        let lexeme = self.source.substring_char(self.token_start, self.current_position);
        Token::without_literal(
            token_type,
            String::from_str(lexeme),
            self.token_start,
            self.current_position,
        )
    }

    fn create_token_with_literal(&self, token_type: TokenType, literal: Literal) -> (t: Token)
        requires
            self.wf(),
        ensures
            t@ == (TokenV {
                token_type,
                lexeme: Some(
                    self.source@.subrange(self.token_start as int, self.current_position as int),
                ),
                literal: Some(literal.text_view()),
                start: self.token_start as int,
                end: self.current_position as int,
            }),
    {
        let lexeme = self.source.substring_char(self.token_start, self.current_position);
        Token::with_literal(
            token_type,
            String::from_str(lexeme),
            literal,
            self.token_start,
            self.current_position,
        )
    }

    /// Scans the rest of a string literal, whose opening quote was just
    /// consumed. An unterminated literal yields nothing, with the scan at
    /// the end of the source.
    #[verifier::loop_isolation(false)]
    fn string_token(&mut self) -> (r: Option<Token>)
        requires
            old(self).wf(),
            old(self).current_position == old(self).token_start + 1,
            old(self).token_start < old(self).end,
            old(self).source@[old(self).token_start as int] == '"',
        ensures
            final(self).wf(),
            final(self).source == old(self).source,
            final(self).end == old(self).end,
            final(self).tokens == old(self).tokens,
            old(self).current_position <= final(self).current_position,
            match spec_string_end(old(self).source@, old(self).current_position as int) {
                None => {
                    &&& r is None
                    &&& final(self).current_position == final(self).end
                },
                Some(j) => {
                    &&& r is Some
                    &&& old(self).current_position <= j
                    &&& final(self).current_position == j + 1
                    &&& r.unwrap()@ == (TokenV {
                        token_type: TokenType::StringLiteral,
                        lexeme: Some(
                            old(self).source@.subrange(old(self).token_start as int, j + 1),
                        ),
                        literal: Some(
                            old(self).source@.subrange(old(self).token_start as int + 1, j),
                        ),
                        start: old(self).token_start as int,
                        end: j + 1,
                    })
                },
            },
    {
        let ghost s = self.source@;
        let ghost start = self.token_start as int;
        while !(self.is_finished() || self.peek() == '"')
            invariant
                self.wf(),
                self.source == old(self).source,
                self.end == old(self).end,
                self.tokens == old(self).tokens,
                self.token_start == old(self).token_start,
                old(self).current_position <= self.current_position,
                spec_string_end(s, old(self).current_position as int) == spec_string_end(
                    s,
                    self.current_position as int,
                ),
            decreases self.end - self.current_position,
        {
            self.next_char();
        }

        if self.is_finished() {
            return None;
        }

        // the closing quote
        self.next_char();

        let literal_str = self.source.substring_char(self.token_start + 1, self.current_position
            - 1);
        let literal = Literal::Text(String::from_str(literal_str));
        Some(self.create_token_with_literal(TokenType::StringLiteral, literal))
    }

    /// Scans the rest of a word, whose first character was just consumed,
    /// and classifies it as a keyword or an identifier.
    #[verifier::loop_isolation(false)]
    fn identifier_token(&mut self) -> (r: Option<Token>)
        requires
            old(self).wf(),
            old(self).current_position == old(self).token_start + 1,
            old(self).token_start < old(self).end,
        ensures
            final(self).wf(),
            final(self).source == old(self).source,
            final(self).end == old(self).end,
            final(self).tokens == old(self).tokens,
            old(self).current_position <= final(self).current_position,
            final(self).current_position == spec_ident_end(
                old(self).source@,
                old(self).current_position as int,
            ),
            r is Some,
            r.unwrap()@ == (TokenV {
                token_type: keyword_for(
                    old(self).source@.subrange(
                        old(self).token_start as int,
                        final(self).current_position as int,
                    ),
                ),
                lexeme: Some(
                    old(self).source@.subrange(
                        old(self).token_start as int,
                        final(self).current_position as int,
                    ),
                ),
                literal: None,
                start: old(self).token_start as int,
                end: final(self).current_position as int,
            }),
    {
        let ghost s = self.source@;
        while !self.is_finished() && Self::is_alpha_numeric(self.peek())
            invariant
                self.wf(),
                self.source == old(self).source,
                self.end == old(self).end,
                self.tokens == old(self).tokens,
                self.token_start == old(self).token_start,
                old(self).current_position <= self.current_position,
                spec_ident_end(s, old(self).current_position as int) == spec_ident_end(
                    s,
                    self.current_position as int,
                ),
            decreases self.end - self.current_position,
        {
            self.next_char();
        }

        let identifier = self.source.substring_char(self.token_start, self.current_position);
        let identifier_string = String::from_str(identifier);
        let token_type = Self::classify_word(&identifier_string);
        Some(self.create_token(token_type))
    }

    /// The keyword kind of a scanned word, or `Identifier`.
    fn classify_word(word: &String) -> (tt: TokenType)
        ensures
            tt == keyword_for(word@),
    {
        if *word == String::from_str("class") {
            TokenType::Class
        } else if *word == String::from_str("public") {
            TokenType::Public
        } else if *word == String::from_str("private") {
            TokenType::Private
        } else if *word == String::from_str("static") {
            TokenType::Static
        } else {
            TokenType::Identifier
        }
    }

    fn prepare_token_start(&mut self)
        ensures
            final(self).token_start == final(self).current_position,
            final(self).source == old(self).source,
            final(self).end == old(self).end,
            final(self).current_position == old(self).current_position,
            final(self).tokens == old(self).tokens,
            old(self).wf() ==> final(self).wf(),
    {
        self.token_start = self.current_position;
    }

    fn is_finished(&self) -> (r: bool)
        ensures
            r == (self.current_position >= self.end),
    {
        self.current_position >= self.end
    }

    fn is_newline(c: char) -> (r: bool)
        ensures
            r == is_newline_char(c),
    {
        c == '\n'
    }

    fn is_whitespace(c: char) -> (r: bool)
        ensures
            r == is_whitespace_char(c),
    {
        c == ' ' || c == '\r' || c == '\t'
    }

    fn is_alpha(c: char) -> (r: bool)
        ensures
            r == is_alpha_char(c),
    {
        (c >= 'a' && c <= 'z') || (c >= 'A' && c <= 'Z') || c == '_'
    }

    fn is_digit(c: char) -> (r: bool)
        ensures
            r == is_digit_char(c),
    {
        c >= '0' && c <= '9'
    }

    fn is_alpha_numeric(c: char) -> (r: bool)
        ensures
            r == is_alpha_numeric_char(c),
    {
        Self::is_alpha(c) || Self::is_digit(c)
    }

    /// Consumes and yields the character at the current position.
    fn next_char(&mut self) -> (c: char)
        requires
            old(self).wf(),
            old(self).current_position < old(self).end,
        ensures
            final(self).wf(),
            final(self).source == old(self).source,
            final(self).end == old(self).end,
            final(self).token_start == old(self).token_start,
            final(self).tokens == old(self).tokens,
            final(self).current_position == old(self).current_position + 1,
            c == old(self).source@[old(self).current_position as int],
    {
        let c = self.source.get_char(self.current_position);
        self.current_position = self.current_position + 1;
        c
    }

    /// The character at the current position, without consuming it; the nul
    /// character once the source is exhausted.
    fn peek(&self) -> (c: char)
        requires
            self.wf(),
        ensures
            self.current_position < self.end ==> c == self.source@[self.current_position as int],
            self.current_position >= self.end ==> c == '\u{0}',
    {
        if self.is_finished() {
            return '\u{0}';
        }
        self.source.get_char(self.current_position)
    }
}

} // verus!
