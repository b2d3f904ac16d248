use vstd::prelude::*;

verus! {

/// The closed set of token kinds the lexer produces.
#[derive(Copy, Clone, Debug, PartialEq, Eq, Structural)]
pub enum TokenType {
    // Reserved keywords
    Class,
    Public,
    Private,
    Static,

    // Single character tokens
    LeftParen,
    RightParen,
    LeftBrace,
    RightBrace,
    LeftSquareBracket,
    RightSquareBracket,
    SemiColon,
    Dot,
    Comma,
    Equal,

    // Literals
    Identifier,
    StringLiteral,

    Eof,
}

/// The decoded payload of a literal token.
#[derive(Debug, Clone)]
pub enum Literal {
    Text(String),
}

impl Literal {
    pub fn duplicate(&self) -> (r: Literal)
        ensures
            r == *self,
    {
        match self {
            Literal::Text(s) => Literal::Text(s.clone()),
        }
    }

    pub fn text(&self) -> (r: &String)
        ensures
            r@ == self.text_view(),
    {
        match self {
            Literal::Text(s) => s,
        }
    }
}

impl Literal {
    pub open spec fn text_view(&self) -> Seq<char> {
        match self {
            Literal::Text(s) => s@,
        }
    }
}

/// One lexed token: a kind, the source slice it covers, an optional decoded
/// literal payload, and its character offsets in the source.
#[derive(Debug, Clone)]
pub struct Token {
    pub token_type: TokenType,
    pub lexeme: Option<String>,
    pub literal: Option<Literal>,
    pub start: usize,
    pub end: usize,
}

/// The mathematical shape of a `Token`: its payloads as character
/// sequences, its offsets as integers.
#[verifier::ext_equal]
pub struct TokenV {
    pub token_type: TokenType,
    pub lexeme: Option<Seq<char>>,
    pub literal: Option<Seq<char>>,
    pub start: int,
    pub end: int,
}

/// Tokens handed to the parser carry the payload their kind promises.
pub open spec fn token_wf(t: TokenV) -> bool {
    &&& t.token_type == TokenType::Identifier ==> t.lexeme is Some
    &&& t.token_type == TokenType::StringLiteral ==> t.literal is Some
}

/// A lexed token sequence: finite, payload-carrying, and closed by a single
/// end-of-file sentinel in the last position.
pub open spec fn tokens_wf(ts: Seq<TokenV>) -> bool {
    &&& ts.len() > 0
    &&& ts.last().token_type == TokenType::Eof
    &&& forall|i: int| 0 <= i < ts.len() - 1 ==> (#[trigger] ts[i]).token_type != TokenType::Eof
    &&& forall|i: int| 0 <= i < ts.len() ==> token_wf(#[trigger] ts[i])
}

/// The views of a sequence of tokens.
pub open spec fn tokens_view(ts: Seq<Token>) -> Seq<TokenV> {
    ts.map_values(|t: Token| t@)
}

impl View for Token {
    type V = TokenV;

    open spec fn view(&self) -> TokenV {
        TokenV {
            token_type: self.token_type,
            lexeme: match self.lexeme {
                Some(ref s) => Some(s@),
                None => None,
            },
            literal: match self.literal {
                Some(ref l) => Some(l.text_view()),
                None => None,
            },
            start: self.start as int,
            end: self.end as int,
        }
    }
}

impl Token {
    pub fn empty(token_type: TokenType, position: usize) -> (t: Token)
        ensures
            t.token_type == token_type,
            t.lexeme is None,
            t.literal is None,
            t.start == position,
            t.end == position,
    {
        Token { token_type, lexeme: None, literal: None, start: position, end: position }
    }

    pub fn without_literal(token_type: TokenType, lexeme: String, start: usize, end: usize) -> (t:
        Token)
        ensures
            t.token_type == token_type,
            t.lexeme == Some(lexeme),
            t.literal is None,
            t.start == start,
            t.end == end,
    {
        Token { token_type, lexeme: Some(lexeme), literal: None, start, end }
    }

    pub fn with_literal(
        token_type: TokenType,
        lexeme: String,
        literal: Literal,
        start: usize,
        end: usize,
    ) -> (t: Token)
        ensures
            t.token_type == token_type,
            t.lexeme == Some(lexeme),
            t.literal == Some(literal),
            t.start == start,
            t.end == end,
    {
        Token { token_type, lexeme: Some(lexeme), literal: Some(literal), start, end }
    }

    pub fn duplicate(&self) -> (t: Token)
        ensures
            t == *self,
    {
        Token {
            token_type: self.token_type,
            lexeme: match &self.lexeme {
                Some(s) => Some(s.clone()),
                None => None,
            },
            literal: match &self.literal {
                Some(l) => Some(l.duplicate()),
                None => None,
            },
            start: self.start,
            end: self.end,
        }
    }

    pub fn token_type(&self) -> (r: TokenType)
        ensures
            r == self.token_type,
    {
        self.token_type
    }

    pub fn lexeme(&self) -> (r: &String)
        requires
            self.lexeme is Some,
        ensures
            *r == self.lexeme.unwrap(),
    {
        self.lexeme.as_ref().unwrap()
    }

    pub fn literal(&self) -> (r: &Literal)
        requires
            self.literal is Some,
        ensures
            *r == self.literal.unwrap(),
    {
        self.literal.as_ref().unwrap()
    }

    pub fn start(&self) -> (r: usize)
        ensures
            r == self.start,
    {
        self.start
    }

    pub fn end(&self) -> (r: usize)
        ensures
            r == self.end,
    {
        self.end
    }
}

} // verus!
