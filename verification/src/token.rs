//! Tokens and the literal values that they carry.

use crate::number::Number;
use crate::token_type::TokenType;
use vstd::prelude::*;

verus! {

/// A literal value: the text of a string, or a number.
#[derive(Debug)]
pub enum Literal {
    String(String),
    Number(Number),
}

/// What a literal value is: the characters of a string, or the shortest
/// numeral of a number.
pub ghost enum LiteralView {
    String(Seq<char>),
    Number(Seq<char>),
}

impl LiteralView {
    /// The value as text: a string as it is, a number as its numeral.
    pub open spec fn text(self) -> Seq<char> {
        match self {
            LiteralView::String(s) => s,
            LiteralView::Number(n) => n,
        }
    }
}

impl View for Literal {
    type V = LiteralView;

    open spec fn view(&self) -> LiteralView {
        match self {
            Literal::String(s) => LiteralView::String(s@),
            Literal::Number(n) => LiteralView::Number(n@),
        }
    }
}

impl Clone for Literal {
    fn clone(&self) -> (r: Self)
        ensures
            r == *self,
    {
        match self {
            Literal::String(s) => Literal::String(s.clone()),
            Literal::Number(n) => Literal::Number(n.clone()),
        }
    }
}

impl Literal {
    /// The value as text: a string as it is, a number as its numeral.
    pub fn to_string(&self) -> (r: String)
        ensures
            r@ == self@.text(),
    {
        match self {
            Literal::String(s) => s.clone(),
            Literal::Number(n) => n.to_text(),
        }
    }
}

/// The view of an optional literal.
pub open spec fn literal_view(literal: Option<Literal>) -> Option<LiteralView> {
    match literal {
        Some(l) => Some(l@),
        None => None,
    }
}

/// One token: its category, the text that it was read from, the value that
/// the text denotes where it denotes one, and the line that it stands on.
#[derive(Debug)]
pub struct Token {
    pub token_type: TokenType,
    pub lexeme: String,
    literal: Option<Literal>,
    line: usize,
}

/// What a token is. Two tokens are equal in full when their views are.
pub ghost struct TokenView {
    pub token_type: TokenType,
    pub lexeme: Seq<char>,
    pub literal: Option<LiteralView>,
    pub line: nat,
}

impl View for Token {
    type V = TokenView;

    closed spec fn view(&self) -> TokenView {
        TokenView {
            token_type: self.token_type,
            lexeme: self.lexeme@,
            literal: literal_view(self.literal),
            line: self.line as nat,
        }
    }
}

impl Clone for Token {
    fn clone(&self) -> (r: Self)
        ensures
            r == *self,
    {
        Token {
            token_type: self.token_type,
            lexeme: self.lexeme.clone(),
            literal: match &self.literal {
                Some(l) => Some(l.clone()),
                None => None,
            },
            line: self.line,
        }
    }
}

impl Token {
    /// A token of these four parts.
    pub fn new(token_type: TokenType, lexeme: String, literal: Option<Literal>, line: usize) -> (r:
        Self)
        ensures
            r@ == (TokenView {
                token_type,
                lexeme: lexeme@,
                literal: literal_view(literal),
                line: line as nat,
            }),
    {
        Self { token_type, lexeme, literal, line }
    }

    /// The value that the lexeme denotes, if it denotes one.
    pub fn literal(&self) -> (r: &Option<Literal>)
        ensures
            literal_view(*r) == self@.literal,
    {
        &self.literal
    }

    /// The line of the source that the token stands on, counted from 1.
    pub fn line(&self) -> (r: usize)
        ensures
            r == self@.line,
    {
        self.line
    }

    /// The text that the token was read from.
    pub fn lexeme(&self) -> (r: &String)
        ensures
            r@ == self@.lexeme,
    {
        &self.lexeme
    }

    /// The category of the token.
    pub fn token_type(&self) -> (r: TokenType)
        ensures
            r == self@.token_type,
    {
        self.token_type
    }
}

/// The views of a sequence of tokens.
pub open spec fn token_views(tokens: Seq<Token>) -> Seq<TokenView> {
    tokens.map_values(|t: Token| t@)
}

} // verus!
