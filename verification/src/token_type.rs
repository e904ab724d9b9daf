//! The closed set of token categories.

use crate::text::spells;
use vstd::prelude::*;

verus! {

/// The category of a token.
#[derive(Clone, Copy, Debug, PartialEq, Eq, Structural)]
pub enum TokenType {
    // Single-character punctuation.
    LeftParen,
    RightParen,
    LeftBrace,
    RightBrace,
    Comma,
    Dot,
    Minus,
    Plus,
    Semicolon,
    Slash,
    Star,
    // One or two character operators.
    Bang,
    BangEqual,
    Equal,
    EqualEqual,
    Greater,
    GreaterEqual,
    Less,
    LessEqual,
    // Literals.
    Identifier,
    String,
    Number,
    // Reserved words.
    And,
    Class,
    Else,
    False,
    Fun,
    For,
    If,
    Nil,
    Or,
    Print,
    Return,
    Super,
    This,
    True,
    Var,
    While,
    /// End of input: always the last token, and only the last.
    Eof,
}

impl TokenType {
    /// The reserved word that this category stands for, if it is one.
    pub open spec fn reserved_word(self) -> Option<Seq<char>> {
        match self {
            TokenType::And => Some("and"@),
            TokenType::Class => Some("class"@),
            TokenType::Else => Some("else"@),
            TokenType::False => Some("false"@),
            TokenType::For => Some("for"@),
            TokenType::Fun => Some("fun"@),
            TokenType::If => Some("if"@),
            TokenType::Nil => Some("nil"@),
            TokenType::Or => Some("or"@),
            TokenType::Print => Some("print"@),
            TokenType::Return => Some("return"@),
            TokenType::Super => Some("super"@),
            TokenType::This => Some("this"@),
            TokenType::True => Some("true"@),
            TokenType::Var => Some("var"@),
            TokenType::While => Some("while"@),
            _ => None,
        }
    }
}

/// The category of a word: that of the reserved word that it spells, or
/// `Identifier`.
pub open spec fn word_kind(word: Seq<char>) -> TokenType {
    if word == "and"@ {
        TokenType::And
    } else if word == "class"@ {
        TokenType::Class
    } else if word == "else"@ {
        TokenType::Else
    } else if word == "false"@ {
        TokenType::False
    } else if word == "for"@ {
        TokenType::For
    } else if word == "fun"@ {
        TokenType::Fun
    } else if word == "if"@ {
        TokenType::If
    } else if word == "nil"@ {
        TokenType::Nil
    } else if word == "or"@ {
        TokenType::Or
    } else if word == "print"@ {
        TokenType::Print
    } else if word == "return"@ {
        TokenType::Return
    } else if word == "super"@ {
        TokenType::Super
    } else if word == "this"@ {
        TokenType::This
    } else if word == "true"@ {
        TokenType::True
    } else if word == "var"@ {
        TokenType::Var
    } else if word == "while"@ {
        TokenType::While
    } else {
        TokenType::Identifier
    }
}

/// The category of the word `chars[from..to]`.
pub fn kind_of_word(chars: &Vec<char>, from: usize, to: usize) -> (kind: TokenType)
    requires
        from <= to <= chars@.len(),
    ensures
        kind == word_kind(chars@.subrange(from as int, to as int)),
{
    if spells(chars, from, to, "and") {
        TokenType::And
    } else if spells(chars, from, to, "class") {
        TokenType::Class
    } else if spells(chars, from, to, "else") {
        TokenType::Else
    } else if spells(chars, from, to, "false") {
        TokenType::False
    } else if spells(chars, from, to, "for") {
        TokenType::For
    } else if spells(chars, from, to, "fun") {
        TokenType::Fun
    } else if spells(chars, from, to, "if") {
        TokenType::If
    } else if spells(chars, from, to, "nil") {
        TokenType::Nil
    } else if spells(chars, from, to, "or") {
        TokenType::Or
    } else if spells(chars, from, to, "print") {
        TokenType::Print
    } else if spells(chars, from, to, "return") {
        TokenType::Return
    } else if spells(chars, from, to, "super") {
        TokenType::Super
    } else if spells(chars, from, to, "this") {
        TokenType::This
    } else if spells(chars, from, to, "true") {
        TokenType::True
    } else if spells(chars, from, to, "var") {
        TokenType::Var
    } else if spells(chars, from, to, "while") {
        TokenType::While
    } else {
        TokenType::Identifier
    }
}

} // verus!
