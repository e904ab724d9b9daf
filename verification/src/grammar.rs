//! The lexical grammar: what the scanner makes of a text, as a function of
//! the text alone.
//!
//! A text is read in steps. Each step starts where the one before ended,
//! takes the longest lexeme that starts there, and yields a token, an error
//! or nothing. After the last step comes the end-of-input token.

use crate::chars::{blank, digit, lemma_run_end, letter, newlines, run_end, CharClass};
use crate::error::LexErrorView;
use crate::number::decode;
use crate::token::{LiteralView, TokenView};
use crate::token_type::{word_kind, TokenType};
use vstd::prelude::*;

verus! {

/// The category of a punctuation mark, which is a token by itself.
pub open spec fn punctuation(c: char) -> Option<TokenType> {
    if c == '(' {
        Some(TokenType::LeftParen)
    } else if c == ')' {
        Some(TokenType::RightParen)
    } else if c == '{' {
        Some(TokenType::LeftBrace)
    } else if c == '}' {
        Some(TokenType::RightBrace)
    } else if c == ',' {
        Some(TokenType::Comma)
    } else if c == '.' {
        Some(TokenType::Dot)
    } else if c == '-' {
        Some(TokenType::Minus)
    } else if c == '+' {
        Some(TokenType::Plus)
    } else if c == ';' {
        Some(TokenType::Semicolon)
    } else if c == '*' {
        Some(TokenType::Star)
    } else if c == '/' {
        Some(TokenType::Slash)
    } else {
        None
    }
}

/// The category of an operator that starts with `c`: of `c` alone, or of `c`
/// with an equal sign after it.
pub open spec fn operator(c: char, with_equal: bool) -> Option<TokenType> {
    if c == '!' {
        Some(if with_equal { TokenType::BangEqual } else { TokenType::Bang })
    } else if c == '=' {
        Some(if with_equal { TokenType::EqualEqual } else { TokenType::Equal })
    } else if c == '>' {
        Some(if with_equal { TokenType::GreaterEqual } else { TokenType::Greater })
    } else if c == '<' {
        Some(if with_equal { TokenType::LessEqual } else { TokenType::Less })
    } else {
        None
    }
}

/// What one step yields.
pub ghost enum Yield {
    /// Nothing: blanks, a line feed or a comment were passed over.
    Nothing,
    Token(TokenView),
    Error(LexErrorView),
}

/// One step of reading: where it ends, the line that is reached there, and
/// what it yields.
pub ghost struct Step {
    pub next: int,
    pub line: nat,
    pub output: Yield,
}

/// The step that yields the token of category `kind` read from
/// `s[from..to]`, and ends on line `line`.
pub open spec fn token_step(
    s: Seq<char>,
    from: int,
    to: int,
    kind: TokenType,
    literal: Option<LiteralView>,
    line: nat,
) -> Step {
    Step {
        next: to,
        line,
        output: Yield::Token(
            TokenView { token_type: kind, lexeme: s.subrange(from, to), literal, line },
        ),
    }
}

/// Where the number that starts at `i` ends: after the longest run of
/// digits, and, where a point and a digit follow it, after the longest run
/// of digits behind that point.
pub open spec fn number_end(s: Seq<char>, i: int) -> int {
    let p = run_end(s, i, CharClass::Digit);
    if p + 1 < s.len() && s[p] == '.' && digit(s[p + 1]) {
        run_end(s, p + 1, CharClass::Digit)
    } else {
        p
    }
}

/// The step at an opening double quote. The string runs to the next double
/// quote, over line feeds too; its value is what stands between the two.
/// Where no double quote follows, the step takes the rest of the text and
/// yields an error. Either way the lines are counted to the end of the step.
pub open spec fn string_step(s: Seq<char>, i: int, line: nat) -> Step {
    let close = run_end(s, i + 1, CharClass::StringText);
    let last_line = line + newlines(s, i + 1, close);
    if close < s.len() {
        token_step(
            s,
            i,
            close + 1,
            TokenType::String,
            Some(LiteralView::String(s.subrange(i + 1, close))),
            last_line,
        )
    } else {
        Step {
            next: close,
            line: last_line,
            output: Yield::Error(LexErrorView::UnterminatedString { line: last_line }),
        }
    }
}

/// The step at a digit: a number, with its value.
pub open spec fn number_step(s: Seq<char>, i: int, line: nat) -> Step {
    let end = number_end(s, i);
    token_step(
        s,
        i,
        end,
        TokenType::Number,
        Some(LiteralView::Number(decode(s.subrange(i, end)))),
        line,
    )
}

/// The step at a letter: the longest run of letters and digits, as a
/// reserved word or an identifier.
pub open spec fn word_step(s: Seq<char>, i: int, line: nat) -> Step {
    let end = run_end(s, i + 1, CharClass::Alphanumeric);
    token_step(s, i, end, word_kind(s.subrange(i, end)), None, line)
}

/// The step that starts at position `i` of `s`, on line `line`.
pub open spec fn step(s: Seq<char>, i: int, line: nat) -> Step
    recommends
        0 <= i < s.len(),
{
    let c = s[i];
    let then_equal = i + 1 < s.len() && s[i + 1] == '=';
    if c == '/' && i + 1 < s.len() && s[i + 1] == '/' {
        Step { next: run_end(s, i + 2, CharClass::CommentText), line, output: Yield::Nothing }
    } else if punctuation(c) is Some {
        token_step(s, i, i + 1, punctuation(c)->0, None, line)
    } else if operator(c, then_equal) is Some {
        token_step(
            s,
            i,
            if then_equal { i + 2 } else { i + 1 },
            operator(c, then_equal)->0,
            None,
            line,
        )
    } else if blank(c) {
        Step { next: i + 1, line, output: Yield::Nothing }
    } else if c == '\n' {
        Step { next: i + 1, line: line + 1, output: Yield::Nothing }
    } else if c == '"' {
        string_step(s, i, line)
    } else if digit(c) {
        number_step(s, i, line)
    } else if letter(c) {
        word_step(s, i, line)
    } else {
        Step {
            next: i + 1,
            line,
            output: Yield::Error(LexErrorView::UnexpectedCharacter { ch: c, line }),
        }
    }
}

/// What reading yields: the tokens in the order of the text, the last of
/// them the end-of-input token, and the errors in the order of the text.
pub ghost struct Lexed {
    pub tokens: Seq<TokenView>,
    pub errors: Seq<LexErrorView>,
}

/// The end-of-input token: no lexeme, on the last line reached.
pub open spec fn eof(line: nat) -> TokenView {
    TokenView { token_type: TokenType::Eof, lexeme: Seq::empty(), literal: None, line }
}

/// `rest` with what a step yielded put in front.
pub open spec fn after(output: Yield, rest: Lexed) -> Lexed {
    match output {
        Yield::Nothing => rest,
        Yield::Token(t) => Lexed { tokens: seq![t] + rest.tokens, errors: rest.errors },
        Yield::Error(e) => Lexed { tokens: rest.tokens, errors: seq![e] + rest.errors },
    }
}

/// What reading `s` from position `i` on yields, where `i` is on line
/// `line`.
pub open spec fn scan_from(s: Seq<char>, i: int, line: nat) -> Lexed
    decreases s.len() - i,
    via scan_from_decreases
{
    if 0 <= i < s.len() {
        let st = step(s, i, line);
        after(st.output, scan_from(s, st.next, st.line))
    } else {
        Lexed { tokens: seq![eof(line)], errors: Seq::empty() }
    }
}

#[via_fn]
proof fn scan_from_decreases(s: Seq<char>, i: int, line: nat) {
    if 0 <= i < s.len() {
        lemma_step_advances(s, i, line);
    }
}

/// What reading the text `s` yields.
pub open spec fn lex(s: Seq<char>) -> Lexed {
    scan_from(s, 0, 1)
}

/// Every step takes at least one character and stays within the text.
pub proof fn lemma_step_advances(s: Seq<char>, i: int, line: nat)
    requires
        0 <= i < s.len(),
    ensures
        i < step(s, i, line).next <= s.len(),
{
    lemma_run_end(s, i + 1, CharClass::StringText);
    lemma_run_end(s, i + 1, CharClass::Alphanumeric);
    lemma_run_end(s, i, CharClass::Digit);
    if i + 1 < s.len() {
        lemma_run_end(s, i + 2, CharClass::CommentText);
    }
    let p = run_end(s, i, CharClass::Digit);
    if p + 1 < s.len() {
        lemma_run_end(s, p + 1, CharClass::Digit);
    }
}

} // verus!
