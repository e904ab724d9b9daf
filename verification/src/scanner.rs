//! The scanner: one pass over a text, from its first character to its
//! last, that collects the tokens and the lexical errors.

use crate::chars::{
    digit, is_alphanumeric, is_digit, is_letter, lemma_newlines_split, lemma_run_end,
    lemma_run_end_is, letter, newlines, run_end, CharClass,
};
use crate::error::{error_views, LexError, LexErrorView};
use crate::grammar::{lemma_step_advances, scan_from, step, Yield};
use crate::number::Number;
use crate::text::{to_chars, to_text};
use crate::theorems::lemma_step_counts_lines;
use crate::token::{literal_view, token_views, Literal, Token, TokenView};
use crate::token_type::{kind_of_word, TokenType};
use vstd::prelude::*;

verus! {

/// A text and the place that reading has reached in it: where the lexeme
/// at hand starts, how far it has been read, and on which line.
struct Cursor {
    source: Vec<char>,
    start: usize,
    current: usize,
    line: usize,
}

/// A scanner over one text. It is made for one call of `scan_tokens`.
pub struct Scanner {
    cursor: Cursor,
    tokens: Vec<Token>,
    errors: Vec<LexError>,
}

impl Cursor {
    #[verifier::type_invariant]
    spec fn well_formed(&self) -> bool {
        &&& self.source@.len() < usize::MAX
        &&& self.start <= self.current <= self.source@.len()
        &&& 1 <= self.line <= self.current + 1
    }

    /// Whether only `current` and `line` have changed since `before`.
    spec fn moved(&self, before: Cursor) -> bool {
        self.source == before.source && self.start == before.start
    }

    fn is_at_end(&self) -> (r: bool)
        ensures
            r == (self.current >= self.source@.len()),
    {
        self.current >= self.source.len()
    }

    fn advance(&mut self) -> (c: char)
        requires
            old(self).current < old(self).source@.len(),
        ensures
            c == old(self).source@[old(self).current as int],
            final(self).current == old(self).current + 1,
            final(self).line == old(self).line,
            final(self).moved(*old(self)),
    {
        proof {
            use_type_invariant(&*self);
        }
        let ret = self.source[self.current];
        self.current += 1;
        ret
    }

    fn match_next(&mut self, expected: char) -> (r: bool)
        ensures
            r == (old(self).current < old(self).source@.len() && old(self).source@[old(
                self,
            ).current as int] == expected),
            final(self).current == old(self).current + if r { 1int } else { 0int },
            final(self).line == old(self).line,
            final(self).moved(*old(self)),
    {
        proof {
            use_type_invariant(&*self);
        }
        if self.is_at_end() || self.source[self.current] != expected {
            return false;
        }
        self.current += 1;
        true
    }

    fn peek(&self) -> (c: char)
        ensures
            c == if self.current < self.source@.len() {
                self.source@[self.current as int]
            } else {
                '\0'
            },
    {
        if self.is_at_end() {
            return '\0';
        }
        self.source[self.current]
    }

    fn peek_next(&self) -> (c: char)
        ensures
            c == if self.current + 1 < self.source@.len() {
                self.source@[self.current + 1]
            } else {
                '\0'
            },
    {
        proof {
            use_type_invariant(self);
        }
        if self.current + 1 >= self.source.len() {
            return '\0';
        }
        self.source[self.current + 1]
    }
}

impl Scanner {
    /// The text that is scanned.
    pub closed spec fn source(&self) -> Seq<char> {
        self.cursor.source@
    }

    /// How many characters of the text have been read.
    pub closed spec fn position(&self) -> int {
        self.cursor.current as int
    }

    /// The line that reading has reached, counted from 1.
    pub closed spec fn line(&self) -> nat {
        self.cursor.line as nat
    }

    /// The tokens collected so far.
    pub closed spec fn emitted(&self) -> Seq<TokenView> {
        token_views(self.tokens@)
    }

    /// The errors collected so far.
    pub closed spec fn reported(&self) -> Seq<LexErrorView> {
        error_views(self.errors@)
    }

    /// A scanner at the start of `source`, on line 1, with nothing
    /// collected.
    pub fn new(source: String) -> (r: Self)
        requires
            source@.len() < usize::MAX,
        ensures
            r.source() == source@,
            r.position() == 0,
            r.line() == 1,
            r.emitted() == Seq::<TokenView>::empty(),
            r.reported() == Seq::<LexErrorView>::empty(),
    {
        let source = to_chars(source.as_str());
        Self {
            cursor: Cursor { source, start: 0, current: 0, line: 1 },
            tokens: Vec::new(),
            errors: Vec::new(),
        }
    }

    /// Reads the text from where the scanner stands to its end, adds the
    /// tokens and errors of that part to those collected, the end-of-input
    /// token last, and returns all the tokens collected.
    pub fn scan_tokens(&mut self) -> (tokens: Vec<Token>)
        ensures
            final(self).source() == old(self).source(),
            final(self).position() == old(self).source().len(),
            final(self).line() == old(self).line() + newlines(
                old(self).source(),
                old(self).position(),
                old(self).source().len() as int,
            ),
            final(self).emitted() == old(self).emitted() + scan_from(
                old(self).source(),
                old(self).position(),
                old(self).line(),
            ).tokens,
            final(self).reported() == old(self).reported() + scan_from(
                old(self).source(),
                old(self).position(),
                old(self).line(),
            ).errors,
            token_views(tokens@) == final(self).emitted(),
    {
        let ghost s = self.cursor.source@;
        let ghost goal = scan_from(s, self.cursor.current as int, self.cursor.line as nat);
        proof {
            use_type_invariant(&self.cursor);
        }
        while !self.cursor.is_at_end()
            invariant
                self.cursor.source@ == s,
                old(self).cursor.current <= self.cursor.current <= s.len(),
                self.cursor.line == old(self).cursor.line + newlines(
                    s,
                    old(self).cursor.current as int,
                    self.cursor.current as int,
                ),
                token_views(self.tokens@) + scan_from(
                    s,
                    self.cursor.current as int,
                    self.cursor.line as nat,
                ).tokens == token_views(old(self).tokens@) + goal.tokens,
                error_views(self.errors@) + scan_from(
                    s,
                    self.cursor.current as int,
                    self.cursor.line as nat,
                ).errors == error_views(old(self).errors@) + goal.errors,
            decreases s.len() - self.cursor.current,
        {
            proof {
                use_type_invariant(&self.cursor);
            }
            self.cursor.start = self.cursor.current;
            let ghost from = self.cursor.current as int;
            let ghost line = self.cursor.line as nat;
            self.scan_token();
            proof {
                lemma_step_advances(s, from, line);
                lemma_step_counts_lines(s, from, line);
                lemma_newlines_split(
                    s,
                    old(self).cursor.current as int,
                    from,
                    self.cursor.current as int,
                );
            }
        }
        proof {
            use_type_invariant(&self.cursor);
        }
        self.cursor.start = self.cursor.current;
        self.emit(TokenType::Eof, None);
        assert(s.subrange(s.len() as int, s.len() as int) == Seq::<char>::empty());
        self.tokens.clone()
    }

    /// The errors collected so far, in the order of the text.
    pub fn errors(&self) -> (r: &Vec<LexError>)
        ensures
            error_views(r@) == self.reported(),
    {
        &self.errors
    }

    /// Whether the step that starts at the lexeme of `before` has been made
    /// from `before`: the cursor and the line stand where the step ends, and what
    /// the step yields has been added.
    spec fn stepped(&self, before: Scanner) -> bool {
        let st = step(
            before.cursor.source@,
            before.cursor.start as int,
            before.cursor.line as nat,
        );
        &&& self.cursor.source == before.cursor.source
        &&& self.cursor.current == st.next
        &&& self.cursor.line == st.line
        &&& match st.output {
            Yield::Nothing => {
                &&& token_views(self.tokens@) == token_views(before.tokens@)
                &&& error_views(self.errors@) == error_views(before.errors@)
            },
            Yield::Token(t) => {
                &&& token_views(self.tokens@) == token_views(before.tokens@).push(t)
                &&& error_views(self.errors@) == error_views(before.errors@)
            },
            Yield::Error(e) => {
                &&& token_views(self.tokens@) == token_views(before.tokens@)
                &&& error_views(self.errors@) == error_views(before.errors@).push(e)
            },
        }
    }

    /// Whether the first character of the lexeme at hand has been read, and
    /// no more, and is `c`.
    spec fn has_read_first(&self, c: char) -> bool {
        &&& self.cursor.start + 1 == self.cursor.current <= self.cursor.source@.len()
        &&& self.cursor.source@[self.cursor.start as int] == c
    }

    /// Whether only the cursor has moved since `before`.
    spec fn moved(&self, before: Scanner) -> bool {
        &&& self.cursor.moved(before.cursor)
        &&& self.tokens == before.tokens
        &&& self.errors == before.errors
    }

    /// Adds the token read from `source[start..current]`.
    fn emit(&mut self, kind: TokenType, literal: Option<Literal>)
        ensures
            final(self).cursor.source == old(self).cursor.source,
            final(self).errors == old(self).errors,
            final(self).cursor.start == old(self).cursor.start,
            final(self).cursor.current == old(self).cursor.current,
            final(self).cursor.line == old(self).cursor.line,
            token_views(final(self).tokens@) == token_views(old(self).tokens@).push(
                TokenView {
                    token_type: kind,
                    lexeme: old(self).cursor.source@.subrange(
                        old(self).cursor.start as int,
                        old(self).cursor.current as int,
                    ),
                    literal: literal_view(literal),
                    line: old(self).cursor.line as nat,
                },
            ),
    {
        proof {
            use_type_invariant(&self.cursor);
        }
        let lexeme = to_text(&self.cursor.source, self.cursor.start, self.cursor.current);
        let token = Token::new(kind, lexeme, literal, self.cursor.line);
        self.tokens.push(token);
    }

    /// Adds an error.
    fn report(&mut self, error: LexError)
        ensures
            final(self).cursor.source == old(self).cursor.source,
            final(self).tokens == old(self).tokens,
            final(self).cursor.start == old(self).cursor.start,
            final(self).cursor.current == old(self).cursor.current,
            final(self).cursor.line == old(self).cursor.line,
            error_views(final(self).errors@) == error_views(old(self).errors@).push(error@),
    {
        self.errors.push(error);
    }

    fn scan_token(&mut self)
        requires
            old(self).cursor.current < old(self).cursor.source@.len(),
            old(self).cursor.start == old(self).cursor.current,
        ensures
            final(self).stepped(*old(self)),
    {
        let ghost s = self.cursor.source@;
        let ghost i = self.cursor.start as int;
        proof {
            use_type_invariant(&self.cursor);
        }
        let c = self.cursor.advance();
        match c {
            '(' => self.emit(TokenType::LeftParen, None),
            ')' => self.emit(TokenType::RightParen, None),
            '{' => self.emit(TokenType::LeftBrace, None),
            '}' => self.emit(TokenType::RightBrace, None),
            ',' => self.emit(TokenType::Comma, None),
            '.' => self.emit(TokenType::Dot, None),
            '-' => self.emit(TokenType::Minus, None),
            '+' => self.emit(TokenType::Plus, None),
            ';' => self.emit(TokenType::Semicolon, None),
            '*' => self.emit(TokenType::Star, None),
            '!' => {
                if self.cursor.match_next('=') {
                    self.emit(TokenType::BangEqual, None);
                } else {
                    self.emit(TokenType::Bang, None);
                }
            },
            '=' => {
                if self.cursor.match_next('=') {
                    self.emit(TokenType::EqualEqual, None);
                } else {
                    self.emit(TokenType::Equal, None);
                }
            },
            '>' => {
                if self.cursor.match_next('=') {
                    self.emit(TokenType::GreaterEqual, None);
                } else {
                    self.emit(TokenType::Greater, None);
                }
            },
            '<' => {
                if self.cursor.match_next('=') {
                    self.emit(TokenType::LessEqual, None);
                } else {
                    self.emit(TokenType::Less, None);
                }
            },
            '/' => {
                if self.cursor.match_next('/') {
                    // A comment runs to the end of the line.
                    while !self.cursor.is_at_end() && self.cursor.peek() != '\n'
                        invariant
                            self.moved(*old(self)),
                            self.cursor.line == old(self).cursor.line,
                            i + 2 <= self.cursor.current <= s.len(),
                            s == self.cursor.source@,
                            run_end(s, self.cursor.current as int, CharClass::CommentText)
                                == run_end(s, i + 2, CharClass::CommentText),
                        decreases s.len() - self.cursor.current,
                    {
                        self.cursor.advance();
                    }
                } else {
                    self.emit(TokenType::Slash, None);
                }
            },
            ' ' | '\r' | '\t' => {
            },
            '\n' => {
                self.cursor.line += 1;
            },
            '"' => self.handle_string(),
            _ => {
                if is_digit(c) {
                    self.handle_digit();
                } else if is_letter(c) {
                    self.handle_identifier();
                } else {
                    self.report(LexError::UnexpectedCharacter { ch: c, line: self.cursor.line });
                }
            },
        }
    }

    fn handle_string(&mut self)
        requires
            old(self).has_read_first('"'),
        ensures
            final(self).stepped(*old(self)),
    {
        let ghost s = self.cursor.source@;
        let ghost i = self.cursor.start as int;
        proof {
            use_type_invariant(&self.cursor);
        }
        while self.cursor.peek() != '"' && !self.cursor.is_at_end()
            invariant
                self.moved(*old(self)),
                s == self.cursor.source@,
                i + 1 <= self.cursor.current <= s.len(),
                s.len() < usize::MAX,
                self.cursor.line == old(self).cursor.line + newlines(
                    s,
                    i + 1,
                    self.cursor.current as int,
                ),
                self.cursor.line <= self.cursor.current + 1,
                run_end(s, self.cursor.current as int, CharClass::StringText) == run_end(
                    s,
                    i + 1,
                    CharClass::StringText,
                ),
            decreases s.len() - self.cursor.current,
        {
            proof {
                use_type_invariant(&self.cursor);
            }
            let c = self.cursor.advance();
            if c == '\n' {
                self.cursor.line += 1;
            }
        }
        if self.cursor.is_at_end() {
            self.report(LexError::UnterminatedString { line: self.cursor.line });
            return ;
        }
        self.cursor.advance();  // the closing quote
        let value = to_text(&self.cursor.source, self.cursor.start + 1, self.cursor.current - 1);
        self.emit(TokenType::String, Some(Literal::String(value)));
    }

    fn handle_digit(&mut self)
        requires
            exists|c: char| digit(c) && old(self).has_read_first(c),
        ensures
            final(self).stepped(*old(self)),
    {
        let ghost s = self.cursor.source@;
        let ghost i = self.cursor.start as int;
        proof {
        }
        while is_digit(self.cursor.peek())
            invariant
                self.moved(*old(self)),
                self.cursor.line == old(self).cursor.line,
                s == self.cursor.source@,
                i + 1 <= self.cursor.current <= s.len(),
                run_end(s, self.cursor.current as int, CharClass::Digit) == run_end(
                    s,
                    i,
                    CharClass::Digit,
                ),
            decreases s.len() - self.cursor.current,
        {
            self.cursor.advance();
        }
        let point = self.cursor.current;
        if self.cursor.peek() == '.' && is_digit(self.cursor.peek_next()) {
            self.cursor.advance();  // the point
            while is_digit(self.cursor.peek())
                invariant
                    self.moved(*old(self)),
                    self.cursor.line == old(self).cursor.line,
                    s == self.cursor.source@,
                    point + 1 <= self.cursor.current <= s.len(),
                    run_end(s, self.cursor.current as int, CharClass::Digit) == run_end(
                        s,
                        point + 1,
                        CharClass::Digit,
                    ),
                decreases s.len() - self.cursor.current,
            {
                self.cursor.advance();
            }
        }
        proof {
            let end = self.cursor.current as int;
            let lexeme = s.subrange(i, end);
            lemma_run_end(s, i, CharClass::Digit);
            assert(lexeme.subrange(0, point - i) == s.subrange(i, point as int));
            lemma_run_end_is(lexeme, 0, point - i, CharClass::Digit);
            if point < end {
                lemma_run_end(s, point + 1, CharClass::Digit);
                assert(lexeme.subrange(point - i + 1, lexeme.len() as int) == s.subrange(
                    point + 1,
                    end,
                ));
            }
        }
        let value = Number::from_digits(
            &self.cursor.source,
            self.cursor.start,
            point,
            self.cursor.current,
        );
        self.emit(TokenType::Number, Some(Literal::Number(value)));
    }

    fn handle_identifier(&mut self)
        requires
            exists|c: char| letter(c) && old(self).has_read_first(c),
        ensures
            final(self).stepped(*old(self)),
    {
        let ghost s = self.cursor.source@;
        let ghost i = self.cursor.start as int;
        proof {
        }
        while is_alphanumeric(self.cursor.peek())
            invariant
                self.moved(*old(self)),
                self.cursor.line == old(self).cursor.line,
                s == self.cursor.source@,
                i + 1 <= self.cursor.current <= s.len(),
                run_end(s, self.cursor.current as int, CharClass::Alphanumeric) == run_end(
                    s,
                    i + 1,
                    CharClass::Alphanumeric,
                ),
            decreases s.len() - self.cursor.current,
        {
            self.cursor.advance();
        }
        let kind = kind_of_word(&self.cursor.source, self.cursor.start, self.cursor.current);
        self.emit(kind, None);
    }
}

} // verus!
