//! What holds of every text that is read.

use crate::chars::{
    all_of, digit, lemma_newlines_split, lemma_run_end, lemma_run_end_is, letter, newlines,
    run_end, CharClass,
};
use crate::error::LexErrorView;
use crate::grammar::{
    eof, lemma_step_advances, lex, number_end, operator, punctuation, scan_from, step, Lexed,
    Yield,
};
use crate::number::is_numeral;
use crate::token::TokenView;
use crate::token_type::{word_kind, TokenType};
use vstd::prelude::*;

verus! {

/// The token that a lexeme without a value yields on the first line.
pub open spec fn plain_token(kind: TokenType, lexeme: Seq<char>) -> TokenView {
    TokenView { token_type: kind, lexeme, literal: None, line: 1 }
}

/// Where nothing is left to read, reading yields the end-of-input token
/// alone; so does the empty text.
pub proof fn lemma_nothing_left(s: Seq<char>, line: nat)
    ensures
        scan_from(s, s.len() as int, line) == (Lexed {
            tokens: seq![eof(line)],
            errors: Seq::empty(),
        }),
        lex(Seq::empty()) == (Lexed { tokens: seq![eof(1)], errors: Seq::empty() }),
{
}

/// A text that is one punctuation mark yields two tokens: the mark, and the
/// end of input.
pub proof fn lemma_punctuation_alone(c: char)
    requires
        punctuation(c) is Some,
    ensures
        lex(seq![c]) == (Lexed {
            tokens: seq![plain_token(punctuation(c)->0, seq![c]), eof(1)],
            errors: Seq::empty(),
        }),
{
    let s = seq![c];
    assert(s.subrange(0, 1) == s);
    assert(scan_from(s, 1, 1).tokens == seq![eof(1)]);
    assert(seq![plain_token(punctuation(c)->0, s)] + seq![eof(1)] == seq![
        plain_token(punctuation(c)->0, s),
        eof(1),
    ]);
}

/// A text that is one of `!`, `=`, `<`, `>` yields two tokens: the operator
/// without an equal sign, and the end of input.
pub proof fn lemma_operator_alone(c: char)
    requires
        operator(c, false) is Some,
    ensures
        lex(seq![c]) == (Lexed {
            tokens: seq![plain_token(operator(c, false)->0, seq![c]), eof(1)],
            errors: Seq::empty(),
        }),
{
    let s = seq![c];
    assert(s.subrange(0, 1) == s);
    assert(scan_from(s, 1, 1).tokens == seq![eof(1)]);
    assert(seq![plain_token(operator(c, false)->0, s)] + seq![eof(1)] == seq![
        plain_token(operator(c, false)->0, s),
        eof(1),
    ]);
}

/// A word: a letter, then letters and digits.
pub open spec fn is_word(s: Seq<char>) -> bool {
    s.len() > 0 && letter(s[0]) && all_of(s, CharClass::Alphanumeric)
}

/// A text that is one word yields two tokens: the word, as the reserved
/// word that it spells or else as an identifier, and the end of input.
pub proof fn lemma_word_alone(word: Seq<char>)
    requires
        is_word(word),
    ensures
        lex(word) == (Lexed {
            tokens: seq![plain_token(word_kind(word), word), eof(1)],
            errors: Seq::empty(),
        }),
{
    let n = word.len() as int;
    lemma_run_end_is(word, 1, n, CharClass::Alphanumeric);
    assert(word.subrange(0, n) == word);
    assert(scan_from(word, n, 1).tokens == seq![eof(1)]);
    assert(seq![plain_token(word_kind(word), word)] + seq![eof(1)] == seq![
        plain_token(word_kind(word), word),
        eof(1),
    ]);
}

/// Each of the sixteen reserved words is a word and has its own category:
/// read alone, it yields that category and no identifier.
pub proof fn lemma_reserved_word_alone(kind: TokenType)
    requires
        kind.reserved_word() is Some,
    ensures
        is_word(kind.reserved_word()->0),
        word_kind(kind.reserved_word()->0) == kind,
        kind != TokenType::Identifier,
        lex(kind.reserved_word()->0) == (Lexed {
            tokens: seq![plain_token(kind, kind.reserved_word()->0), eof(1)],
            errors: Seq::empty(),
        }),
{
    reveal_strlit("and");
    reveal_strlit("class");
    reveal_strlit("else");
    reveal_strlit("false");
    reveal_strlit("for");
    reveal_strlit("fun");
    reveal_strlit("if");
    reveal_strlit("nil");
    reveal_strlit("or");
    reveal_strlit("print");
    reveal_strlit("return");
    reveal_strlit("super");
    reveal_strlit("this");
    reveal_strlit("true");
    reveal_strlit("var");
    reveal_strlit("while");
    assert("and"@ == seq!['a', 'n', 'd']);
    assert("class"@ == seq!['c', 'l', 'a', 's', 's']);
    assert("else"@ == seq!['e', 'l', 's', 'e']);
    assert("false"@ == seq!['f', 'a', 'l', 's', 'e']);
    assert("for"@ == seq!['f', 'o', 'r']);
    assert("fun"@ == seq!['f', 'u', 'n']);
    assert("if"@ == seq!['i', 'f']);
    assert("nil"@ == seq!['n', 'i', 'l']);
    assert("or"@ == seq!['o', 'r']);
    assert("print"@ == seq!['p', 'r', 'i', 'n', 't']);
    assert("return"@ == seq!['r', 'e', 't', 'u', 'r', 'n']);
    assert("super"@ == seq!['s', 'u', 'p', 'e', 'r']);
    assert("this"@ == seq!['t', 'h', 'i', 's']);
    assert("true"@ == seq!['t', 'r', 'u', 'e']);
    assert("var"@ == seq!['v', 'a', 'r']);
    assert("while"@ == seq!['w', 'h', 'i', 'l', 'e']);
    lemma_word_alone(kind.reserved_word()->0);
}

/// A word that is none of the reserved words is an identifier, and only
/// such a word is.
pub proof fn lemma_other_words_are_identifiers(word: Seq<char>)
    ensures
        word_kind(word) == TokenType::Identifier <==> forall|kind: TokenType|
            kind.reserved_word() != Some(word),
{
    if word_kind(word) != TokenType::Identifier {
        assert(word_kind(word).reserved_word() == Some(word));
    }
}

/// A string that the text ends in yields no token: from its opening quote
/// on, reading yields one error, which names the last line, and the end of
/// input.
pub proof fn lemma_unterminated_string(s: Seq<char>, i: int, line: nat)
    requires
        0 <= i < s.len(),
        s[i] == '"',
        forall|k: int| i < k < s.len() ==> s[k] != '"',
    ensures
        scan_from(s, i, line) == ({
            let last_line = line + newlines(s, i + 1, s.len() as int);
            Lexed {
                tokens: seq![eof(last_line)],
                errors: seq![LexErrorView::UnterminatedString { line: last_line }],
            }
        }),
{
    let n = s.len() as int;
    lemma_run_end_is(s, i + 1, n, CharClass::StringText);
    assert(scan_from(s, n, line + newlines(s, i + 1, n)).tokens == seq![
        eof(line + newlines(s, i + 1, n)),
    ]);
}

/// A comment yields nothing: reading from its two slashes on yields what
/// reading from the end of its line on yields.
pub proof fn lemma_comment_yields_nothing(s: Seq<char>, i: int, end: int, line: nat)
    requires
        0 <= i,
        i + 2 <= end <= s.len(),
        s[i] == '/',
        s[i + 1] == '/',
        forall|k: int| i + 2 <= k < end ==> s[k] != '\n',
        end < s.len() ==> s[end] == '\n',
    ensures
        scan_from(s, i, line) == scan_from(s, end, line),
{
    lemma_run_end_is(s, i + 2, end, CharClass::CommentText);
}

/// The lexeme of a number is a numeral, so that it has a value.
pub proof fn lemma_number_lexeme(s: Seq<char>, i: int)
    requires
        0 <= i < s.len(),
        digit(s[i]),
    ensures
        i < number_end(s, i) <= s.len(),
        is_numeral(s.subrange(i, number_end(s, i))),
{
    let p = run_end(s, i, CharClass::Digit);
    let end = number_end(s, i);
    let lexeme = s.subrange(i, end);
    lemma_run_end(s, i, CharClass::Digit);
    if p + 1 < s.len() && s[p] == '.' && digit(s[p + 1]) {
        lemma_run_end(s, p + 1, CharClass::Digit);
        assert(lexeme.subrange(p - i + 1, lexeme.len() as int) == s.subrange(p + 1, end));
    }
    lemma_run_end_is(lexeme, 0, p - i, CharClass::Digit);
}

/// A stretch of text without a line feed counts no line.
pub proof fn lemma_no_newlines(s: Seq<char>, from: int, to: int)
    requires
        forall|k: int| from <= k < to ==> s[k] != '\n',
    ensures
        newlines(s, from, to) == 0,
    decreases to - from,
{
    if from < to {
        lemma_no_newlines(s, from, to - 1);
    }
}

/// The line that a step reaches is the line that it starts on and one more
/// for each line feed that it takes.
pub proof fn lemma_step_counts_lines(s: Seq<char>, i: int, line: nat)
    requires
        0 <= i < s.len(),
    ensures
        step(s, i, line).line == line + newlines(s, i, step(s, i, line).next),
{
    let next = step(s, i, line).next;
    lemma_step_advances(s, i, line);
    lemma_newlines_split(s, i, i + 1, next);
    assert(newlines(s, i, i + 1) == if s[i] == '\n' {
        1nat
    } else {
        0nat
    }) by {
        assert(newlines(s, i, i) == 0);
    }
    if s[i] == '"' {
        lemma_run_end(s, i + 1, CharClass::StringText);
    } else if digit(s[i]) {
        let p = run_end(s, i, CharClass::Digit);
        lemma_run_end(s, i, CharClass::Digit);
        assert forall|k: int| i <= k < p implies s[k] != '\n' by {
            assert(CharClass::Digit.has(s.subrange(i, p)[k - i]));
        }
        if p < next {
            lemma_run_end(s, p + 1, CharClass::Digit);
            assert forall|k: int| p + 1 <= k < next implies s[k] != '\n' by {
                assert(CharClass::Digit.has(s.subrange(p + 1, next)[k - (p + 1)]));
            }
        }
        lemma_no_newlines(s, i + 1, next);
    } else if letter(s[i]) {
        lemma_run_end(s, i + 1, CharClass::Alphanumeric);
        assert forall|k: int| i + 1 <= k < next implies s[k] != '\n' by {
            assert(CharClass::Alphanumeric.has(s.subrange(i + 1, next)[k - (i + 1)]));
        }
        lemma_no_newlines(s, i + 1, next);
    } else if s[i] == '/' && i + 1 < s.len() && s[i + 1] == '/' {
        lemma_run_end(s, i + 2, CharClass::CommentText);
        assert forall|k: int| i + 1 <= k < next implies s[k] != '\n' by {
            if k >= i + 2 {
                assert(CharClass::CommentText.has(s.subrange(i + 2, next)[k - (i + 2)]));
            }
        }
        lemma_no_newlines(s, i + 1, next);
    }
}

/// No step yields the end-of-input token.
pub proof fn lemma_step_yields_no_eof(s: Seq<char>, i: int, line: nat)
    requires
        0 <= i < s.len(),
    ensures
        step(s, i, line).output matches Yield::Token(t) ==> t.token_type != TokenType::Eof,
{
}

/// Reading yields at least one token. The last one is the end-of-input
/// token: it has no lexeme and no value, and its line is the line that
/// reading started on and one more for each line feed read. No token before
/// it is an end-of-input token.
pub proof fn lemma_one_eof_at_the_end(s: Seq<char>, i: int, line: nat)
    requires
        0 <= i <= s.len(),
    ensures
        ({
            let tokens = scan_from(s, i, line).tokens;
            &&& tokens.len() >= 1
            &&& tokens[tokens.len() - 1] == eof(line + newlines(s, i, s.len() as int))
            &&& forall|k: int|
                0 <= k < tokens.len() - 1 ==> (#[trigger] tokens[k]).token_type != TokenType::Eof
        }),
    decreases s.len() - i,
{
    if i < s.len() {
        let st = step(s, i, line);
        lemma_step_advances(s, i, line);
        lemma_step_counts_lines(s, i, line);
        lemma_newlines_split(s, i, st.next, s.len() as int);
        lemma_one_eof_at_the_end(s, st.next, st.line);
    }
}

} // verus!
