//! What the scanner reports of a text that it cannot read in full.

use vstd::prelude::*;

verus! {

/// A lexical error.
#[derive(Clone, Copy, Debug, PartialEq, Eq, Structural)]
pub enum LexError {
    /// The text ends inside a string; `line` is the line that it ends on.
    UnterminatedString { line: usize },
    /// The character `ch`, on line `line`, starts no token.
    UnexpectedCharacter { ch: char, line: usize },
}

/// What a lexical error is.
pub ghost enum LexErrorView {
    UnterminatedString { line: nat },
    UnexpectedCharacter { ch: char, line: nat },
}

impl View for LexError {
    type V = LexErrorView;

    open spec fn view(&self) -> LexErrorView {
        match self {
            LexError::UnterminatedString { line } => LexErrorView::UnterminatedString {
                line: *line as nat,
            },
            LexError::UnexpectedCharacter { ch, line } => LexErrorView::UnexpectedCharacter {
                ch: *ch,
                line: *line as nat,
            },
        }
    }
}

/// The views of a sequence of errors.
pub open spec fn error_views(errors: Seq<LexError>) -> Seq<LexErrorView> {
    errors.map_values(|e: LexError| e@)
}

} // verus!
