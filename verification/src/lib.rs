//! Lexical front end of a tree-walk interpreter for a small scripting
//! language: a scanner from source text to tokens, and the expression tree
//! with its visitor protocol.

pub mod ast_print;
pub mod chars;
pub mod error;
pub mod expr;
pub mod grammar;
pub mod number;
pub mod scanner;
pub mod text;
pub mod theorems;
pub mod token;
pub mod token_type;
