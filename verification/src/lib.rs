//! Lexical front end: source text in, position-annotated tokens out.

pub mod boundary;
pub mod chars;
pub mod decimal;
pub mod grammar;
pub mod lexer;
pub mod lines;
pub mod literal;
pub mod parser;
pub mod source_span;
pub mod stream;
pub mod token;
