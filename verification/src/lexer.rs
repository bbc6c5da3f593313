//! Lexical analysis: spans, token kinds, scan errors, and the tokenizer.

pub mod error;
pub mod lexeme;
pub mod tokenize;
