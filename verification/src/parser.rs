//! Parser-facing data: spans, compact lexemes, and the parse tree.

pub mod lexeme;
pub mod span;
pub mod tree;
