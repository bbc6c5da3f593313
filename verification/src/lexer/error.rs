//! Errors reported by the tokenizer.

use vstd::prelude::*;

use crate::lexer::lexeme::Span;

verus! {

/// A lexical error: its kind and the span of characters it covers.
#[derive(Debug, PartialEq, Eq, Structural, Clone, Copy)]
pub struct LexicalError {
    pub kind: LexicalErrorKind,
    pub span: Span,
}

#[derive(Debug, PartialEq, Eq, Structural, Clone, Copy)]
pub enum LexicalErrorKind {
    /// A construct was opened but the input ended before it closed.
    DanglingLexeme,
    /// A character matches no token rule.
    InvalidLexeme,
    /// A requested span does not correspond to a valid slice of the source.
    MissingLexeme,
}

impl LexicalError {
    pub fn new(kind: LexicalErrorKind, span: Span) -> (e: Self)
        ensures
            e.kind == kind,
            e.span == span,
    {
        Self { kind, span }
    }
}

} // verus!
