//! The classification of lexemes, as the parser consumes them.

use vstd::prelude::*;

use crate::syntax::keywords::KeywordKind;
use crate::syntax::symbol::SymbolKind;
use crate::syntax::{CommentKind, LiteralKind, WhitespaceKind};

verus! {

/// What class a lexeme falls in.
#[derive(Debug, Clone, PartialEq)]
pub enum LexemeKind {
    /// `my_func`, `MyStruct`
    Term,
    /// Blank space or a line break.
    Whitespace(WhitespaceKind),
    /// A comment.
    Comment(CommentKind),
    /// `5`
    Literal(LiteralKind),
    /// A keyword of the closed table.
    Keyword(KeywordKind),
    /// Punctuation or an operator.
    Symbol(SymbolKind),
    /// Unknown. Likely an error.
    UNKNOWN,
}

} // verus!
