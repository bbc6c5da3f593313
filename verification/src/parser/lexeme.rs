//! The compact lexeme the parser walks: a kind plus a char offset and
//! length into the source buffer.

use vstd::prelude::*;

verus! {

/// A pre-parsed lexical token.
#[derive(Debug, Clone, Copy, PartialEq, Eq, Structural)]
pub struct Lexeme {
    pub kind: LexemeKind,
    /// Index of the character at the start of the lexeme.
    pub index: u32,
    /// Number of characters in the lexeme.
    pub length: u16,
}

impl Lexeme {
    pub fn new(kind: LexemeKind, index: u32, length: u16) -> (l: Self)
        ensures
            l.kind == kind,
            l.index == index,
            l.length == length,
    {
        Self { kind, index, length }
    }
}

/// A flat classification of lexemes for the parser's compact cursor.
#[derive(Debug, Clone, Copy, PartialEq, Eq, Structural)]
pub enum LexemeKind {
    /// ' '
    Space,
    /// A line break.
    NewLine,
    /// A line comment.
    LineComment,
    /// A block comment.
    BlockComment,
    /// A documentation comment.
    Documentation,
    /// A quoted run of text.
    StringLiteral,
    /// 0, 7, 10000
    NumericLiteral,
    /// true, false
    BooleanLiteral,
    /// 'a'
    CharLiteral,
    /// my_variable, MyColor
    Identifier,
    /// !
    Exclamation,
    /// "
    Quotation,
    /// #
    Number,
    /// $
    Dollar,
    /// %
    Percent,
    /// &
    Ampersand,
    /// '
    Apostrophe,
    /// (
    LParen,
    /// )
    RParen,
    /// *
    Asterisk,
    /// +
    Plus,
    /// ,
    Comma,
    /// -
    Hyphen,
    /// .
    Dot,
    /// /
    Slash,
    /// :
    Colon,
    /// ;
    Semicolon,
    /// <
    Lesser,
    /// =
    Equal,
    /// >
    Greater,
    /// ?
    Question,
    /// @
    At,
    /// [
    LSquare,
    /// \
    Backslash,
    /// ]
    RSquare,
    /// ^
    Caret,
    /// _
    Underscore,
    /// `
    Accent,
    /// {
    LCurly,
    /// |
    Pipe,
    /// }
    RCurly,
    /// ~
    Tilde,
    /// Unknown. Likely an error.
    UNKNOWN,
}

} // verus!
