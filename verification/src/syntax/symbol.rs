//! Punctuation and operator kinds, as the parser classifies them.

use vstd::prelude::*;

verus! {

/// A punctuation or operator token kind.
#[derive(Debug, Clone, PartialEq, Eq, Structural)]
pub enum SymbolKind {
    /// !
    Exclamation,
    /// "
    Quotation,
    /// #
    Number,
    /// $
    Dollar,
    /// %
    Percent,
    /// &
    Ampersand,
    /// '
    Apostrophe,
    /// (
    LParen,
    /// )
    RParen,
    /// *
    Asterisk,
    /// +
    Plus,
    /// ,
    Comma,
    /// -
    Hyphen,
    /// .
    Dot,
    /// /
    Slash,
    /// :
    Colon,
    /// ;
    Semicolon,
    /// <
    Lesser,
    /// =
    Equal,
    /// >
    Greater,
    /// ?
    Question,
    /// @
    At,
    /// [
    LSquare,
    /// \
    Backslash,
    /// ]
    RSquare,
    /// ^
    Caret,
    /// _
    Underscore,
    /// `
    Accent,
    /// {
    LCurly,
    /// |
    Pipe,
    /// }
    RCurly,
    /// ~
    Tilde,
    /// `==`
    EqualEqual,
    /// `!=`
    NotEqual,
    /// `>=`
    GreaterOrEqual,
    /// `<=`
    LesserOrEqual,
    /// `&&`
    AndAnd,
    /// `||`
    OrOr,
    /// `<<`
    LeftShift,
    /// `>>`
    RightShift,
    /// `<<<`
    LeftRotate,
    /// `>>>`
    RightRotate,
    /// `+=`
    PlusEqual,
    /// `-=`
    MinusEqual,
    /// `*=`
    MultiplyEqual,
    /// `/=`
    DivideEqual,
    /// `%=`
    ModuloEqual,
    /// `&=`
    AndEqual,
    /// `|=`
    OrEqual,
    /// `^=`
    XorEqual,
    /// `<<=`
    LeftShiftEqual,
    /// `>>=`
    RightShiftEqual,
    /// `++`
    Incriment,
    /// `--`
    Decriment,
    /// `..`
    ExclusiveRange,
    /// `..=`
    InclusiveRange,
    /// `...`
    Ellipsis,
}

} // verus!
