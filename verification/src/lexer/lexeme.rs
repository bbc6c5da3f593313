//! Spans and token kinds produced by the tokenizer.

use vstd::prelude::*;

verus! {

/// A half-open range of character indices `[start, start + length)` into a
/// source buffer. Both fields count Unicode scalar values, not bytes.
#[derive(Debug, PartialEq, Eq, Structural, Clone, Copy)]
pub struct Span {
    pub start: u32,
    pub length: u32,
}

impl Span {
    pub fn new(start: u32, length: u32) -> (s: Self)
        ensures
            s.start == start,
            s.length == length,
    {
        Self { start, length }
    }

    /// The span as a `start..end` range of character indices.
    pub fn as_range(&self) -> (r: core::ops::Range<u32>)
        requires
            self.start + self.length <= u32::MAX,
        ensures
            r.start == self.start,
            r.end == self.start + self.length,
    {
        self.start..(self.start + self.length)
    }
}

/// A lexical token. Variable-length lexemes carry their exact text; lexemes
/// whose shape is fully determined by their kind carry nothing, since their
/// text can always be recovered from the kind or the span.
#[derive(Debug, PartialEq, Eq, Clone)]
pub enum Lexeme {
    /* Runs of layout characters */
    /// A run of spaces and tabs.
    Whitespace,
    /// A run of line-break characters.
    Newline,

    /* Special */
    Label(String),
    BlockComment(String),
    DocComment(String),
    InlineComment(String),

    /* Literals */
    Integer(String),
    Float(String),
    Hex(String),
    Binary(String),
    Octal(String),
    Str(String),
    Char(String),
    Bool(bool),

    /* Punctuation & Operators */
    /// !
    Bang,
    /// "
    Quote,
    /// #
    Pound,
    /// $
    Dollar,
    /// %
    Percent,
    /// &
    Ampersand,
    /// '
    Apostrophe,
    /// (
    LeftParenthesis,
    /// )
    RightParenthesis,
    /// *
    Asterisk,
    /// +
    Plus,
    /// ,
    Comma,
    /// -
    Hyphen,
    /// .
    Period,
    /// /
    Slash,
    /// :
    Colon,
    /// ;
    Semicolon,
    /// <
    Lesser,
    /// =
    Equal,
    /// >
    Greater,
    /// ?
    Question,
    /// @
    At,
    /// [
    LeftSquare,
    /// \
    BackSlash,
    /// ]
    RightSquare,
    /// ^
    Caret,
    /// _
    Underscore,
    /// `
    Grave,
    /// {
    LeftBrace,
    /// |
    Pipe,
    /// }
    RightBrace,
    /// ~
    Tilde,
    /// !=
    NotEqual,
    /// ==
    EqualEqual,
    /// <=
    LesserEqual,
    /// >=
    GreaterEqual,
    /// &&
    AndAnd,
    /// ||
    OrOr,
    /// +=
    PlusEqual,
    /// -=
    MinusEqual,
    /// *=
    AsteriskEqual,
    /// /=
    SlashEqual,
    /// %=
    PercentEqual,
    /// &=
    AmpersandEqual,
    /// |=
    PipeEqual,
    /// ^=
    CaretEqual,
    /// <<
    ShiftLeft,
    /// >>
    ShiftRight,
    /// <<<
    RotateLeft,
    /// >>>
    RotateRight,
    /// <<=
    ShiftLeftEqual,
    /// >>=
    ShiftRightEqual,
    /// ++
    Increment,
    /// --
    Decrement,
    /// ...
    Ellipsis,
    /// ..=
    RangeInclusive,
    /// ..
    Range,

    /* Keywords */
    Const,
    Else,
    Fn,
    If,
    Match,
    Mut,
    Pub,
    Return,
    Type,
    Use,
}

/// The keyword, if any, that a run of label characters spells.
pub open spec fn spec_keyword(text: Seq<char>) -> Option<Lexeme> {
    if text == "const"@ {
        Some(Lexeme::Const)
    } else if text == "else"@ {
        Some(Lexeme::Else)
    } else if text == "fn"@ {
        Some(Lexeme::Fn)
    } else if text == "if"@ {
        Some(Lexeme::If)
    } else if text == "match"@ {
        Some(Lexeme::Match)
    } else if text == "mut"@ {
        Some(Lexeme::Mut)
    } else if text == "pub"@ {
        Some(Lexeme::Pub)
    } else if text == "return"@ {
        Some(Lexeme::Return)
    } else if text == "type"@ {
        Some(Lexeme::Type)
    } else if text == "use"@ {
        Some(Lexeme::Use)
    } else {
        None
    }
}

/// Looks a piece of text up against the closed keyword table.
pub fn str_to_keyword(query: &str) -> (r: Option<Lexeme>)
    ensures
        r == spec_keyword(query@),
{
    let q: String = query.to_owned();
    if q == "const".to_owned() {
        Some(Lexeme::Const)
    } else if q == "else".to_owned() {
        Some(Lexeme::Else)
    } else if q == "fn".to_owned() {
        Some(Lexeme::Fn)
    } else if q == "if".to_owned() {
        Some(Lexeme::If)
    } else if q == "match".to_owned() {
        Some(Lexeme::Match)
    } else if q == "mut".to_owned() {
        Some(Lexeme::Mut)
    } else if q == "pub".to_owned() {
        Some(Lexeme::Pub)
    } else if q == "return".to_owned() {
        Some(Lexeme::Return)
    } else if q == "type".to_owned() {
        Some(Lexeme::Type)
    } else if q == "use".to_owned() {
        Some(Lexeme::Use)
    } else {
        None
    }
}

/// The text a lexeme stands for: the carried text for variable-length
/// lexemes, the fixed spelling for punctuation, operators, keywords and
/// boolean literals, and nothing for layout runs, whose content is only
/// recoverable from their span.
pub open spec fn lexeme_text(lex: Lexeme) -> Option<Seq<char>> {
    match lex {
        Lexeme::Whitespace => None,
        Lexeme::Newline => None,
        Lexeme::Label(s) => Some(s@),
        Lexeme::BlockComment(s) => Some(s@),
        Lexeme::DocComment(s) => Some(s@),
        Lexeme::InlineComment(s) => Some(s@),
        Lexeme::Integer(s) => Some(s@),
        Lexeme::Float(s) => Some(s@),
        Lexeme::Hex(s) => Some(s@),
        Lexeme::Binary(s) => Some(s@),
        Lexeme::Octal(s) => Some(s@),
        Lexeme::Str(s) => Some(s@),
        Lexeme::Char(s) => Some(s@),
        Lexeme::Bool(b) => Some(if b { "true"@ } else { "false"@ }),
        Lexeme::Bang => Some("!"@),
        Lexeme::Quote => Some("\""@),
        Lexeme::Pound => Some("#"@),
        Lexeme::Dollar => Some("$"@),
        Lexeme::Percent => Some("%"@),
        Lexeme::Ampersand => Some("&"@),
        Lexeme::Apostrophe => Some("'"@),
        Lexeme::LeftParenthesis => Some("("@),
        Lexeme::RightParenthesis => Some(")"@),
        Lexeme::Asterisk => Some("*"@),
        Lexeme::Plus => Some("+"@),
        Lexeme::Comma => Some(","@),
        Lexeme::Hyphen => Some("-"@),
        Lexeme::Period => Some("."@),
        Lexeme::Slash => Some("/"@),
        Lexeme::Colon => Some(":"@),
        Lexeme::Semicolon => Some(";"@),
        Lexeme::Lesser => Some("<"@),
        Lexeme::Equal => Some("="@),
        Lexeme::Greater => Some(">"@),
        Lexeme::Question => Some("?"@),
        Lexeme::At => Some("@"@),
        Lexeme::LeftSquare => Some("["@),
        Lexeme::BackSlash => Some("\\"@),
        Lexeme::RightSquare => Some("]"@),
        Lexeme::Caret => Some("^"@),
        Lexeme::Underscore => Some("_"@),
        Lexeme::Grave => Some("`"@),
        Lexeme::LeftBrace => Some("{"@),
        Lexeme::Pipe => Some("|"@),
        Lexeme::RightBrace => Some("}"@),
        Lexeme::Tilde => Some("~"@),
        Lexeme::NotEqual => Some("!="@),
        Lexeme::EqualEqual => Some("=="@),
        Lexeme::LesserEqual => Some("<="@),
        Lexeme::GreaterEqual => Some(">="@),
        Lexeme::AndAnd => Some("&&"@),
        Lexeme::OrOr => Some("||"@),
        Lexeme::PlusEqual => Some("+="@),
        Lexeme::MinusEqual => Some("-="@),
        Lexeme::AsteriskEqual => Some("*="@),
        Lexeme::SlashEqual => Some("/="@),
        Lexeme::PercentEqual => Some("%="@),
        Lexeme::AmpersandEqual => Some("&="@),
        Lexeme::PipeEqual => Some("|="@),
        Lexeme::CaretEqual => Some("^="@),
        Lexeme::ShiftLeft => Some("<<"@),
        Lexeme::ShiftRight => Some(">>"@),
        Lexeme::RotateLeft => Some("<<<"@),
        Lexeme::RotateRight => Some(">>>"@),
        Lexeme::ShiftLeftEqual => Some("<<="@),
        Lexeme::ShiftRightEqual => Some(">>="@),
        Lexeme::Increment => Some("++"@),
        Lexeme::Decrement => Some("--"@),
        Lexeme::Ellipsis => Some("..."@),
        Lexeme::RangeInclusive => Some("..="@),
        Lexeme::Range => Some(".."@),
        Lexeme::Const => Some("const"@),
        Lexeme::Else => Some("else"@),
        Lexeme::Fn => Some("fn"@),
        Lexeme::If => Some("if"@),
        Lexeme::Match => Some("match"@),
        Lexeme::Mut => Some("mut"@),
        Lexeme::Pub => Some("pub"@),
        Lexeme::Return => Some("return"@),
        Lexeme::Type => Some("type"@),
        Lexeme::Use => Some("use"@),
    }
}

impl Lexeme {
    /// The text this lexeme stands for, where the lexeme alone determines it.
    pub fn text(&self) -> (r: Option<String>)
        ensures
            match r {
                Some(s) => lexeme_text(*self) == Some(s@),
                None => lexeme_text(*self) is None,
            },
    {
        match self {
            Lexeme::Whitespace => None,
            Lexeme::Newline => None,
            Lexeme::Label(s) => Some(s.clone()),
            Lexeme::BlockComment(s) => Some(s.clone()),
            Lexeme::DocComment(s) => Some(s.clone()),
            Lexeme::InlineComment(s) => Some(s.clone()),
            Lexeme::Integer(s) => Some(s.clone()),
            Lexeme::Float(s) => Some(s.clone()),
            Lexeme::Hex(s) => Some(s.clone()),
            Lexeme::Binary(s) => Some(s.clone()),
            Lexeme::Octal(s) => Some(s.clone()),
            Lexeme::Str(s) => Some(s.clone()),
            Lexeme::Char(s) => Some(s.clone()),
            Lexeme::Bool(b) => Some(if *b { "true".to_owned() } else { "false".to_owned() }),
            Lexeme::Bang => Some("!".to_owned()),
            Lexeme::Quote => Some("\"".to_owned()),
            Lexeme::Pound => Some("#".to_owned()),
            Lexeme::Dollar => Some("$".to_owned()),
            Lexeme::Percent => Some("%".to_owned()),
            Lexeme::Ampersand => Some("&".to_owned()),
            Lexeme::Apostrophe => Some("'".to_owned()),
            Lexeme::LeftParenthesis => Some("(".to_owned()),
            Lexeme::RightParenthesis => Some(")".to_owned()),
            Lexeme::Asterisk => Some("*".to_owned()),
            Lexeme::Plus => Some("+".to_owned()),
            Lexeme::Comma => Some(",".to_owned()),
            Lexeme::Hyphen => Some("-".to_owned()),
            Lexeme::Period => Some(".".to_owned()),
            Lexeme::Slash => Some("/".to_owned()),
            Lexeme::Colon => Some(":".to_owned()),
            Lexeme::Semicolon => Some(";".to_owned()),
            Lexeme::Lesser => Some("<".to_owned()),
            Lexeme::Equal => Some("=".to_owned()),
            Lexeme::Greater => Some(">".to_owned()),
            Lexeme::Question => Some("?".to_owned()),
            Lexeme::At => Some("@".to_owned()),
            Lexeme::LeftSquare => Some("[".to_owned()),
            Lexeme::BackSlash => Some("\\".to_owned()),
            Lexeme::RightSquare => Some("]".to_owned()),
            Lexeme::Caret => Some("^".to_owned()),
            Lexeme::Underscore => Some("_".to_owned()),
            Lexeme::Grave => Some("`".to_owned()),
            Lexeme::LeftBrace => Some("{".to_owned()),
            Lexeme::Pipe => Some("|".to_owned()),
            Lexeme::RightBrace => Some("}".to_owned()),
            Lexeme::Tilde => Some("~".to_owned()),
            Lexeme::NotEqual => Some("!=".to_owned()),
            Lexeme::EqualEqual => Some("==".to_owned()),
            Lexeme::LesserEqual => Some("<=".to_owned()),
            Lexeme::GreaterEqual => Some(">=".to_owned()),
            Lexeme::AndAnd => Some("&&".to_owned()),
            Lexeme::OrOr => Some("||".to_owned()),
            Lexeme::PlusEqual => Some("+=".to_owned()),
            Lexeme::MinusEqual => Some("-=".to_owned()),
            Lexeme::AsteriskEqual => Some("*=".to_owned()),
            Lexeme::SlashEqual => Some("/=".to_owned()),
            Lexeme::PercentEqual => Some("%=".to_owned()),
            Lexeme::AmpersandEqual => Some("&=".to_owned()),
            Lexeme::PipeEqual => Some("|=".to_owned()),
            Lexeme::CaretEqual => Some("^=".to_owned()),
            Lexeme::ShiftLeft => Some("<<".to_owned()),
            Lexeme::ShiftRight => Some(">>".to_owned()),
            Lexeme::RotateLeft => Some("<<<".to_owned()),
            Lexeme::RotateRight => Some(">>>".to_owned()),
            Lexeme::ShiftLeftEqual => Some("<<=".to_owned()),
            Lexeme::ShiftRightEqual => Some(">>=".to_owned()),
            Lexeme::Increment => Some("++".to_owned()),
            Lexeme::Decrement => Some("--".to_owned()),
            Lexeme::Ellipsis => Some("...".to_owned()),
            Lexeme::RangeInclusive => Some("..=".to_owned()),
            Lexeme::Range => Some("..".to_owned()),
            Lexeme::Const => Some("const".to_owned()),
            Lexeme::Else => Some("else".to_owned()),
            Lexeme::Fn => Some("fn".to_owned()),
            Lexeme::If => Some("if".to_owned()),
            Lexeme::Match => Some("match".to_owned()),
            Lexeme::Mut => Some("mut".to_owned()),
            Lexeme::Pub => Some("pub".to_owned()),
            Lexeme::Return => Some("return".to_owned()),
            Lexeme::Type => Some("type".to_owned()),
            Lexeme::Use => Some("use".to_owned()),
        }
    }
}

} // verus!
