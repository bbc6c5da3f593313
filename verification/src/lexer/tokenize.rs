//! The tokenizer: a restartable scanner from character streams to spans and
//! token kinds, with well-defined error conditions.
//!
//! Scanning follows maximal munch: the longest possible match for a token
//! class wins, and multi-character operators are tried before shorter ones.
//! Every character of the input belongs to exactly one emitted span,
//! whitespace and comments included, so a full scan tiles the source text.

use vstd::prelude::*;
use vstd::string::StrSliceExecFns;

use crate::lexer::error::{LexicalError, LexicalErrorKind};
use crate::lexer::lexeme::{spec_keyword, Lexeme, Span};

verus! {

/// Space or tab: a run of these forms one whitespace token.
pub open spec fn is_blank_char(c: char) -> bool {
    c == ' ' || c == '\t'
}

/// Line-break characters: a run of these forms one newline token.
pub open spec fn is_line_break_char(c: char) -> bool {
    c == '\n' || c == '\r'
}

pub open spec fn is_letter_char(c: char) -> bool {
    ||| 'a' as u32 <= c as u32 && c as u32 <= 'z' as u32
    ||| 'A' as u32 <= c as u32 && c as u32 <= 'Z' as u32
}

pub open spec fn is_digit_char(c: char) -> bool {
    '0' as u32 <= c as u32 && c as u32 <= '9' as u32
}

pub open spec fn is_hex_digit_char(c: char) -> bool {
    ||| is_digit_char(c)
    ||| 'a' as u32 <= c as u32 && c as u32 <= 'f' as u32
    ||| 'A' as u32 <= c as u32 && c as u32 <= 'F' as u32
}

pub open spec fn is_bin_digit_char(c: char) -> bool {
    c == '0' || c == '1'
}

pub open spec fn is_oct_digit_char(c: char) -> bool {
    '0' as u32 <= c as u32 && c as u32 <= '7' as u32
}

/// Characters that may continue an identifier or keyword.
pub open spec fn is_label_char(c: char) -> bool {
    is_letter_char(c) || is_digit_char(c) || c == '_'
}

/// ASCII punctuation, the characters that can start a symbol token.
pub open spec fn is_punct_char(c: char) -> bool {
    ||| 33 <= c as u32 && c as u32 <= 47
    ||| 58 <= c as u32 && c as u32 <= 64
    ||| 91 <= c as u32 && c as u32 <= 96
    ||| 123 <= c as u32 && c as u32 <= 126
}

/// A class of characters that the scanner consumes as one greedy run.
#[derive(Debug, Clone, Copy, PartialEq, Eq, Structural)]
pub enum CharClass {
    Blank,
    LineBreak,
    LabelTail,
    DecDigit,
    HexDigit,
    BinDigit,
    OctDigit,
    NotLineBreak,
    NotQuote,
    NotApostrophe,
}

pub open spec fn in_class(cl: CharClass, c: char) -> bool {
    match cl {
        CharClass::Blank => is_blank_char(c),
        CharClass::LineBreak => is_line_break_char(c),
        CharClass::LabelTail => is_label_char(c),
        CharClass::DecDigit => is_digit_char(c),
        CharClass::HexDigit => is_hex_digit_char(c),
        CharClass::BinDigit => is_bin_digit_char(c),
        CharClass::OctDigit => is_oct_digit_char(c),
        CharClass::NotLineBreak => !is_line_break_char(c),
        CharClass::NotQuote => c != '"',
        CharClass::NotApostrophe => c != '\'',
    }
}

/// Whether a character belongs to a class.
pub fn char_in_class(cl: CharClass, c: char) -> (b: bool)
    ensures
        b == in_class(cl, c),
{
    let u = c as u32;
    match cl {
        CharClass::Blank => c == ' ' || c == '\t',
        CharClass::LineBreak => c == '\n' || c == '\r',
        CharClass::LabelTail => ('a' as u32 <= u && u <= 'z' as u32) || ('A' as u32 <= u && u
            <= 'Z' as u32) || ('0' as u32 <= u && u <= '9' as u32) || c == '_',
        CharClass::DecDigit => '0' as u32 <= u && u <= '9' as u32,
        CharClass::HexDigit => ('0' as u32 <= u && u <= '9' as u32) || ('a' as u32 <= u && u
            <= 'f' as u32) || ('A' as u32 <= u && u <= 'F' as u32),
        CharClass::BinDigit => c == '0' || c == '1',
        CharClass::OctDigit => '0' as u32 <= u && u <= '7' as u32,
        CharClass::NotLineBreak => !(c == '\n' || c == '\r'),
        CharClass::NotQuote => c != '"',
        CharClass::NotApostrophe => c != '\'',
    }
}

/// The first position at or after `i` whose character leaves the class: the
/// end of the greedy run of `cl` characters that starts at `i`.
pub open spec fn run_end(src: Seq<char>, cl: CharClass, i: int) -> int
    decreases src.len() - i when i <= src.len()
{
    if 0 <= i < src.len() && in_class(cl, src[i]) {
        run_end(src, cl, i + 1)
    } else {
        i
    }
}

pub proof fn lemma_run_end(src: Seq<char>, cl: CharClass, i: int)
    requires
        0 <= i <= src.len(),
    ensures
        i <= run_end(src, cl, i) <= src.len(),
        forall|k: int| i <= k < run_end(src, cl, i) ==> in_class(cl, src[k]),
        run_end(src, cl, i) < src.len() ==> !in_class(cl, src[run_end(src, cl, i)]),
    decreases src.len() - i,
{
    if i < src.len() && in_class(cl, src[i]) {
        lemma_run_end(src, cl, i + 1);
    }
}

/// The position of the first `*/` pair at or after `j`, or the source length
/// when no such pair exists.
pub open spec fn block_close(src: Seq<char>, j: int) -> int
    decreases src.len() - j when j <= src.len()
{
    if 0 <= j && j + 1 < src.len() {
        if src[j] == '*' && src[j + 1] == '/' {
            j
        } else {
            block_close(src, j + 1)
        }
    } else {
        src.len() as int
    }
}

pub proof fn lemma_block_close(src: Seq<char>, j: int)
    requires
        0 <= j <= src.len(),
    ensures
        j <= block_close(src, j) <= src.len(),
        block_close(src, j) < src.len() ==> block_close(src, j) + 1 < src.len() && src[block_close(
            src,
            j,
        )] == '*' && src[block_close(src, j) + 1] == '/',
    decreases src.len() - j,
{
    if j + 1 < src.len() && !(src[j] == '*' && src[j + 1] == '/') {
        lemma_block_close(src, j + 1);
    }
}

/// True when position `k` exists and holds character `c`.
pub open spec fn char_at_is(src: Seq<char>, k: int, c: char) -> bool {
    0 <= k < src.len() && src[k] == c
}

/// The symbol token starting at `i` and the number of characters it munches:
/// multi-character operators are resolved by looking ahead up to two further
/// characters, longest match first.
pub open spec fn spec_symbol(src: Seq<char>, i: int) -> (Lexeme, int) {
    let c = src[i];
    if c == '!' {
        if char_at_is(src, i + 1, '=') {
            (Lexeme::NotEqual, 2)
        } else {
            (Lexeme::Bang, 1)
        }
    } else if c == '"' {
        (Lexeme::Quote, 1)
    } else if c == '#' {
        (Lexeme::Pound, 1)
    } else if c == '$' {
        (Lexeme::Dollar, 1)
    } else if c == '%' {
        if char_at_is(src, i + 1, '=') {
            (Lexeme::PercentEqual, 2)
        } else {
            (Lexeme::Percent, 1)
        }
    } else if c == '&' {
        if char_at_is(src, i + 1, '&') {
            (Lexeme::AndAnd, 2)
        } else if char_at_is(src, i + 1, '=') {
            (Lexeme::AmpersandEqual, 2)
        } else {
            (Lexeme::Ampersand, 1)
        }
    } else if c == '\'' {
        (Lexeme::Apostrophe, 1)
    } else if c == '(' {
        (Lexeme::LeftParenthesis, 1)
    } else if c == ')' {
        (Lexeme::RightParenthesis, 1)
    } else if c == '*' {
        if char_at_is(src, i + 1, '=') {
            (Lexeme::AsteriskEqual, 2)
        } else {
            (Lexeme::Asterisk, 1)
        }
    } else if c == '+' {
        if char_at_is(src, i + 1, '+') {
            (Lexeme::Increment, 2)
        } else if char_at_is(src, i + 1, '=') {
            (Lexeme::PlusEqual, 2)
        } else {
            (Lexeme::Plus, 1)
        }
    } else if c == ',' {
        (Lexeme::Comma, 1)
    } else if c == '-' {
        if char_at_is(src, i + 1, '-') {
            (Lexeme::Decrement, 2)
        } else if char_at_is(src, i + 1, '=') {
            (Lexeme::MinusEqual, 2)
        } else {
            (Lexeme::Hyphen, 1)
        }
    } else if c == '.' {
        if char_at_is(src, i + 1, '.') {
            if char_at_is(src, i + 2, '.') {
                (Lexeme::Ellipsis, 3)
            } else if char_at_is(src, i + 2, '=') {
                (Lexeme::RangeInclusive, 3)
            } else {
                (Lexeme::Range, 2)
            }
        } else {
            (Lexeme::Period, 1)
        }
    } else if c == '/' {
        if char_at_is(src, i + 1, '=') {
            (Lexeme::SlashEqual, 2)
        } else {
            (Lexeme::Slash, 1)
        }
    } else if c == ':' {
        (Lexeme::Colon, 1)
    } else if c == ';' {
        (Lexeme::Semicolon, 1)
    } else if c == '<' {
        if char_at_is(src, i + 1, '<') {
            if char_at_is(src, i + 2, '<') {
                (Lexeme::RotateLeft, 3)
            } else if char_at_is(src, i + 2, '=') {
                (Lexeme::ShiftLeftEqual, 3)
            } else {
                (Lexeme::ShiftLeft, 2)
            }
        } else if char_at_is(src, i + 1, '=') {
            (Lexeme::LesserEqual, 2)
        } else {
            (Lexeme::Lesser, 1)
        }
    } else if c == '=' {
        if char_at_is(src, i + 1, '=') {
            (Lexeme::EqualEqual, 2)
        } else {
            (Lexeme::Equal, 1)
        }
    } else if c == '>' {
        if char_at_is(src, i + 1, '>') {
            if char_at_is(src, i + 2, '>') {
                (Lexeme::RotateRight, 3)
            } else if char_at_is(src, i + 2, '=') {
                (Lexeme::ShiftRightEqual, 3)
            } else {
                (Lexeme::ShiftRight, 2)
            }
        } else if char_at_is(src, i + 1, '=') {
            (Lexeme::GreaterEqual, 2)
        } else {
            (Lexeme::Greater, 1)
        }
    } else if c == '?' {
        (Lexeme::Question, 1)
    } else if c == '@' {
        (Lexeme::At, 1)
    } else if c == '[' {
        (Lexeme::LeftSquare, 1)
    } else if c == '\\' {
        (Lexeme::BackSlash, 1)
    } else if c == ']' {
        (Lexeme::RightSquare, 1)
    } else if c == '^' {
        if char_at_is(src, i + 1, '=') {
            (Lexeme::CaretEqual, 2)
        } else {
            (Lexeme::Caret, 1)
        }
    } else if c == '_' {
        (Lexeme::Underscore, 1)
    } else if c == '`' {
        (Lexeme::Grave, 1)
    } else if c == '{' {
        (Lexeme::LeftBrace, 1)
    } else if c == '|' {
        if char_at_is(src, i + 1, '|') {
            (Lexeme::OrOr, 2)
        } else if char_at_is(src, i + 1, '=') {
            (Lexeme::PipeEqual, 2)
        } else {
            (Lexeme::Pipe, 1)
        }
    } else if c == '}' {
        (Lexeme::RightBrace, 1)
    } else {
        (Lexeme::Tilde, 1)
    }
}

/// The class of the lexeme or error that consumption at position `i` yields.
#[derive(Debug, Clone, Copy, PartialEq, Eq, Structural)]
pub enum LexemeShape {
    Blank,
    LineBreak,
    DocComment,
    BlockComment,
    LineComment,
    StrLit,
    CharLit,
    HexLit,
    BinLit,
    OctLit,
    FloatLit,
    IntLit,
    Word,
    Symbol,
    DanglingComment,
    DanglingStr,
    DanglingChar,
    Invalid,
}

/// Classifies the token or error starting at position `i`. The branch order
/// is the scanner's dispatch order.
pub open spec fn shape_at(src: Seq<char>, i: int) -> LexemeShape {
    let c = src[i];
    if is_blank_char(c) {
        LexemeShape::Blank
    } else if is_line_break_char(c) {
        LexemeShape::LineBreak
    } else if c == '/' && char_at_is(src, i + 1, '/') {
        if char_at_is(src, i + 2, '/') {
            LexemeShape::DocComment
        } else if char_at_is(src, i + 2, '*') {
            if block_close(src, i + 2) < src.len() {
                LexemeShape::BlockComment
            } else {
                LexemeShape::DanglingComment
            }
        } else {
            LexemeShape::LineComment
        }
    } else if c == '"' {
        if run_end(src, CharClass::NotQuote, i + 1) < src.len() {
            LexemeShape::StrLit
        } else {
            LexemeShape::DanglingStr
        }
    } else if c == '\'' {
        if run_end(src, CharClass::NotApostrophe, i + 1) < src.len() {
            LexemeShape::CharLit
        } else {
            LexemeShape::DanglingChar
        }
    } else if c == '0' && char_at_is(src, i + 1, 'x') {
        LexemeShape::HexLit
    } else if c == '0' && char_at_is(src, i + 1, 'b') {
        LexemeShape::BinLit
    } else if c == '0' && char_at_is(src, i + 1, 'o') {
        LexemeShape::OctLit
    } else if is_digit_char(c) {
        let j = run_end(src, CharClass::DecDigit, i);
        if char_at_is(src, j, '.') && j + 1 < src.len() && is_digit_char(src[j + 1]) {
            LexemeShape::FloatLit
        } else {
            LexemeShape::IntLit
        }
    } else if is_letter_char(c) {
        LexemeShape::Word
    } else if is_punct_char(c) {
        LexemeShape::Symbol
    } else {
        LexemeShape::Invalid
    }
}

/// The end of the span that consumption at position `i` covers, for tokens
/// and errors alike.
pub open spec fn step_end(src: Seq<char>, i: int) -> int {
    match shape_at(src, i) {
        LexemeShape::Blank => run_end(src, CharClass::Blank, i),
        LexemeShape::LineBreak => run_end(src, CharClass::LineBreak, i),
        LexemeShape::DocComment => run_end(src, CharClass::NotLineBreak, i),
        LexemeShape::BlockComment => block_close(src, i + 2) + 2,
        LexemeShape::LineComment => run_end(src, CharClass::NotLineBreak, i),
        LexemeShape::StrLit => run_end(src, CharClass::NotQuote, i + 1) + 1,
        LexemeShape::CharLit => run_end(src, CharClass::NotApostrophe, i + 1) + 1,
        LexemeShape::HexLit => run_end(src, CharClass::HexDigit, i + 2),
        LexemeShape::BinLit => run_end(src, CharClass::BinDigit, i + 2),
        LexemeShape::OctLit => run_end(src, CharClass::OctDigit, i + 2),
        LexemeShape::FloatLit => run_end(
            src,
            CharClass::DecDigit,
            run_end(src, CharClass::DecDigit, i) + 1,
        ),
        LexemeShape::IntLit => run_end(src, CharClass::DecDigit, i),
        LexemeShape::Word => run_end(src, CharClass::LabelTail, i),
        LexemeShape::Symbol => i + spec_symbol(src, i).1,
        LexemeShape::DanglingComment => src.len() as int,
        LexemeShape::DanglingStr => src.len() as int,
        LexemeShape::DanglingChar => src.len() as int,
        LexemeShape::Invalid => i + 1,
    }
}

/// Whether consumption at position `i` fails with a lexical error.
pub open spec fn step_is_err(src: Seq<char>, i: int) -> bool {
    match shape_at(src, i) {
        LexemeShape::DanglingComment => true,
        LexemeShape::DanglingStr => true,
        LexemeShape::DanglingChar => true,
        LexemeShape::Invalid => true,
        _ => false,
    }
}

/// The error that consumption at position `i` reports: a dangling construct
/// spans from its opening to the end of the input, an invalid character
/// spans exactly itself.
pub open spec fn step_err(src: Seq<char>, i: int, e: LexicalError) -> bool {
    &&& 0 <= i < src.len()
    &&& step_is_err(src, i)
    &&& e.kind == if shape_at(src, i) == LexemeShape::Invalid {
        LexicalErrorKind::InvalidLexeme
    } else {
        LexicalErrorKind::DanglingLexeme
    }
    &&& e.span.start as int == i
    &&& e.span.length as int == step_end(src, i) - i
}

/// The lexeme that a run of label characters yields: boolean literals take
/// precedence, then the keyword table, and any other text is an identifier.
pub open spec fn word_lexeme(text: Seq<char>, lex: Lexeme) -> bool {
    if text == "true"@ {
        lex == Lexeme::Bool(true)
    } else if text == "false"@ {
        lex == Lexeme::Bool(false)
    } else {
        match spec_keyword(text) {
            Some(k) => lex == k,
            None => lex matches Lexeme::Label(s) && s@ == text,
        }
    }
}

/// The token that consumption at position `i` yields, both its kind and,
/// for variable-length lexemes, its exact text.
pub open spec fn step_lexeme(src: Seq<char>, i: int, lex: Lexeme) -> bool {
    let text = src.subrange(i, step_end(src, i));
    match shape_at(src, i) {
        LexemeShape::Blank => lex == Lexeme::Whitespace,
        LexemeShape::LineBreak => lex == Lexeme::Newline,
        LexemeShape::DocComment => lex matches Lexeme::DocComment(s) && s@ == text,
        LexemeShape::BlockComment => lex matches Lexeme::BlockComment(s) && s@ == text,
        LexemeShape::LineComment => lex matches Lexeme::InlineComment(s) && s@ == text,
        LexemeShape::StrLit => lex matches Lexeme::Str(s) && s@ == text,
        LexemeShape::CharLit => lex matches Lexeme::Char(s) && s@ == text,
        LexemeShape::HexLit => lex matches Lexeme::Hex(s) && s@ == text,
        LexemeShape::BinLit => lex matches Lexeme::Binary(s) && s@ == text,
        LexemeShape::OctLit => lex matches Lexeme::Octal(s) && s@ == text,
        LexemeShape::FloatLit => lex matches Lexeme::Float(s) && s@ == text,
        LexemeShape::IntLit => lex matches Lexeme::Integer(s) && s@ == text,
        LexemeShape::Word => word_lexeme(text, lex),
        LexemeShape::Symbol => lex == spec_symbol(src, i).0,
        LexemeShape::DanglingComment => false,
        LexemeShape::DanglingStr => false,
        LexemeShape::DanglingChar => false,
        LexemeShape::Invalid => false,
    }
}

/// Every step covers at least one character and stays inside the source.
pub proof fn lemma_step_bounds(src: Seq<char>, i: int)
    requires
        0 <= i < src.len(),
    ensures
        i < step_end(src, i) <= src.len(),
{
    let c = src[i];
    match shape_at(src, i) {
        LexemeShape::Blank => lemma_run_end(src, CharClass::Blank, i),
        LexemeShape::LineBreak => lemma_run_end(src, CharClass::LineBreak, i),
        LexemeShape::DocComment => lemma_run_end(src, CharClass::NotLineBreak, i),
        LexemeShape::BlockComment => lemma_block_close(src, i + 2),
        LexemeShape::LineComment => lemma_run_end(src, CharClass::NotLineBreak, i),
        LexemeShape::StrLit => lemma_run_end(src, CharClass::NotQuote, i + 1),
        LexemeShape::CharLit => lemma_run_end(src, CharClass::NotApostrophe, i + 1),
        LexemeShape::HexLit => lemma_run_end(src, CharClass::HexDigit, i + 2),
        LexemeShape::BinLit => lemma_run_end(src, CharClass::BinDigit, i + 2),
        LexemeShape::OctLit => lemma_run_end(src, CharClass::OctDigit, i + 2),
        LexemeShape::FloatLit => {
            let j = run_end(src, CharClass::DecDigit, i);
            lemma_run_end(src, CharClass::DecDigit, i);
            lemma_run_end(src, CharClass::DecDigit, j + 1);
        },
        LexemeShape::IntLit => lemma_run_end(src, CharClass::DecDigit, i),
        LexemeShape::Word => lemma_run_end(src, CharClass::LabelTail, i),
        LexemeShape::Symbol => {
            assert(spec_symbol(src, i).1 == 1 || spec_symbol(src, i).1 == 2 || spec_symbol(
                src,
                i,
            ).1 == 3);
            assert(i + spec_symbol(src, i).1 <= src.len());
        },
        LexemeShape::DanglingComment => {},
        LexemeShape::DanglingStr => {},
        LexemeShape::DanglingChar => {},
        LexemeShape::Invalid => {},
    }
}

/// What one consumption step, started at position `i`, must produce: a
/// token whose span begins at `i` and ends where the next step begins, with
/// the kind and text that the source dictates there, or the error that the
/// source dictates. An error consumes its span too, so every error is
/// emitted exactly once and the stream stays finite: a dangling construct
/// runs to the end of the input and ends the stream, an invalid character
/// is passed over.
pub open spec fn step_result(
    src: Seq<char>,
    i: int,
    new_pos: int,
    r: Result<(Span, Lexeme), LexicalError>,
) -> bool {
    match r {
        Ok((sp, lex)) => {
            &&& !step_is_err(src, i)
            &&& sp.start as int == i
            &&& sp.length as int == step_end(src, i) - i
            &&& new_pos == step_end(src, i)
            &&& step_lexeme(src, i, lex)
        },
        Err(e) => {
            &&& step_is_err(src, i)
            &&& step_err(src, i, e)
            &&& new_pos == step_end(src, i)
        },
    }
}

/// Whether a character can start an identifier or keyword.
fn letter_char(c: char) -> (b: bool)
    ensures
        b == is_letter_char(c),
{
    let u = c as u32;
    ('a' as u32 <= u && u <= 'z' as u32) || ('A' as u32 <= u && u <= 'Z' as u32)
}

/// Whether a character is ASCII punctuation.
fn punct_char(c: char) -> (b: bool)
    ensures
        b == is_punct_char(c),
{
    let u = c as u32;
    (33 <= u && u <= 47) || (58 <= u && u <= 64) || (91 <= u && u <= 96) || (123 <= u && u <= 126)
}

/// The scanner over one source buffer. It keeps the buffer both as text,
/// for slicing, and as its characters, so that all span arithmetic counts
/// Unicode scalar values and multi-byte characters cannot desynchronize it.
pub struct Tokenizer {
    text: String,
    source: Vec<char>,
    index: usize,
}

impl Tokenizer {
    /// The characters of the source buffer.
    pub closed spec fn src(&self) -> Seq<char> {
        self.source@
    }

    /// The current scan position, in characters.
    pub closed spec fn pos(&self) -> int {
        self.index as int
    }

    /// Well-formedness: the text and character forms of the buffer agree,
    /// the position is inside the buffer, and every span fits in its fields.
    pub closed spec fn wf(&self) -> bool {
        &&& self.text@ == self.source@
        &&& self.index <= self.source@.len()
        &&& self.source@.len() <= u32::MAX
    }

    pub fn new(source: &str) -> (t: Tokenizer)
        requires
            source@.len() <= u32::MAX,
        ensures
            t.wf(),
            t.src() == source@,
            t.pos() == 0,
    {
        let n = source.unicode_len();
        let mut chars: Vec<char> = Vec::new();
        let mut i: usize = 0;
        while i < n
            invariant
                n == source@.len(),
                i <= n,
                chars@ == source@.take(i as int),
            decreases n - i,
        {
            chars.push(source.get_char(i));
            proof {
                assert(source@.take(i + 1) =~= source@.take(i as int).push(source@[i as int]));
            }
            i = i + 1;
        }
        proof {
            assert(chars@ =~= source@);
        }
        Tokenizer { text: source.to_owned(), source: chars, index: 0 }
    }

    /// Restarts scanning from the given character offset.
    pub fn jump(&mut self, index: u32)
        requires
            old(self).wf(),
            index as int <= old(self).src().len(),
        ensures
            final(self).wf(),
            final(self).src() == old(self).src(),
            final(self).pos() == index as int,
    {
        self.index = index as usize;
    }

    /// Advances past the current character.
    fn bump(&mut self)
        requires
            old(self).wf(),
            old(self).pos() < old(self).src().len(),
        ensures
            final(self).wf(),
            final(self).src() == old(self).src(),
            final(self).pos() == old(self).pos() + 1,
    {
        self.index = self.index + 1;
    }

    /// Consumes the greedy run of class characters at the current position.
    /// Returns the number of characters consumed.
    fn consume(&mut self, cl: CharClass) -> (n: u32)
        requires
            old(self).wf(),
        ensures
            final(self).wf(),
            final(self).src() == old(self).src(),
            final(self).pos() == run_end(old(self).src(), cl, old(self).pos()),
            final(self).pos() == old(self).pos() + n,
    {
        let start: usize = self.index;
        while self.index < self.source.len() && char_in_class(cl, self.source[self.index])
            invariant
                self.wf(),
                self.src() == old(self).src(),
                start <= self.index,
                run_end(self.src(), cl, start as int) == run_end(self.src(), cl, self.pos()),
            decreases self.src().len() - self.pos(),
        {
            self.index = self.index + 1;
        }
        (self.index - start) as u32
    }

    /// The slice of the source that a span names, or `MissingLexeme` when
    /// the span reaches beyond the source.
    pub fn get_span(&self, span: &Span) -> (r: Result<String, LexicalErrorKind>)
        requires
            self.wf(),
        ensures
            match r {
                Ok(s) => span.start as int + span.length as int <= self.src().len() && s@
                    == self.src().subrange(
                    span.start as int,
                    span.start as int + span.length as int,
                ),
                Err(k) => k == LexicalErrorKind::MissingLexeme && span.start as int
                    + span.length as int > self.src().len(),
            },
    {
        let end = span.start as u64 + span.length as u64;
        if end <= self.source.len() as u64 {
            Ok(self.token_text(span.start as usize, (span.start + span.length) as usize))
        } else {
            Err(LexicalErrorKind::MissingLexeme)
        }
    }

    /// Copies the text between two character positions.
    fn token_text(&self, from: usize, to: usize) -> (s: String)
        requires
            self.wf(),
            from <= to <= self.src().len(),
        ensures
            s@ == self.src().subrange(from as int, to as int),
    {
        self.text.as_str().substring_char(from, to).to_owned()
    }

    /// Scans a comment: `///` opens a documentation comment and `//*` a
    /// block comment, any other `//` a line comment. A block comment left
    /// open at the end of the input is a dangling lexeme.
    fn handle_comment(&mut self) -> (r: Result<(Span, Lexeme), LexicalError>)
        requires
            old(self).wf(),
            old(self).pos() < old(self).src().len(),
            old(self).src()[old(self).pos()] == '/',
            char_at_is(old(self).src(), old(self).pos() + 1, '/'),
        ensures
            final(self).wf(),
            final(self).src() == old(self).src(),
            step_result(old(self).src(), old(self).pos(), final(self).pos(), r),
    {
        let start: usize = self.index;
        let n: usize = self.source.len();
        if n - start > 2 && self.source[start + 2] == '/' {
            self.consume(CharClass::NotLineBreak);
            let text = self.token_text(start, self.index);
            Ok((Span::new(start as u32, (self.index - start) as u32), Lexeme::DocComment(text)))
        } else if n - start > 2 && self.source[start + 2] == '*' {
            let mut k: usize = start + 2;
            while n - k > 1 && !(self.source[k] == '*' && self.source[k + 1] == '/')
                invariant
                    self.wf(),
                    n == self.src().len(),
                    start + 2 <= k <= n,
                    block_close(self.src(), start + 2) == block_close(self.src(), k as int),
                decreases n - k,
            {
                k = k + 1;
            }
            if n - k > 1 {
                self.index = k + 2;
                let text = self.token_text(start, self.index);
                Ok(
                    (
                        Span::new(start as u32, (self.index - start) as u32),
                        Lexeme::BlockComment(text),
                    ),
                )
            } else {
                proof {
                    lemma_block_close(self.src(), start + 2);
                }
                self.index = n;
                Err(
                    LexicalError::new(
                        LexicalErrorKind::DanglingLexeme,
                        Span::new(start as u32, (n - start) as u32),
                    ),
                )
            }
        } else {
            self.consume(CharClass::NotLineBreak);
            let text = self.token_text(start, self.index);
            Ok((Span::new(start as u32, (self.index - start) as u32), Lexeme::InlineComment(text)))
        }
    }

    /// Scans a string literal: everything up to and including the closing
    /// quote. An unterminated string is a dangling lexeme.
    fn handle_string(&mut self) -> (r: Result<(Span, Lexeme), LexicalError>)
        requires
            old(self).wf(),
            old(self).pos() < old(self).src().len(),
            old(self).src()[old(self).pos()] == '"',
        ensures
            final(self).wf(),
            final(self).src() == old(self).src(),
            step_result(old(self).src(), old(self).pos(), final(self).pos(), r),
    {
        let start: usize = self.index;
        self.bump();
        self.consume(CharClass::NotQuote);
        if self.index < self.source.len() {
            self.bump();
            let text = self.token_text(start, self.index);
            Ok((Span::new(start as u32, (self.index - start) as u32), Lexeme::Str(text)))
        } else {
            let length: u32 = (self.source.len() - start) as u32;
            Err(
                LexicalError::new(
                    LexicalErrorKind::DanglingLexeme,
                    Span::new(start as u32, length),
                ),
            )
        }
    }

    /// Scans a character literal: everything up to and including the
    /// closing apostrophe. An unterminated literal is a dangling lexeme.
    fn handle_char_lit(&mut self) -> (r: Result<(Span, Lexeme), LexicalError>)
        requires
            old(self).wf(),
            old(self).pos() < old(self).src().len(),
            old(self).src()[old(self).pos()] == '\'',
        ensures
            final(self).wf(),
            final(self).src() == old(self).src(),
            step_result(old(self).src(), old(self).pos(), final(self).pos(), r),
    {
        let start: usize = self.index;
        self.bump();
        self.consume(CharClass::NotApostrophe);
        if self.index < self.source.len() {
            self.bump();
            let text = self.token_text(start, self.index);
            Ok((Span::new(start as u32, (self.index - start) as u32), Lexeme::Char(text)))
        } else {
            let length: u32 = (self.source.len() - start) as u32;
            Err(
                LexicalError::new(
                    LexicalErrorKind::DanglingLexeme,
                    Span::new(start as u32, length),
                ),
            )
        }
    }

    /// Scans an identifier, keyword or boolean literal: a greedy run of
    /// label characters, then a lookup against the closed keyword table.
    fn handle_label(&mut self) -> (r: Result<(Span, Lexeme), LexicalError>)
        requires
            old(self).wf(),
            old(self).pos() < old(self).src().len(),
            is_letter_char(old(self).src()[old(self).pos()]),
        ensures
            final(self).wf(),
            final(self).src() == old(self).src(),
            step_result(old(self).src(), old(self).pos(), final(self).pos(), r),
    {
        let start: usize = self.index;
        self.consume(CharClass::LabelTail);
        let text = self.token_text(start, self.index);
        let sp = Span::new(start as u32, (self.index - start) as u32);
        if text == "true".to_owned() {
            Ok((sp, Lexeme::Bool(true)))
        } else if text == "false".to_owned() {
            Ok((sp, Lexeme::Bool(false)))
        } else {
            match crate::lexer::lexeme::str_to_keyword(text.as_str()) {
                Some(k) => Ok((sp, k)),
                None => Ok((sp, Lexeme::Label(text))),
            }
        }
    }

    /// Scans a hexadecimal literal, prefix included.
    fn handle_hex(&mut self) -> (r: Result<(Span, Lexeme), LexicalError>)
        requires
            old(self).wf(),
            old(self).pos() < old(self).src().len(),
            old(self).src()[old(self).pos()] == '0',
            char_at_is(old(self).src(), old(self).pos() + 1, 'x'),
        ensures
            final(self).wf(),
            final(self).src() == old(self).src(),
            step_result(old(self).src(), old(self).pos(), final(self).pos(), r),
    {
        let start: usize = self.index;
        self.bump();
        self.bump();
        self.consume(CharClass::HexDigit);
        let text = self.token_text(start, self.index);
        Ok((Span::new(start as u32, (self.index - start) as u32), Lexeme::Hex(text)))
    }

    /// Scans a binary literal, prefix included.
    fn handle_binary(&mut self) -> (r: Result<(Span, Lexeme), LexicalError>)
        requires
            old(self).wf(),
            old(self).pos() < old(self).src().len(),
            old(self).src()[old(self).pos()] == '0',
            char_at_is(old(self).src(), old(self).pos() + 1, 'b'),
        ensures
            final(self).wf(),
            final(self).src() == old(self).src(),
            step_result(old(self).src(), old(self).pos(), final(self).pos(), r),
    {
        let start: usize = self.index;
        self.bump();
        self.bump();
        self.consume(CharClass::BinDigit);
        let text = self.token_text(start, self.index);
        Ok((Span::new(start as u32, (self.index - start) as u32), Lexeme::Binary(text)))
    }

    /// Scans an octal literal, prefix included.
    fn handle_octal(&mut self) -> (r: Result<(Span, Lexeme), LexicalError>)
        requires
            old(self).wf(),
            old(self).pos() < old(self).src().len(),
            old(self).src()[old(self).pos()] == '0',
            char_at_is(old(self).src(), old(self).pos() + 1, 'o'),
        ensures
            final(self).wf(),
            final(self).src() == old(self).src(),
            step_result(old(self).src(), old(self).pos(), final(self).pos(), r),
    {
        let start: usize = self.index;
        self.bump();
        self.bump();
        self.consume(CharClass::OctDigit);
        let text = self.token_text(start, self.index);
        Ok((Span::new(start as u32, (self.index - start) as u32), Lexeme::Octal(text)))
    }

    /// Scans a decimal literal: a run of digits, which becomes a float when
    /// a dot and at least one further digit follow immediately. The dot is
    /// consumed only as a float separator.
    fn handle_number(&mut self) -> (r: Result<(Span, Lexeme), LexicalError>)
        requires
            old(self).wf(),
            old(self).pos() < old(self).src().len(),
            is_digit_char(old(self).src()[old(self).pos()]),
            !(old(self).src()[old(self).pos()] == '0' && (char_at_is(
                old(self).src(),
                old(self).pos() + 1,
                'x',
            ) || char_at_is(old(self).src(), old(self).pos() + 1, 'b') || char_at_is(
                old(self).src(),
                old(self).pos() + 1,
                'o',
            ))),
        ensures
            final(self).wf(),
            final(self).src() == old(self).src(),
            step_result(old(self).src(), old(self).pos(), final(self).pos(), r),
    {
        let start: usize = self.index;
        let n: usize = self.source.len();
        self.consume(CharClass::DecDigit);
        let j: usize = self.index;
        if n - j > 1 && self.source[j] == '.' && char_in_class(
            CharClass::DecDigit,
            self.source[j + 1],
        ) {
            self.index = j + 1;
            self.consume(CharClass::DecDigit);
            let text = self.token_text(start, self.index);
            Ok((Span::new(start as u32, (self.index - start) as u32), Lexeme::Float(text)))
        } else {
            let text = self.token_text(start, j);
            Ok((Span::new(start as u32, (j - start) as u32), Lexeme::Integer(text)))
        }
    }

    /// Scans a punctuation or operator token, resolving multi-character
    /// operators by lookahead, longest match first.
    fn handle_punctuation(&mut self) -> (r: Result<(Span, Lexeme), LexicalError>)
        requires
            old(self).wf(),
            old(self).pos() < old(self).src().len(),
            shape_at(old(self).src(), old(self).pos()) == LexemeShape::Symbol,
        ensures
            final(self).wf(),
            final(self).src() == old(self).src(),
            step_result(old(self).src(), old(self).pos(), final(self).pos(), r),
    {
        let i: usize = self.index;
        let n: usize = self.source.len();
        let c = self.source[i];
        let peek1: Option<char> = if n - i > 1 {
            Some(self.source[i + 1])
        } else {
            None
        };
        let peek2: Option<char> = if n - i > 2 {
            Some(self.source[i + 2])
        } else {
            None
        };
        let (lex, munch): (Lexeme, usize) = match c {
            '!' => match peek1 {
                Some('=') => (Lexeme::NotEqual, 2),
                _ => (Lexeme::Bang, 1),
            },
            '"' => (Lexeme::Quote, 1),
            '#' => (Lexeme::Pound, 1),
            '$' => (Lexeme::Dollar, 1),
            '%' => match peek1 {
                Some('=') => (Lexeme::PercentEqual, 2),
                _ => (Lexeme::Percent, 1),
            },
            '&' => match peek1 {
                Some('&') => (Lexeme::AndAnd, 2),
                Some('=') => (Lexeme::AmpersandEqual, 2),
                _ => (Lexeme::Ampersand, 1),
            },
            '\'' => (Lexeme::Apostrophe, 1),
            '(' => (Lexeme::LeftParenthesis, 1),
            ')' => (Lexeme::RightParenthesis, 1),
            '*' => match peek1 {
                Some('=') => (Lexeme::AsteriskEqual, 2),
                _ => (Lexeme::Asterisk, 1),
            },
            '+' => match peek1 {
                Some('+') => (Lexeme::Increment, 2),
                Some('=') => (Lexeme::PlusEqual, 2),
                _ => (Lexeme::Plus, 1),
            },
            ',' => (Lexeme::Comma, 1),
            '-' => match peek1 {
                Some('-') => (Lexeme::Decrement, 2),
                Some('=') => (Lexeme::MinusEqual, 2),
                _ => (Lexeme::Hyphen, 1),
            },
            '.' => match peek1 {
                Some('.') => match peek2 {
                    Some('.') => (Lexeme::Ellipsis, 3),
                    Some('=') => (Lexeme::RangeInclusive, 3),
                    _ => (Lexeme::Range, 2),
                },
                _ => (Lexeme::Period, 1),
            },
            '/' => match peek1 {
                Some('=') => (Lexeme::SlashEqual, 2),
                _ => (Lexeme::Slash, 1),
            },
            ':' => (Lexeme::Colon, 1),
            ';' => (Lexeme::Semicolon, 1),
            '<' => match peek1 {
                Some('<') => match peek2 {
                    Some('<') => (Lexeme::RotateLeft, 3),
                    Some('=') => (Lexeme::ShiftLeftEqual, 3),
                    _ => (Lexeme::ShiftLeft, 2),
                },
                Some('=') => (Lexeme::LesserEqual, 2),
                _ => (Lexeme::Lesser, 1),
            },
            '=' => match peek1 {
                Some('=') => (Lexeme::EqualEqual, 2),
                _ => (Lexeme::Equal, 1),
            },
            '>' => match peek1 {
                Some('>') => match peek2 {
                    Some('>') => (Lexeme::RotateRight, 3),
                    Some('=') => (Lexeme::ShiftRightEqual, 3),
                    _ => (Lexeme::ShiftRight, 2),
                },
                Some('=') => (Lexeme::GreaterEqual, 2),
                _ => (Lexeme::Greater, 1),
            },
            '?' => (Lexeme::Question, 1),
            '@' => (Lexeme::At, 1),
            '[' => (Lexeme::LeftSquare, 1),
            '\\' => (Lexeme::BackSlash, 1),
            ']' => (Lexeme::RightSquare, 1),
            '^' => match peek1 {
                Some('=') => (Lexeme::CaretEqual, 2),
                _ => (Lexeme::Caret, 1),
            },
            '_' => (Lexeme::Underscore, 1),
            '`' => (Lexeme::Grave, 1),
            '{' => (Lexeme::LeftBrace, 1),
            '|' => match peek1 {
                Some('|') => (Lexeme::OrOr, 2),
                Some('=') => (Lexeme::PipeEqual, 2),
                _ => (Lexeme::Pipe, 1),
            },
            '}' => (Lexeme::RightBrace, 1),
            _ => (Lexeme::Tilde, 1),
        };
        self.index = i + munch;
        Ok((Span::new(i as u32, munch as u32), lex))
    }

    /// Consumes the next token. Returns `None` at the end of the input.
    /// An error consumes its span as well: a dangling construct runs to
    /// the end of the input, so its error is the stream's last event, and
    /// an invalid character is passed over after being reported. The
    /// sequence is therefore finite, and the caller decides whether to
    /// abort, carry on, or jump to another offset.
    pub fn next(&mut self) -> (r: Option<Result<(Span, Lexeme), LexicalError>>)
        requires
            old(self).wf(),
        ensures
            final(self).wf(),
            final(self).src() == old(self).src(),
            match r {
                None => old(self).pos() >= old(self).src().len() && final(self).pos() == old(
                    self,
                ).pos(),
                Some(step) => old(self).pos() < old(self).src().len() && step_result(
                    old(self).src(),
                    old(self).pos(),
                    final(self).pos(),
                    step,
                ),
            },
    {
        let n: usize = self.source.len();
        let i: usize = self.index;
        if i >= n {
            return None;
        }
        let c = self.source[i];
        let step: Result<(Span, Lexeme), LexicalError> = if c == ' ' || c == '\t' {
            self.consume(CharClass::Blank);
            Ok((Span::new(i as u32, (self.index - i) as u32), Lexeme::Whitespace))
        } else if c == '\n' || c == '\r' {
            self.consume(CharClass::LineBreak);
            Ok((Span::new(i as u32, (self.index - i) as u32), Lexeme::Newline))
        } else if c == '/' && n - i > 1 && self.source[i + 1] == '/' {
            self.handle_comment()
        } else if c == '"' {
            self.handle_string()
        } else if c == '\'' {
            self.handle_char_lit()
        } else if c == '0' && n - i > 1 && self.source[i + 1] == 'x' {
            self.handle_hex()
        } else if c == '0' && n - i > 1 && self.source[i + 1] == 'b' {
            self.handle_binary()
        } else if c == '0' && n - i > 1 && self.source[i + 1] == 'o' {
            self.handle_octal()
        } else if char_in_class(CharClass::DecDigit, c) {
            self.handle_number()
        } else if letter_char(c) {
            self.handle_label()
        } else if punct_char(c) {
            self.handle_punctuation()
        } else {
            self.bump();
            Err(LexicalError::new(LexicalErrorKind::InvalidLexeme, Span::new(i as u32, 1)))
        };
        Some(step)
    }
}

/// The tokens `toks` tile the source from position `from` to position
/// `upto`: each token starts where the previous one ended, covers exactly
/// the span the source dictates there, and carries the dictated kind and
/// text; the last one ends at `upto`.
pub open spec fn covers_upto(
    src: Seq<char>,
    toks: Seq<(Span, Lexeme)>,
    from: int,
    upto: int,
) -> bool
    decreases toks.len(),
{
    if toks.len() == 0 {
        from == upto
    } else {
        let sp = toks[0].0;
        let lex = toks[0].1;
        &&& 0 <= from < src.len()
        &&& !step_is_err(src, from)
        &&& sp.start as int == from
        &&& sp.length as int == step_end(src, from) - from
        &&& step_lexeme(src, from, lex)
        &&& covers_upto(src, toks.drop_first(), step_end(src, from), upto)
    }
}

/// Extending a tiling by the token that starts where it ended keeps it a
/// tiling.
pub proof fn lemma_covers_snoc(
    src: Seq<char>,
    toks: Seq<(Span, Lexeme)>,
    from: int,
    mid: int,
    sp: Span,
    lex: Lexeme,
)
    requires
        covers_upto(src, toks, from, mid),
        0 <= mid < src.len(),
        !step_is_err(src, mid),
        sp.start as int == mid,
        sp.length as int == step_end(src, mid) - mid,
        step_lexeme(src, mid, lex),
    ensures
        covers_upto(src, toks.push((sp, lex)), from, step_end(src, mid)),
    decreases toks.len(),
{
    let pushed = toks.push((sp, lex));
    if toks.len() == 0 {
        assert(pushed.len() == 1);
        assert(pushed[0] == (sp, lex));
        assert(pushed.drop_first() =~= Seq::<(Span, Lexeme)>::empty());
        assert(covers_upto(src, pushed.drop_first(), step_end(src, from), step_end(src, mid)));
        assert(covers_upto(src, pushed, from, step_end(src, mid)));
    } else {
        lemma_covers_snoc(src, toks.drop_first(), step_end(src, from), mid, sp, lex);
        assert(pushed[0] == toks[0]);
        assert(pushed.drop_first() =~= toks.drop_first().push((sp, lex)));
        assert(covers_upto(src, pushed.drop_first(), step_end(src, from), step_end(src, mid)));
        assert(covers_upto(src, pushed, from, step_end(src, mid)));
    }
}

/// The slices of the source named by the tokens' spans, concatenated in
/// emission order.
pub open spec fn concat_span_slices(src: Seq<char>, toks: Seq<(Span, Lexeme)>) -> Seq<char>
    decreases toks.len(),
{
    if toks.len() == 0 {
        Seq::empty()
    } else {
        src.subrange(toks[0].0.start as int, toks[0].0.start as int + toks[0].0.length as int)
            + concat_span_slices(src, toks.drop_first())
    }
}

pub proof fn lemma_concat_from(src: Seq<char>, toks: Seq<(Span, Lexeme)>, from: int)
    requires
        0 <= from <= src.len(),
        covers_upto(src, toks, from, src.len() as int),
    ensures
        concat_span_slices(src, toks) == src.subrange(from, src.len() as int),
    decreases toks.len(),
{
    if toks.len() == 0 {
        assert(concat_span_slices(src, toks) =~= src.subrange(from, src.len() as int));
    } else {
        let mid = step_end(src, from);
        lemma_step_bounds(src, from);
        lemma_concat_from(src, toks.drop_first(), mid);
        assert(src.subrange(from, mid) + src.subrange(mid, src.len() as int) =~= src.subrange(
            from,
            src.len() as int,
        ));
    }
}

/// Coverage law: a token sequence that tiles a whole source text rebuilds
/// it exactly. Concatenating the literal slices named by every emitted
/// token's span, in emission order, yields the original text: no gaps, no
/// overlaps, no reordering.
pub proof fn lemma_scan_coverage(src: Seq<char>, toks: Seq<(Span, Lexeme)>)
    requires
        covers_upto(src, toks, 0, src.len() as int),
    ensures
        concat_span_slices(src, toks) == src,
{
    lemma_concat_from(src, toks, 0);
    assert(src.subrange(0, src.len() as int) =~= src);
}

/// Scans a whole source text eagerly. On success the returned tokens tile
/// the text completely; on failure the error is the one the source
/// dictates at the first position no token sequence can pass.
pub fn scan(source: &str) -> (r: Result<Vec<(Span, Lexeme)>, LexicalError>)
    requires
        source@.len() <= u32::MAX,
    ensures
        match r {
            Ok(toks) => covers_upto(source@, toks@, 0, source@.len() as int),
            Err(e) => exists|pre: Seq<(Span, Lexeme)>, i: int|
                #[trigger] covers_upto(source@, pre, 0, i) && step_err(source@, i, e),
        },
{
    let mut tk = Tokenizer::new(source);
    let mut toks: Vec<(Span, Lexeme)> = Vec::new();
    loop
        invariant
            tk.wf(),
            tk.src() == source@,
            0 <= tk.pos() <= source@.len(),
            covers_upto(source@, toks@, 0, tk.pos()),
        decreases source@.len() - tk.pos(),
    {
        let ghost mid = tk.pos();
        let ghost pre = toks@;
        match tk.next() {
            None => {
                return Ok(toks);
            },
            Some(Ok((sp, lex))) => {
                proof {
                    lemma_step_bounds(source@, mid);
                    lemma_covers_snoc(source@, toks@, 0, mid, sp, lex);
                }
                toks.push((sp, lex));
            },
            Some(Err(e)) => {
                proof {
                    assert(covers_upto(source@, pre, 0, mid) && step_err(source@, mid, e));
                }
                return Err(e);
            },
        }
    }
}

} // verus!
