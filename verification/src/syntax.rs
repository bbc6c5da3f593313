//! The syntax vocabulary of the subject language: statements,
//! declarations, expressions, and the classification kinds the scanner
//! and parser share.

use vstd::prelude::*;

use crate::common::Visability;
use crate::parser::span::Span;

pub mod keywords;
pub mod lexeme;
pub mod symbol;

verus! {

/// A statement of the subject language.
#[derive(Debug)]
pub enum Statement {
    Declaration(Declaration),
    Expression(Expression),
    Return(ReturnStmt),
}

/// An expression of the subject language.
#[derive(Debug)]
pub enum Expression {
    Binary(),
    Unary(),
    Literal(LiteralExpr),
}

/// A declaration of the subject language.
#[derive(Debug)]
pub enum Declaration {
    Loacl(LocalDecl),
    Func(FuncDecl),
    Type(TypeDecl),
}

/// A constant declaration.
#[derive(Debug)]
pub struct ConstDecl {
    pub vis: Visability,
    pub label: String,
    pub ty: String,
    pub inner: Expression,
}

/// A type declaration.
#[derive(Debug)]
pub struct TypeDecl {}

/// A local binding declaration.
#[derive(Debug)]
pub struct LocalDecl {}

/// A return statement.
#[derive(Debug)]
pub struct ReturnStmt {
    pub inner: Expression,
    pub span: Span,
}

/// A function declaration.
#[derive(Debug)]
pub struct FuncDecl {
    pub label: String,
}

/// A literal expression: its kind, exact text, and place in the source.
#[derive(Debug)]
pub struct LiteralExpr {
    pub kind: LiteralKind,
    pub value: String,
    pub span: Span,
}

/// An operator.
#[derive(Debug, Clone, Copy)]
pub enum OperatorKind {
    Arithmetic(ArithmeticOpKind),
    Relational(RelationalOpKind),
    Logical(LogicalOpKind),
    Bitwise(BitwiseOpKind),
    Assignment(AssignmentOpKind),
    /// $a
    Borrow,
    /// *a
    Pointer,
    /// &a
    Reference,
}

/// An arithmetic operator.
#[derive(Debug, Clone, Copy, PartialEq, Eq, Structural)]
pub enum ArithmeticOpKind {
    /// a + b
    Addition,
    /// a - b
    Subtraction,
    /// a * b
    Multiplication,
    /// a / b
    Division,
    /// a % b
    Modulo,
}

/// A relational operator.
#[derive(Debug, Clone, Copy, PartialEq, Eq, Structural)]
pub enum RelationalOpKind {
    /// a == b
    Equal,
    /// a != b
    NotEqual,
    /// a > b
    Greater,
    /// a < b
    Lesser,
    /// a >= b
    GreaterOrEqual,
    /// a <= b
    LesserOrEqual,
}

/// A logical operator.
#[derive(Debug, Clone, Copy, PartialEq, Eq, Structural)]
pub enum LogicalOpKind {
    /// !a
    LogicNOT,
    /// a && b
    LogicAND,
    /// a || b
    LogicOR,
}

/// A bitwise operator.
#[derive(Debug, Clone, Copy, PartialEq, Eq, Structural)]
pub enum BitwiseOpKind {
    /// ~a
    BitwiseNOT,
    /// a & b
    BitwiseAND,
    /// a | b
    BitwiseOR,
    /// a ^ b
    BitwiseXOR,
    /// a << b
    BitwiseLeftShift,
    /// a >> b
    BitwiseRightShift,
    /// a <<< b
    BitwiseLeftRotate,
    /// a >>> b
    BitwiseRightRotate,
}

/// An assignment operator.
#[derive(Debug, Clone, Copy, PartialEq, Eq, Structural)]
pub enum AssignmentOpKind {
    /// a = b
    Assign,
    /// a += b
    AddAssign,
    /// a -= b
    SubtractAssign,
    /// a *= b
    MultiplyAssign,
    /// a /= b
    DivideAssign,
    /// a %= b
    ModuloAssign,
    /// a &= b
    BitwiseANDAssign,
    /// a |= b
    BitwiseORAssign,
    /// a ^= b
    BitwiseXORAssign,
    /// a <<= b
    BitwiseLeftShiftAssign,
    /// a >>= b
    BitwiseRightShiftAssign,
}

/// The two shapes of layout run the scanner distinguishes.
#[derive(Debug, Clone, Copy, PartialEq, Eq, Structural)]
pub enum WhitespaceKind {
    /// Space or tab.
    Blank,
    /// A line break.
    NewLine,
}

/// What encloses a delimited region.
#[derive(Debug, Clone, Copy, PartialEq, Eq, Structural)]
pub enum DelimiterKind {
    /// ( ... )
    Paren,
    /// { ... }
    Curly,
    /// [ ... ]
    Square,
    /// < ... >
    Angle,
    /// No explicit delimiter.
    Infered,
}

/// What separates the items of a list.
#[derive(Debug, Clone, Copy, PartialEq, Eq, Structural)]
pub enum SeperatorKind {
    /// a `,` b
    List,
    /// A`:`B
    Path,
    /// A `|` B
    Variety,
}

/// The kinds of literal the subject language knows.
#[derive(Debug, Clone, Copy, PartialEq, Eq, Structural)]
pub enum LiteralKind {
    /// `0x55AA`
    Hex,
    /// `true` or `false`
    Bool,
    /// `'a'`
    Char,
    /// `0o755`
    Octal,
    /// `0b01010011`
    Binary,
    /// `420`
    Integer,
    /// `3.14`
    Float,
    /// A quoted run of text.
    String,
}

/// The kinds of comment the subject language knows.
#[derive(Debug, Clone, Copy, PartialEq, Eq, Structural)]
pub enum CommentKind {
    /// A line comment, to the end of the line.
    Line,
    /// A block comment, to the first closing pair.
    Block,
    /// A documentation comment, to the end of the line.
    Documentation,
}

} // verus!
