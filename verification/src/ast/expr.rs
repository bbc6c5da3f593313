//! Expressions, addressed by index.

use vstd::prelude::*;

use crate::symbol::SymbolIndex;

verus! {

pub type ExprIndex = usize;

/// Either an expression or a symbol, by index.
#[derive(Debug, Clone, Copy)]
pub enum SExpr {
    Expr(ExprIndex),
    Symbol(SymbolIndex),
}

/// An expression of the subject language, its operands held by index.
#[derive(Debug, Clone)]
pub enum Expression {
    Operator(OperatorExpr),
    Literal(LiteralExpr),
    Function(FunctionExpr),
    Return(ReturnExpr),
    Block(BlockExpr),
    UNKNOWN,
}

/// A binary operator expression.
#[derive(Debug, Clone, Copy)]
pub enum OperatorExpr {
    Plus { lhs: ExprIndex, rhs: ExprIndex },
    Minus { lhs: ExprIndex, rhs: ExprIndex },
    Equal { lhs: ExprIndex, rhs: ExprIndex },
}

/// A literal expression, naming the symbol that holds its value.
#[derive(Debug, Clone, Copy)]
pub enum LiteralExpr {
    Numeric(SymbolIndex),
}

/// A function expression.
#[derive(Debug, Clone)]
pub struct FunctionExpr {
    pub is_public: bool,
    pub label: String,
    pub block: ExprIndex,
    pub output: Option<ExprIndex>,
}

/// A return expression.
#[derive(Debug, Clone, Copy)]
pub struct ReturnExpr {}

/// A block of expressions, by index.
#[derive(Debug, Clone)]
pub struct BlockExpr(pub Vec<ExprIndex>);

/// An append-only store of expressions. The index handed out for an
/// expression stays valid for the store's whole life.
#[derive(Debug)]
pub struct ExpressionStore {
    next_index: ExprIndex,
    expressions: Vec<Expression>,
}

impl ExpressionStore {
    /// The expressions added so far, in insertion order.
    pub closed spec fn entries(&self) -> Seq<Expression> {
        self.expressions@
    }

    /// The next index always equals the number of stored expressions.
    pub closed spec fn wf(&self) -> bool {
        self.next_index == self.expressions@.len()
    }

    /// Adds an expression and returns its index.
    pub fn add_expression(&mut self, expr: Expression) -> (index: ExprIndex)
        requires
            old(self).wf(),
            old(self).entries().len() < usize::MAX,
        ensures
            final(self).wf(),
            final(self).entries() == old(self).entries().push(expr),
            index == old(self).entries().len(),
    {
        let index = self.next_index;
        self.next_index = self.next_index + 1;
        self.expressions.push(expr);
        return index;
    }

    /// The expression stored under an index, if the index has been handed
    /// out.
    pub fn get_expression(&self, index: ExprIndex) -> (r: Option<&Expression>)
        ensures
            match r {
                Some(e) => index < self.entries().len() && *e == self.entries()[index as int],
                None => index >= self.entries().len(),
            },
    {
        if index < self.expressions.len() {
            Some(&self.expressions[index])
        } else {
            None
        }
    }
}

impl Default for ExpressionStore {
    /// An empty store.
    fn default() -> (s: Self)
        ensures
            s.wf(),
            s.entries() == Seq::<Expression>::empty(),
    {
        Self { next_index: 0, expressions: Vec::new() }
    }
}

} // verus!
