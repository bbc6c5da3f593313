//! The sugared abstract syntax tree of a source file.

use vstd::prelude::*;

use crate::syntax::Statement;

verus! {

/// The statements of one source file, in order.
#[derive(Debug)]
pub struct ParseTree {
    stmts: Vec<Statement>,
}

impl ParseTree {
    /// The statements collected so far.
    pub closed spec fn statements(&self) -> Seq<Statement> {
        self.stmts@
    }

    pub fn new() -> (t: Self)
        ensures
            t.statements() == Seq::<Statement>::empty(),
    {
        Self { stmts: Vec::new() }
    }

    /// Appends a statement.
    pub fn add(&mut self, stmt: Statement)
        ensures
            final(self).statements() == old(self).statements().push(stmt),
    {
        self.stmts.push(stmt)
    }
}

} // verus!
