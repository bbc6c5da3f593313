//! The symbol store: every named thing the front end has seen, addressed
//! by a stable index.

use vstd::prelude::*;

verus! {

pub type SymbolIndex = usize;

/// What kind of thing a symbol names.
#[derive(Debug, Clone, Copy, PartialEq, Eq, Structural)]
pub enum SymbolKind {
    Identifier,
    FnDecl,
}

/// A named thing: its label, kind, and size and width in storage units.
#[derive(Debug, Clone)]
pub struct Symbol {
    pub label: String,
    pub kind: SymbolKind,
    pub size: u16,
    pub width: u16,
}

/// An append-only store of symbols. The index handed out for a symbol
/// stays valid for the store's whole life.
#[derive(Debug)]
pub struct SymbolStore {
    next_index: SymbolIndex,
    symbols: Vec<Symbol>,
}

impl SymbolStore {
    /// The symbols added so far, in insertion order.
    pub closed spec fn entries(&self) -> Seq<Symbol> {
        self.symbols@
    }

    /// The next index always equals the number of stored symbols.
    pub closed spec fn wf(&self) -> bool {
        self.next_index == self.symbols@.len()
    }

    /// Adds a symbol and returns the index under which it can be fetched.
    pub fn add_symbol(&mut self, symbol: Symbol) -> (index: SymbolIndex)
        requires
            old(self).wf(),
            old(self).entries().len() < usize::MAX,
        ensures
            final(self).wf(),
            final(self).entries() == old(self).entries().push(symbol),
            index == old(self).entries().len(),
    {
        let index = self.next_index;
        self.next_index = self.next_index + 1;
        self.symbols.push(symbol);
        return index;
    }

    /// The symbol stored under an index, if the index has been handed out.
    pub fn get_symbol(&self, index: SymbolIndex) -> (r: Option<&Symbol>)
        ensures
            match r {
                Some(s) => index < self.entries().len() && *s == self.entries()[index as int],
                None => index >= self.entries().len(),
            },
    {
        if index < self.symbols.len() {
            Some(&self.symbols[index])
        } else {
            None
        }
    }
}

impl Default for SymbolStore {
    /// An empty store.
    fn default() -> (s: Self)
        ensures
            s.wf(),
            s.entries() == Seq::<Symbol>::empty(),
    {
        Self { next_index: 0, symbols: Vec::new() }
    }
}

} // verus!
