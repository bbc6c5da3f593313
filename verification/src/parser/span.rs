//! Ranges and positions in source code, as the parser reports them.

use vstd::prelude::*;

verus! {

/// A range of character indices in source code.
#[derive(Debug, Clone, Copy, PartialEq, Eq, Structural)]
pub struct Span {
    pub start: usize,
    pub end: usize,
}

impl Span {
    pub fn new(start: usize, end: usize) -> (s: Self)
        ensures
            s.start == start,
            s.end == end,
    {
        Self { start, end }
    }
}

/// A human-readable position: line and character within the line.
#[derive(Debug, Clone, Copy, PartialEq, Eq, Structural)]
pub struct Location {
    pub line: usize,
    pub char: usize,
}

impl Location {
    pub fn new(line: usize, char: usize) -> (l: Self)
        ensures
            l.line == line,
            l.char == char,
    {
        Self { line, char }
    }
}

} // verus!
