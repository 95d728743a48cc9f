use vstd::prelude::*;

verus! {

/// A source-code location: line and column, 1-based. The nil location
/// (line 0) marks diagnostics that have no place in the source text.
#[derive(Debug, Copy, Clone, PartialEq, Eq, Structural)]
pub struct Loc {
    pub line: usize,
    pub col: usize,
}

impl Loc {
    pub fn new(line: usize, col: usize) -> (r: Loc)
        ensures
            r.line == line,
            r.col == col,
    {
        Loc { line, col }
    }

    /// The location used when no source position applies.
    pub fn nil() -> (r: Loc)
        ensures
            r.line == 0,
            r.col == 0,
    {
        Loc { line: 0, col: 0 }
    }

    pub fn is_nil(&self) -> (r: bool)
        ensures
            r == (self.line == 0),
    {
        self.line == 0
    }

    pub fn line(&self) -> (r: usize)
        ensures
            r == self.line,
    {
        self.line
    }

    pub fn col(&self) -> (r: usize)
        ensures
            r == self.col,
    {
        self.col
    }
}

} // verus!
