use vstd::prelude::*;
use crate::loc::Loc;

verus! {

/// The closed error taxonomy of the interpreter and its library.
#[derive(Debug, Copy, Clone, PartialEq, Eq, Structural)]
pub enum Error {
    /// Reference to an unknown import, register or module member.
    NameError,
    /// Argument-binding failure, type mismatch, or return-type violation.
    TypeError,
    /// Assignment to an already-bound register.
    MultipleAssignError,
    /// Top-level module not registered.
    ImportError,
    /// Builder-level failure, e.g. a malformed hardware address.
    RuntimeError,
    /// Propagated from the lexer or parser.
    ParseError,
    /// Propagated from file I/O in the surrounding program.
    IoError,
}

impl Error {
    /// A short human-readable name for the error kind.
    pub fn as_str(&self) -> (r: &'static str)
        ensures
            r@ == self.spec_str(),
    {
        match self {
            Error::NameError => "name error",
            Error::TypeError => "type error",
            Error::MultipleAssignError => "multiple assignment",
            Error::ImportError => "import error",
            Error::RuntimeError => "runtime error",
            Error::ParseError => "parse error",
            Error::IoError => "I/O error",
        }
    }

    pub open spec fn spec_str(&self) -> Seq<char> {
        match self {
            Error::NameError => "name error"@,
            Error::TypeError => "type error"@,
            Error::MultipleAssignError => "multiple assignment"@,
            Error::ImportError => "import error"@,
            Error::RuntimeError => "runtime error"@,
            Error::ParseError => "parse error"@,
            Error::IoError => "I/O error"@,
        }
    }
}

/// A source location paired with the error that arose there.
#[derive(Debug, Copy, Clone, PartialEq, Eq, Structural)]
pub struct ErrorLoc {
    pub loc: Loc,
    pub err: Error,
}

impl ErrorLoc {
    pub fn new(loc: Loc, err: Error) -> (r: ErrorLoc)
        ensures
            r.loc == loc,
            r.err == err,
    {
        ErrorLoc { loc, err }
    }
}

} // verus!
