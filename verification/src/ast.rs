use vstd::prelude::*;
use crate::loc::Loc;
use crate::val::Val;

verus! {

/// A dotted reference: the module path, then the component names,
/// with the source location where it appeared.
#[derive(Debug)]
pub struct ObjectRef {
    pub loc: Loc,
    pub modules: Vec<String>,
    pub components: Vec<String>,
}

/// One call expression: what is called and its argument expressions.
#[derive(Debug)]
pub struct Call {
    pub obj: ObjectRef,
    pub args: Vec<ArgExpr>,
}

/// One argument expression, optionally named.
#[derive(Debug)]
pub struct ArgExpr {
    pub name: Option<String>,
    pub expr: Expr,
}

/// An expression as the parser hands it over.
#[derive(Debug)]
pub enum Expr {
    Nil,
    Literal(Loc, Val),
    ObjectRef(ObjectRef),
    Call(Box<Call>),
    /// The `a/b` operator: an address and a port combine to a socket
    /// address.
    Slash(Loc, Box<Expr>, Box<Expr>),
}

/// An import statement.
#[derive(Debug)]
pub struct Import {
    pub loc: Loc,
    pub module: String,
}

/// An assignment statement.
#[derive(Debug)]
pub struct Assign {
    pub loc: Loc,
    pub target: String,
    pub rvalue: Expr,
}

/// One statement of a script.
#[derive(Debug)]
pub enum Stmt {
    Import(Import),
    Assign(Assign),
    Expr(Expr),
}

} // verus!
