use vstd::prelude::*;
use crate::stdlib::{ClassId, FuncId, ModuleId};
use crate::val::{valdef_eq, ValDef};

verus! {

/// One entry of a module or class table: a submodule, a class, a
/// function, or a constant value.
#[derive(Debug)]
pub enum Symbol {
    Module(ModuleId),
    Class(ClassId),
    Func(FuncId),
    Val(ValDef),
}

/// The resolution-relevant shape of a symbol: which table it leads
/// to, which function it names, or which constant it carries (byte
/// constants by kind alone).
#[derive(Debug, Copy, Clone, PartialEq, Eq, Structural)]
pub enum SymKind {
    Module(ModuleId),
    Class(ClassId),
    Func(FuncId),
    ValNil,
    ValBool(bool),
    ValU8(u8),
    ValU16(u16),
    ValU32(u32),
    ValU64(u64),
    ValIp4(crate::pkt::Ip4Addr),
    ValSock4(crate::pkt::Sock4),
    ValBytes,
    ValType(crate::val::ValType),
}

pub open spec fn kind_of(s: Symbol) -> SymKind {
    match s {
        Symbol::Module(m) => SymKind::Module(m),
        Symbol::Class(c) => SymKind::Class(c),
        Symbol::Func(f) => SymKind::Func(f),
        Symbol::Val(v) => match v {
            ValDef::Nil => SymKind::ValNil,
            ValDef::Bool(b) => SymKind::ValBool(b),
            ValDef::U8(x) => SymKind::ValU8(x),
            ValDef::U16(x) => SymKind::ValU16(x),
            ValDef::U32(x) => SymKind::ValU32(x),
            ValDef::U64(x) => SymKind::ValU64(x),
            ValDef::Ip4(a) => SymKind::ValIp4(a),
            ValDef::Sock4(sa) => SymKind::ValSock4(sa),
            ValDef::Str(_) => SymKind::ValBytes,
            ValDef::Type(t) => SymKind::ValType(t),
        },
    }
}

/// The value a resolved constant or function stands for, by its kind:
/// exact for every scalar, the variant alone for byte strings, and no
/// value at all for a module or class.
pub open spec fn val_of_kind(k: SymKind, r: crate::val::Val) -> bool {
    match k {
        SymKind::Module(_) => false,
        SymKind::Class(_) => false,
        SymKind::Func(f) => r == crate::val::Val::Func(f),
        SymKind::ValNil => r == crate::val::Val::Nil,
        SymKind::ValBool(b) => r == crate::val::Val::Bool(b),
        SymKind::ValU8(x) => r == crate::val::Val::U8(x),
        SymKind::ValU16(x) => r == crate::val::Val::U16(x),
        SymKind::ValU32(x) => r == crate::val::Val::U32(x),
        SymKind::ValU64(x) => r == crate::val::Val::U64(x),
        SymKind::ValIp4(a) => r == crate::val::Val::Ip4(a),
        SymKind::ValSock4(s) => r == crate::val::Val::Sock4(s),
        SymKind::ValBytes => r is Str,
        SymKind::ValType(_) => r == crate::val::Val::Nil,
    }
}

/// Equal-up-to-contents symbols have the same kind.
pub proof fn lemma_sym_eq_kind(a: Symbol, b: Symbol)
    requires
        sym_eq(a, b),
    ensures
        kind_of(a) == kind_of(b),
{
}

/// Symbol equality up to buffer contents of constant values.
pub open spec fn sym_eq(a: Symbol, b: Symbol) -> bool {
    match (a, b) {
        (Symbol::Module(x), Symbol::Module(y)) => x == y,
        (Symbol::Class(x), Symbol::Class(y)) => x == y,
        (Symbol::Func(x), Symbol::Func(y)) => x == y,
        (Symbol::Val(x), Symbol::Val(y)) => valdef_eq(x, y),
        _ => false,
    }
}

impl Clone for Symbol {
    fn clone(&self) -> (r: Self)
        ensures
            sym_eq(r, *self),
    {
        match self {
            Symbol::Module(m) => Symbol::Module(*m),
            Symbol::Class(c) => Symbol::Class(*c),
            Symbol::Func(f) => Symbol::Func(*f),
            Symbol::Val(v) => Symbol::Val(v.clone()),
        }
    }
}

impl PartialEq for Symbol {
    fn eq(&self, other: &Self) -> (r: bool) {
        match (self, other) {
            (Symbol::Module(x), Symbol::Module(y)) => x == y,
            (Symbol::Class(x), Symbol::Class(y)) => x == y,
            (Symbol::Func(x), Symbol::Func(y)) => x == y,
            (Symbol::Val(x), Symbol::Val(y)) => x == y,
            _ => false,
        }
    }
}

impl vstd::std_specs::cmp::PartialEqSpecImpl for Symbol {
    open spec fn obeys_eq_spec() -> bool {
        true
    }

    open spec fn eq_spec(&self, other: &Symbol) -> bool {
        sym_eq(*self, *other)
    }
}

impl Eq for Symbol {}

impl Symbol {
    /// A constant 8-bit value.
    pub fn u8(x: u8) -> (r: Symbol)
        ensures
            r == Symbol::Val(ValDef::U8(x)),
    {
        Symbol::Val(ValDef::U8(x))
    }

    /// A constant 16-bit value.
    pub fn u16(x: u16) -> (r: Symbol)
        ensures
            r == Symbol::Val(ValDef::U16(x)),
    {
        Symbol::Val(ValDef::U16(x))
    }

    /// A constant 32-bit value.
    pub fn u32(x: u32) -> (r: Symbol)
        ensures
            r == Symbol::Val(ValDef::U32(x)),
    {
        Symbol::Val(ValDef::U32(x))
    }

    /// A constant wide integer value.
    pub fn int_val(x: u64) -> (r: Symbol)
        ensures
            r == Symbol::Val(ValDef::U64(x)),
    {
        Symbol::Val(ValDef::U64(x))
    }
}

} // verus!
