use vstd::prelude::*;
use crate::err::Error;
use crate::object::ObjRef;
use crate::pkt::packet::Packet;
use crate::pkt::{Ip4Addr, Sock4};
use crate::stdlib::FuncId;
use crate::strbuf::Buf;

verus! {

/// The closed enumeration of value kinds. `Void` is the type of `Nil`
/// and of functions that return nothing.
#[derive(Debug, Copy, Clone, PartialEq, Eq, Structural)]
pub enum ValType {
    Void,
    Bool,
    U8,
    U16,
    U32,
    U64,
    Ip4,
    Sock4,
    Str,
    Pkt,
    PktGen,
    Obj,
    Func,
    Method,
    TimeJump,
    Type,
}

impl ValType {
    pub fn is_nil(&self) -> (r: bool)
        ensures
            r == (*self == ValType::Void),
    {
        *self == ValType::Void
    }
}

/// A runtime value of the scripting language.
#[derive(Debug)]
pub enum Val {
    Nil,
    Bool(bool),
    U8(u8),
    U16(u16),
    U32(u32),
    U64(u64),
    Ip4(Ip4Addr),
    Sock4(Sock4),
    Str(Buf),
    Pkt(Packet),
    PktGen(Vec<Packet>),
    Obj(ObjRef),
    Func(FuncId),
    /// A method bound to the register that holds its object.
    Method(String, FuncId),
    TimeJump(u64),
    Type(ValType),
}

/// An argument default: either a concrete value, or a `Type` marker
/// meaning the parameter is nullable and absent by default.
#[derive(Debug)]
pub enum ValDef {
    Nil,
    Bool(bool),
    U8(u8),
    U16(u16),
    U32(u32),
    U64(u64),
    Ip4(Ip4Addr),
    Sock4(Sock4),
    Str(Buf),
    Type(ValType),
}

impl Val {
    /// A byte-string value.
    pub fn str(s: &[u8]) -> (r: Val)
        ensures
            (r matches Val::Str(b) && b@ == s@),
    {
        Val::Str(Buf::from_slice(s))
    }

    /// The kind tag of this value.
    pub open spec fn spec_val_type(&self) -> ValType {
        match self {
            Val::Nil => ValType::Void,
            Val::Bool(_) => ValType::Bool,
            Val::U8(_) => ValType::U8,
            Val::U16(_) => ValType::U16,
            Val::U32(_) => ValType::U32,
            Val::U64(_) => ValType::U64,
            Val::Ip4(_) => ValType::Ip4,
            Val::Sock4(_) => ValType::Sock4,
            Val::Str(_) => ValType::Str,
            Val::Pkt(_) => ValType::Pkt,
            Val::PktGen(_) => ValType::PktGen,
            Val::Obj(_) => ValType::Obj,
            Val::Func(_) => ValType::Func,
            Val::Method(_, _) => ValType::Method,
            Val::TimeJump(_) => ValType::TimeJump,
            Val::Type(_) => ValType::Type,
        }
    }

    pub fn val_type(&self) -> (r: ValType)
        ensures
            r == self.spec_val_type(),
    {
        match self {
            Val::Nil => ValType::Void,
            Val::Bool(_) => ValType::Bool,
            Val::U8(_) => ValType::U8,
            Val::U16(_) => ValType::U16,
            Val::U32(_) => ValType::U32,
            Val::U64(_) => ValType::U64,
            Val::Ip4(_) => ValType::Ip4,
            Val::Sock4(_) => ValType::Sock4,
            Val::Str(_) => ValType::Str,
            Val::Pkt(_) => ValType::Pkt,
            Val::PktGen(_) => ValType::PktGen,
            Val::Obj(_) => ValType::Obj,
            Val::Func(_) => ValType::Func,
            Val::Method(_, _) => ValType::Method,
            Val::TimeJump(_) => ValType::TimeJump,
            Val::Type(_) => ValType::Type,
        }
    }

    pub fn is_type(&self, t: ValType) -> (r: bool)
        ensures
            r == (self.spec_val_type() == t),
    {
        self.val_type() == t
    }

    pub open spec fn spec_is_integral(&self) -> bool {
        self matches Val::U8(_) || self matches Val::U16(_) || self matches Val::U32(_)
            || self matches Val::U64(_)
    }

    pub fn is_integral(&self) -> (r: bool)
        ensures
            r == self.spec_is_integral(),
    {
        match self {
            Val::U8(_) | Val::U16(_) | Val::U32(_) | Val::U64(_) => true,
            _ => false,
        }
    }

    /// The numeric content of an integer value, widened.
    pub open spec fn spec_int_val(&self) -> u64 {
        match self {
            Val::U8(x) => *x as u64,
            Val::U16(x) => *x as u64,
            Val::U32(x) => *x as u64,
            Val::U64(x) => *x,
            Val::Bool(b) => if *b {
                1u64
            } else {
                0u64
            },
            Val::Ip4(a) => a.bits as u64,
            Val::TimeJump(x) => *x,
            _ => 0,
        }
    }

    pub fn as_u64(&self) -> (r: u64)
        ensures
            r == self.spec_int_val(),
    {
        match self {
            Val::U8(x) => *x as u64,
            Val::U16(x) => *x as u64,
            Val::U32(x) => *x as u64,
            Val::U64(x) => *x,
            Val::Bool(b) => if *b {
                1
            } else {
                0
            },
            Val::Ip4(a) => a.bits as u64,
            Val::TimeJump(x) => *x,
            _ => 0,
        }
    }

    pub fn as_u32(&self) -> (r: u32)
        ensures
            r == self.spec_int_val() as u32,
    {
        self.as_u64() as u32
    }

    pub fn as_u16(&self) -> (r: u16)
        ensures
            r == self.spec_int_val() as u16,
    {
        self.as_u64() as u16
    }

    pub fn as_u8(&self) -> (r: u8)
        ensures
            r == self.spec_int_val() as u8,
    {
        self.as_u64() as u8
    }

    pub fn as_bool(&self) -> (r: bool)
        ensures
            r == bool_of(*self),
    {
        match self {
            Val::Bool(b) => *b,
            _ => false,
        }
    }

    /// An IPv4 address: its own kind, or any integer reinterpreted.
    pub fn as_ip4(&self) -> (r: Ip4Addr)
        ensures
            r == ip4_of(*self),
    {
        match self {
            Val::Ip4(a) => *a,
            _ => Ip4Addr { bits: self.as_u32() },
        }
    }

    pub fn as_sock4(&self) -> (r: Sock4)
        ensures
            r == sock4_of(*self),
    {
        match self {
            Val::Sock4(s) => *s,
            _ => Sock4 { ip: Ip4Addr { bits: 0 }, port: 0 },
        }
    }

    /// The byte content of a string value; other kinds give nothing.
    pub fn as_buf(&self) -> (r: Buf)
        ensures
            r@ == crate::args::buf_of(*self),
    {
        match self {
            Val::Str(b) => b.clone(),
            _ => Buf::default(),
        }
    }

    /// A nullable integer argument: `Some` for an integer, `None` for
    /// `Nil` or a type marker.
    pub fn as_opt_u32(&self) -> (r: Option<u32>)
        ensures
            self.spec_is_integral() ==> r == Some(self.spec_int_val() as u32),
            !self.spec_is_integral() ==> r is None,
    {
        if self.is_integral() {
            Some(self.as_u32())
        } else {
            None
        }
    }

    /// A nullable address argument.
    pub fn as_opt_ip4(&self) -> (r: Option<Ip4Addr>)
        ensures
            (self matches Val::Ip4(_) || self.spec_is_integral()) <==> r is Some,
            r is Some ==> r == Some(ip4_of(*self)),
    {
        match self {
            Val::Ip4(a) => Some(*a),
            Val::U8(_) | Val::U16(_) | Val::U32(_) | Val::U64(_) => Some(
                Ip4Addr { bits: self.as_u32() },
            ),
            _ => None,
        }
    }

    /// A nullable byte-string argument.
    pub fn as_opt_buf(&self) -> (r: Option<Buf>)
        ensures
            (self matches Val::Str(_)) <==> r is Some,
            self matches Val::Str(b) ==> r.unwrap()@ == b@,
    {
        match self {
            Val::Str(b) => Some(b.clone()),
            _ => None,
        }
    }

    /// Resolve a method name on an object value: anything but an
    /// object refuses, and an object answers as its class's resolution
    /// model says, a miss being a name error.
    pub fn lookup_symbol(&self, name: &str) -> (r: Result<crate::sym::Symbol, Error>)
        ensures
            !(self matches Val::Obj(_)) ==> r == Err::<crate::sym::Symbol, Error>(
                Error::TypeError,
            ),
            self matches Val::Obj(o) ==> match crate::libapi::model_lookup(
                crate::stdlib::class_model(o.spec_class_id()),
                name@,
            ) {
                Some(k) => (r matches Ok(s) && crate::sym::kind_of(s) == k),
                None => r == Err::<crate::sym::Symbol, Error>(Error::NameError),
            },
    {
        match self {
            Val::Obj(o) => match o.lookup_symbol(name) {
                Some(sym) => Ok(sym),
                None => Err(Error::NameError),
            },
            _ => Err(Error::TypeError),
        }
    }
}

impl ValDef {
    pub open spec fn spec_val_type(&self) -> ValType {
        match self {
            ValDef::Nil => ValType::Void,
            ValDef::Bool(_) => ValType::Bool,
            ValDef::U8(_) => ValType::U8,
            ValDef::U16(_) => ValType::U16,
            ValDef::U32(_) => ValType::U32,
            ValDef::U64(_) => ValType::U64,
            ValDef::Ip4(_) => ValType::Ip4,
            ValDef::Sock4(_) => ValType::Sock4,
            ValDef::Str(_) => ValType::Str,
            ValDef::Type(t) => *t,
        }
    }

    pub fn val_type(&self) -> (r: ValType)
        ensures
            r == self.spec_val_type(),
    {
        match self {
            ValDef::Nil => ValType::Void,
            ValDef::Bool(_) => ValType::Bool,
            ValDef::U8(_) => ValType::U8,
            ValDef::U16(_) => ValType::U16,
            ValDef::U32(_) => ValType::U32,
            ValDef::U64(_) => ValType::U64,
            ValDef::Ip4(_) => ValType::Ip4,
            ValDef::Sock4(_) => ValType::Sock4,
            ValDef::Str(_) => ValType::Str,
            ValDef::Type(t) => *t,
        }
    }

    /// The value this default supplies when the argument is absent; a
    /// `Type` marker supplies `Nil`.
    pub open spec fn spec_to_val(&self) -> Val {
        match self {
            ValDef::Nil => Val::Nil,
            ValDef::Bool(b) => Val::Bool(*b),
            ValDef::U8(x) => Val::U8(*x),
            ValDef::U16(x) => Val::U16(*x),
            ValDef::U32(x) => Val::U32(*x),
            ValDef::U64(x) => Val::U64(*x),
            ValDef::Ip4(a) => Val::Ip4(*a),
            ValDef::Sock4(s) => Val::Sock4(*s),
            ValDef::Str(b) => Val::Str(*b),
            ValDef::Type(_) => Val::Nil,
        }
    }

    pub fn to_val(&self) -> (r: Val)
        ensures
            val_eq(r, self.spec_to_val()),
    {
        match self {
            ValDef::Nil => Val::Nil,
            ValDef::Bool(b) => Val::Bool(*b),
            ValDef::U8(x) => Val::U8(*x),
            ValDef::U16(x) => Val::U16(*x),
            ValDef::U32(x) => Val::U32(*x),
            ValDef::U64(x) => Val::U64(*x),
            ValDef::Ip4(a) => Val::Ip4(*a),
            ValDef::Sock4(s) => Val::Sock4(*s),
            ValDef::Str(b) => Val::Str(b.clone()),
            ValDef::Type(_) => Val::Nil,
        }
    }
}

/// The address a value stands for: its own, an integer's bits, or the
/// zero address for anything else.
pub open spec fn ip4_of(v: Val) -> Ip4Addr {
    match v {
        Val::Ip4(a) => a,
        _ => Ip4Addr { bits: v.spec_int_val() as u32 },
    }
}

/// The socket address a value stands for; the zero address otherwise.
pub open spec fn sock4_of(v: Val) -> Sock4 {
    match v {
        Val::Sock4(s) => s,
        _ => Sock4 { ip: Ip4Addr { bits: 0 }, port: 0 },
    }
}

/// The truth a value stands for: `true` only for `Bool(true)`.
pub open spec fn bool_of(v: Val) -> bool {
    match v {
        Val::Bool(b) => b,
        _ => false,
    }
}

/// Value equality up to the contents of buffers, packets and objects.
pub open spec fn val_eq(a: Val, b: Val) -> bool {
    match (a, b) {
        (Val::Nil, Val::Nil) => true,
        (Val::Bool(x), Val::Bool(y)) => x == y,
        (Val::U8(x), Val::U8(y)) => x == y,
        (Val::U16(x), Val::U16(y)) => x == y,
        (Val::U32(x), Val::U32(y)) => x == y,
        (Val::U64(x), Val::U64(y)) => x == y,
        (Val::Ip4(x), Val::Ip4(y)) => x == y,
        (Val::Sock4(x), Val::Sock4(y)) => x == y,
        (Val::Str(x), Val::Str(y)) => x@ == y@,
        (Val::Pkt(x), Val::Pkt(y)) => x.buf@ == y.buf@ && x.headroom == y.headroom,
        (Val::PktGen(x), Val::PktGen(y)) => crate::ezpkt::tcp4::pkts_eq_spec(x@, y@),
        (Val::Obj(x), Val::Obj(y)) => crate::object::obj_eq_spec(x, y),
        (Val::Func(x), Val::Func(y)) => x == y,
        (Val::Method(n1, f1), Val::Method(n2, f2)) => n1@ == n2@ && f1 == f2,
        (Val::TimeJump(x), Val::TimeJump(y)) => x == y,
        (Val::Type(x), Val::Type(y)) => x == y,
        _ => false,
    }
}

impl PartialEq for Val {
    fn eq(&self, other: &Self) -> (r: bool) {
        match (self, other) {
            (Val::Nil, Val::Nil) => true,
            (Val::Bool(x), Val::Bool(y)) => x == y,
            (Val::U8(x), Val::U8(y)) => x == y,
            (Val::U16(x), Val::U16(y)) => x == y,
            (Val::U32(x), Val::U32(y)) => x == y,
            (Val::U64(x), Val::U64(y)) => x == y,
            (Val::Ip4(x), Val::Ip4(y)) => x == y,
            (Val::Sock4(x), Val::Sock4(y)) => x == y,
            (Val::Str(x), Val::Str(y)) => x == y,
            (Val::Pkt(x), Val::Pkt(y)) => x == y,
            (Val::PktGen(x), Val::PktGen(y)) => crate::ezpkt::tcp4::packets_eq(x, y),
            (Val::Obj(x), Val::Obj(y)) => x == y,
            (Val::Func(x), Val::Func(y)) => x == y,
            (Val::Method(n1, f1), Val::Method(n2, f2)) => crate::libapi::str_eq(
                n1.as_str(),
                n2.as_str(),
            ) && f1 == f2,
            (Val::TimeJump(x), Val::TimeJump(y)) => x == y,
            (Val::Type(x), Val::Type(y)) => x == y,
            _ => false,
        }
    }
}

impl vstd::std_specs::cmp::PartialEqSpecImpl for Val {
    open spec fn obeys_eq_spec() -> bool {
        true
    }

    open spec fn eq_spec(&self, other: &Val) -> bool {
        val_eq(*self, *other)
    }
}

impl Eq for Val {}

impl PartialEq for ValDef {
    fn eq(&self, other: &Self) -> (r: bool) {
        match (self, other) {
            (ValDef::Nil, ValDef::Nil) => true,
            (ValDef::Bool(x), ValDef::Bool(y)) => x == y,
            (ValDef::U8(x), ValDef::U8(y)) => x == y,
            (ValDef::U16(x), ValDef::U16(y)) => x == y,
            (ValDef::U32(x), ValDef::U32(y)) => x == y,
            (ValDef::U64(x), ValDef::U64(y)) => x == y,
            (ValDef::Ip4(x), ValDef::Ip4(y)) => x == y,
            (ValDef::Sock4(x), ValDef::Sock4(y)) => x == y,
            (ValDef::Str(x), ValDef::Str(y)) => x == y,
            (ValDef::Type(x), ValDef::Type(y)) => x == y,
            _ => false,
        }
    }
}

impl vstd::std_specs::cmp::PartialEqSpecImpl for ValDef {
    open spec fn obeys_eq_spec() -> bool {
        true
    }

    open spec fn eq_spec(&self, other: &ValDef) -> bool {
        valdef_eq(*self, *other)
    }
}

impl Eq for ValDef {}

/// Default equality up to buffer contents.
pub open spec fn valdef_eq(a: ValDef, b: ValDef) -> bool {
    match (a, b) {
        (ValDef::Nil, ValDef::Nil) => true,
        (ValDef::Bool(x), ValDef::Bool(y)) => x == y,
        (ValDef::U8(x), ValDef::U8(y)) => x == y,
        (ValDef::U16(x), ValDef::U16(y)) => x == y,
        (ValDef::U32(x), ValDef::U32(y)) => x == y,
        (ValDef::U64(x), ValDef::U64(y)) => x == y,
        (ValDef::Ip4(x), ValDef::Ip4(y)) => x == y,
        (ValDef::Sock4(x), ValDef::Sock4(y)) => x == y,
        (ValDef::Str(x), ValDef::Str(y)) => x@ == y@,
        (ValDef::Type(x), ValDef::Type(y)) => x == y,
        _ => false,
    }
}

/// Whether a value may stand where `t` is declared: matching tag, a
/// narrower unsigned integer where a wider one is declared, any
/// integer as an address, and integers where bytes are declared.
pub open spec fn compatible_spec(t: ValType, v: Val) -> bool {
    match t {
        ValType::Void => v matches Val::Nil,
        ValType::Bool => v matches Val::Bool(_),
        ValType::U8 => v matches Val::U8(_),
        ValType::U16 => v matches Val::U8(_) || v matches Val::U16(_),
        ValType::U32 => v matches Val::U8(_) || v matches Val::U16(_) || v matches Val::U32(_),
        ValType::U64 => v.spec_is_integral(),
        ValType::Ip4 => v matches Val::Ip4(_) || v.spec_is_integral(),
        ValType::Sock4 => v matches Val::Sock4(_),
        ValType::Str => v matches Val::Str(_) || v.spec_is_integral(),
        ValType::Pkt => v matches Val::Pkt(_),
        ValType::PktGen => v matches Val::PktGen(_),
        ValType::Obj => v matches Val::Obj(_),
        ValType::Func => v matches Val::Func(_),
        ValType::Method => v matches Val::Method(_, _),
        ValType::TimeJump => v matches Val::TimeJump(_),
        ValType::Type => v matches Val::Type(_),
    }
}

impl ValType {
    /// Whether a value may be bound to an argument declared with this
    /// type.
    pub fn compatible_with(&self, v: &Val) -> (r: bool)
        ensures
            r == compatible_spec(*self, *v),
    {
        match self {
            ValType::Void => matches!(v, Val::Nil),
            ValType::Bool => matches!(v, Val::Bool(_)),
            ValType::U8 => matches!(v, Val::U8(_)),
            ValType::U16 => matches!(v, Val::U8(_) | Val::U16(_)),
            ValType::U32 => matches!(v, Val::U8(_) | Val::U16(_) | Val::U32(_)),
            ValType::U64 => v.is_integral(),
            ValType::Ip4 => matches!(v, Val::Ip4(_)) || v.is_integral(),
            ValType::Sock4 => matches!(v, Val::Sock4(_)),
            ValType::Str => matches!(v, Val::Str(_)) || v.is_integral(),
            ValType::Pkt => matches!(v, Val::Pkt(_)),
            ValType::PktGen => matches!(v, Val::PktGen(_)),
            ValType::Obj => matches!(v, Val::Obj(_)),
            ValType::Func => matches!(v, Val::Func(_)),
            ValType::Method => matches!(v, Val::Method(_, _)),
            ValType::TimeJump => matches!(v, Val::TimeJump(_)),
            ValType::Type => matches!(v, Val::Type(_)),
        }
    }
}

/// Whether a value may be bound to an argument with this default: the
/// declared type's compatibility, and additionally `Nil` when the
/// default is a nullable `Type` marker.
pub open spec fn arg_compatible_spec(d: ValDef, v: Val) -> bool {
    match d {
        ValDef::Type(t) => v matches Val::Nil || compatible_spec(t, v),
        _ => compatible_spec(d.spec_val_type(), v),
    }
}

impl ValDef {
    pub fn arg_compatible(&self, v: &Val) -> (r: bool)
        ensures
            r == arg_compatible_spec(*self, *v),
    {
        match self {
            ValDef::Type(t) => matches!(v, Val::Nil) || t.compatible_with(v),
            _ => self.val_type().compatible_with(v),
        }
    }
}

impl Clone for ValDef {
    fn clone(&self) -> (r: Self)
        ensures
            valdef_eq(r, *self),
    {
        match self {
            ValDef::Nil => ValDef::Nil,
            ValDef::Bool(x) => ValDef::Bool(*x),
            ValDef::U8(x) => ValDef::U8(*x),
            ValDef::U16(x) => ValDef::U16(*x),
            ValDef::U32(x) => ValDef::U32(*x),
            ValDef::U64(x) => ValDef::U64(*x),
            ValDef::Ip4(x) => ValDef::Ip4(*x),
            ValDef::Sock4(x) => ValDef::Sock4(*x),
            ValDef::Str(b) => ValDef::Str(b.clone()),
            ValDef::Type(t) => ValDef::Type(*t),
        }
    }
}

/// Compatibility looks only at a value's kind, so it respects value
/// equivalence.
/// Every value is equivalent to itself.
pub proof fn lemma_val_eq_refl(a: Val)
    ensures
        val_eq(a, a),
{
}

pub proof fn lemma_compat_val_eq(t: ValType, a: Val, b: Val)
    requires
        val_eq(a, b),
    ensures
        compatible_spec(t, a) == compatible_spec(t, b),
{
}

pub proof fn lemma_arg_compat_val_eq(d: ValDef, a: Val, b: Val)
    requires
        val_eq(a, b),
    ensures
        arg_compatible_spec(d, a) == arg_compatible_spec(d, b),
{
}

/// A value is owned by one place at a time; cloning copies contents.
impl Clone for Val {
    fn clone(&self) -> (r: Self)
        ensures
            val_eq(r, *self),
    {
        match self {
            Val::Nil => Val::Nil,
            Val::Bool(x) => Val::Bool(*x),
            Val::U8(x) => Val::U8(*x),
            Val::U16(x) => Val::U16(*x),
            Val::U32(x) => Val::U32(*x),
            Val::U64(x) => Val::U64(*x),
            Val::Ip4(x) => Val::Ip4(*x),
            Val::Sock4(x) => Val::Sock4(*x),
            Val::Str(b) => Val::Str(b.clone()),
            Val::Pkt(p) => Val::Pkt(p.clone()),
            Val::PktGen(ps) => Val::PktGen(crate::object::clone_packets(ps)),
            Val::Obj(o) => Val::Obj(o.clone()),
            Val::Func(f) => Val::Func(*f),
            Val::Method(n, f) => Val::Method(clone_string(n), *f),
            Val::TimeJump(x) => Val::TimeJump(*x),
            Val::Type(t) => Val::Type(*t),
        }
    }
}

/// Clone a string, keeping its characters.
pub fn clone_string(s: &String) -> (r: String)
    ensures
        r@ == s@,
{
    let r = s.clone();
    r
}

} // verus!
