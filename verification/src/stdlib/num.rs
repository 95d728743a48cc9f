use vstd::prelude::*;
use crate::args::Args;
use crate::err::Error;
use crate::libapi::{ArgDecl, ArgDesc, FuncDef, Module, SymDesc};
use crate::pkt::{put_be16, put_be32, put_be64, put_le16, put_le32, put_le64};
use crate::stdlib::FuncId;
use crate::strbuf::Buf;
use crate::sym::Symbol;
use crate::val::{Val, ValDef, ValType};

verus! {

fn one_u64_def(name: &'static str, id: FuncId) -> (r: FuncDef)
    ensures
        r.body == id,
{
    let mut args: Vec<ArgDesc> = Vec::new();
    args.push(ArgDesc { name: "val", typ: ArgDecl::Positional(ValType::U64) });
    FuncDef {
        name,
        return_type: ValType::Str,
        args,
        min_args: 1,
        collect_type: ValType::Void,
        body: id,
    }
}

fn len_def(name: &'static str, id: FuncId, adjust: ValDef) -> (r: FuncDef)
    ensures
        r.body == id,
{
    let mut args: Vec<ArgDesc> = Vec::new();
    args.push(ArgDesc { name: "adjust", typ: ArgDecl::Optional(adjust) });
    FuncDef {
        name,
        return_type: ValType::Str,
        args,
        min_args: 0,
        collect_type: ValType::Str,
        body: id,
    }
}

pub fn be16_def() -> (r: FuncDef)
    ensures
        r.body == FuncId::StdBe16,
{
    one_u64_def("be16", FuncId::StdBe16)
}

pub fn be32_def() -> (r: FuncDef)
    ensures
        r.body == FuncId::StdBe32,
{
    one_u64_def("be32", FuncId::StdBe32)
}

pub fn be64_def() -> (r: FuncDef)
    ensures
        r.body == FuncId::StdBe64,
{
    one_u64_def("be64", FuncId::StdBe64)
}

pub fn le16_def() -> (r: FuncDef)
    ensures
        r.body == FuncId::StdLe16,
{
    one_u64_def("le16", FuncId::StdLe16)
}

pub fn le32_def() -> (r: FuncDef)
    ensures
        r.body == FuncId::StdLe32,
{
    one_u64_def("le32", FuncId::StdLe32)
}

pub fn le64_def() -> (r: FuncDef)
    ensures
        r.body == FuncId::StdLe64,
{
    one_u64_def("le64", FuncId::StdLe64)
}

pub fn u8_def() -> (r: FuncDef)
    ensures
        r.body == FuncId::StdU8,
{
    let mut args: Vec<ArgDesc> = Vec::new();
    args.push(ArgDesc { name: "val", typ: ArgDecl::Positional(ValType::U8) });
    FuncDef {
        name: "u8",
        return_type: ValType::Str,
        args,
        min_args: 1,
        collect_type: ValType::Void,
        body: FuncId::StdU8,
    }
}

pub fn len_be64_def() -> (r: FuncDef)
    ensures
        r.body == FuncId::StdLenBe64,
{
    len_def("len_be64", FuncId::StdLenBe64, ValDef::U64(0))
}

pub fn len_be32_def() -> (r: FuncDef)
    ensures
        r.body == FuncId::StdLenBe32,
{
    len_def("len_be32", FuncId::StdLenBe32, ValDef::U32(0))
}

pub fn len_be16_def() -> (r: FuncDef)
    ensures
        r.body == FuncId::StdLenBe16,
{
    len_def("len_be16", FuncId::StdLenBe16, ValDef::U16(0))
}

pub fn len_u8_def() -> (r: FuncDef)
    ensures
        r.body == FuncId::StdLenU8,
{
    len_def("len_u8", FuncId::StdLenU8, ValDef::U8(0))
}

/// The contract of `be16_exec`, stated over the arguments before
/// the call and the state after it.
pub open spec fn be16_exec_post(pre: Args, post: Args, r: Result<Val, Error>) -> bool {
    &&& ((r matches Ok(v) && v matches Val::Str(b) && b@ == crate::pkt::spec_be16(crate::args::arg_at(pre.args@, 0).spec_int_val() as u16)))
}

/// Encode a 16-bit integer as two big-endian bytes.
pub fn be16_exec(args: &mut Args) -> (r: Result<Val, Error>)
    requires
        old(args).cursor == 0,
    ensures
        be16_exec_post(*old(args), *final(args), r),
{
    let x = args.next().as_u16();
    let mut v: Vec<u8> = Vec::new();
    put_be16(&mut v, x);
    Ok(Val::Str(Buf::from_vec(v)))
}

/// The contract of `be32_exec`, stated over the arguments before
/// the call and the state after it.
pub open spec fn be32_exec_post(pre: Args, post: Args, r: Result<Val, Error>) -> bool {
    &&& ((r matches Ok(v) && v matches Val::Str(b) && b@ == crate::pkt::spec_be32(crate::args::arg_at(pre.args@, 0).spec_int_val() as u32)))
}

/// Encode a 32-bit integer as four big-endian bytes.
pub fn be32_exec(args: &mut Args) -> (r: Result<Val, Error>)
    requires
        old(args).cursor == 0,
    ensures
        be32_exec_post(*old(args), *final(args), r),
{
    let x = args.next().as_u32();
    let mut v: Vec<u8> = Vec::new();
    put_be32(&mut v, x);
    Ok(Val::Str(Buf::from_vec(v)))
}

/// The contract of `be64_exec`, stated over the arguments before
/// the call and the state after it.
pub open spec fn be64_exec_post(pre: Args, post: Args, r: Result<Val, Error>) -> bool {
    &&& ((r matches Ok(v) && v matches Val::Str(b) && b@ == crate::pkt::spec_be64(crate::args::arg_at(pre.args@, 0).spec_int_val() as u64)))
}

/// Encode a 64-bit integer as eight big-endian bytes.
pub fn be64_exec(args: &mut Args) -> (r: Result<Val, Error>)
    requires
        old(args).cursor == 0,
    ensures
        be64_exec_post(*old(args), *final(args), r),
{
    let x = args.next().as_u64();
    let mut v: Vec<u8> = Vec::new();
    put_be64(&mut v, x);
    Ok(Val::Str(Buf::from_vec(v)))
}

/// The contract of `le16_exec`, stated over the arguments before
/// the call and the state after it.
pub open spec fn le16_exec_post(pre: Args, post: Args, r: Result<Val, Error>) -> bool {
    &&& ((r matches Ok(v) && v matches Val::Str(b) && b@ == crate::pkt::spec_le16(crate::args::arg_at(pre.args@, 0).spec_int_val() as u16)))
}

/// Encode a 16-bit integer as two little-endian bytes.
pub fn le16_exec(args: &mut Args) -> (r: Result<Val, Error>)
    requires
        old(args).cursor == 0,
    ensures
        le16_exec_post(*old(args), *final(args), r),
{
    let x = args.next().as_u16();
    let mut v: Vec<u8> = Vec::new();
    put_le16(&mut v, x);
    Ok(Val::Str(Buf::from_vec(v)))
}

/// The contract of `le32_exec`, stated over the arguments before
/// the call and the state after it.
pub open spec fn le32_exec_post(pre: Args, post: Args, r: Result<Val, Error>) -> bool {
    &&& ((r matches Ok(v) && v matches Val::Str(b) && b@ == crate::pkt::spec_le32(crate::args::arg_at(pre.args@, 0).spec_int_val() as u32)))
}

/// Encode a 32-bit integer as four little-endian bytes.
pub fn le32_exec(args: &mut Args) -> (r: Result<Val, Error>)
    requires
        old(args).cursor == 0,
    ensures
        le32_exec_post(*old(args), *final(args), r),
{
    let x = args.next().as_u32();
    let mut v: Vec<u8> = Vec::new();
    put_le32(&mut v, x);
    Ok(Val::Str(Buf::from_vec(v)))
}

/// The contract of `le64_exec`, stated over the arguments before
/// the call and the state after it.
pub open spec fn le64_exec_post(pre: Args, post: Args, r: Result<Val, Error>) -> bool {
    &&& ((r matches Ok(v) && v matches Val::Str(b) && b@ == crate::pkt::spec_le64(crate::args::arg_at(pre.args@, 0).spec_int_val() as u64)))
}

/// Encode a 64-bit integer as eight little-endian bytes.
pub fn le64_exec(args: &mut Args) -> (r: Result<Val, Error>)
    requires
        old(args).cursor == 0,
    ensures
        le64_exec_post(*old(args), *final(args), r),
{
    let x = args.next().as_u64();
    let mut v: Vec<u8> = Vec::new();
    put_le64(&mut v, x);
    Ok(Val::Str(Buf::from_vec(v)))
}

/// The contract of `u8_exec`, stated over the arguments before
/// the call and the state after it.
pub open spec fn u8_exec_post(pre: Args, post: Args, r: Result<Val, Error>) -> bool {
    &&& ((r matches Ok(v) && v matches Val::Str(b) && b@ == seq![crate::args::arg_at(pre.args@, 0).spec_int_val() as u8]))
}

/// Convert an integer into a one-byte string.
pub fn u8_exec(args: &mut Args) -> (r: Result<Val, Error>)
    requires
        old(args).cursor == 0,
    ensures
        u8_exec_post(*old(args), *final(args), r),
{
    let x = args.next().as_u8();
    let mut v: Vec<u8> = Vec::new();
    v.push(x);
    Ok(Val::Str(Buf::from_vec(v)))
}

fn joined(args: &Args) -> (r: Buf)
    ensures
        r@ == crate::args::join_spec(args.extra@, Seq::<u8>::empty()),
{
    let sep: Vec<u8> = Vec::new();
    let r = args.join_extra(sep.as_slice()).as_buf();
    proof {
        assert(Seq::<u8>::empty() =~= Seq::<u8>::empty());
    }
    r
}

/// The contract of `len_be64_exec`, stated over the arguments before
/// the call and the state after it.
pub open spec fn len_be64_exec_post(pre: Args, post: Args, r: Result<Val, Error>) -> bool {
    &&& ((r matches Ok(v) && v matches Val::Str(b) && b@ == crate::pkt::spec_be64(
            ((crate::args::join_spec(pre.extra@, Seq::<u8>::empty()).len() + crate::args::arg_at(pre.args@, 0).spec_int_val() as u64) % 0x10000000000000000) as u64,
        ) + crate::args::join_spec(pre.extra@, Seq::<u8>::empty())))
}

/// Prefix the joined tail with a 64-bit big-endian length field.
pub fn len_be64_exec(args: &mut Args) -> (r: Result<Val, Error>)
    requires
        old(args).cursor == 0,
    ensures
        len_be64_exec_post(*old(args), *final(args), r),
{
    let adjust = args.next().as_u64();
    let bytes = joined(args);
    let n = bytes.len();
    let x = (n as u64).wrapping_add(adjust);
    proof {
        let md = 0x10000000000000000int;
        let a = (n as u64) as int;
        let b = adjust as int;
        vstd::arithmetic::div_mod::lemma_add_mod_noop(n as int, b, md);
        vstd::arithmetic::div_mod::lemma_small_mod(adjust as nat, 0x10000000000000000nat);
        if a + b >= md {
            vstd::arithmetic::div_mod::lemma_mod_sub_multiples_vanish(a + b - md, md);
            vstd::arithmetic::div_mod::lemma_small_mod((a + b - md) as nat, 0x10000000000000000nat);
        } else {
            vstd::arithmetic::div_mod::lemma_small_mod((a + b) as nat, 0x10000000000000000nat);
        }
        assert(x as int == (n + adjust as int) % md);
    }
    let mut msg: Vec<u8> = Vec::new();
    put_be64(&mut msg, x);
    crate::pkt::put_bytes(&mut msg, bytes.as_slice());
    Ok(Val::Str(Buf::from_vec(msg)))
}

/// The contract of `len_be32_exec`, stated over the arguments before
/// the call and the state after it.
pub open spec fn len_be32_exec_post(pre: Args, post: Args, r: Result<Val, Error>) -> bool {
    &&& ((r matches Ok(v) && v matches Val::Str(b) && b@ == crate::pkt::spec_be32(
            ((crate::args::join_spec(pre.extra@, Seq::<u8>::empty()).len() + crate::args::arg_at(pre.args@, 0).spec_int_val() as u32) % 0x100000000) as u32,
        ) + crate::args::join_spec(pre.extra@, Seq::<u8>::empty())))
}

/// Prefix the joined tail with a 32-bit big-endian length field.
pub fn len_be32_exec(args: &mut Args) -> (r: Result<Val, Error>)
    requires
        old(args).cursor == 0,
    ensures
        len_be32_exec_post(*old(args), *final(args), r),
{
    let adjust = args.next().as_u32();
    let bytes = joined(args);
    let n = bytes.len();
    let x = ((n as u64 % 0x100000000) as u32).wrapping_add(adjust);
    proof {
        let md = 0x100000000int;
        let a = ((n as u64 % 0x100000000) as u32) as int;
        let b = adjust as int;
        vstd::arithmetic::div_mod::lemma_add_mod_noop(n as int, b, md);
        vstd::arithmetic::div_mod::lemma_small_mod(adjust as nat, 0x100000000nat);
        if a + b >= md {
            vstd::arithmetic::div_mod::lemma_mod_sub_multiples_vanish(a + b - md, md);
            vstd::arithmetic::div_mod::lemma_small_mod((a + b - md) as nat, 0x100000000nat);
        } else {
            vstd::arithmetic::div_mod::lemma_small_mod((a + b) as nat, 0x100000000nat);
        }
        assert(x as int == (n + adjust as int) % md);
    }
    let mut msg: Vec<u8> = Vec::new();
    put_be32(&mut msg, x);
    crate::pkt::put_bytes(&mut msg, bytes.as_slice());
    Ok(Val::Str(Buf::from_vec(msg)))
}

/// The contract of `len_be16_exec`, stated over the arguments before
/// the call and the state after it.
pub open spec fn len_be16_exec_post(pre: Args, post: Args, r: Result<Val, Error>) -> bool {
    &&& ((r matches Ok(v) && v matches Val::Str(b) && b@ == crate::pkt::spec_be16(
            ((crate::args::join_spec(pre.extra@, Seq::<u8>::empty()).len() + crate::args::arg_at(pre.args@, 0).spec_int_val() as u16) % 0x10000) as u16,
        ) + crate::args::join_spec(pre.extra@, Seq::<u8>::empty())))
}

/// Prefix the joined tail with a 16-bit big-endian length field.
pub fn len_be16_exec(args: &mut Args) -> (r: Result<Val, Error>)
    requires
        old(args).cursor == 0,
    ensures
        len_be16_exec_post(*old(args), *final(args), r),
{
    let adjust = args.next().as_u16();
    let bytes = joined(args);
    let n = bytes.len();
    let x = ((n % 0x10000) as u16).wrapping_add(adjust);
    proof {
        let md = 0x10000int;
        let a = ((n % 0x10000) as u16) as int;
        let b = adjust as int;
        vstd::arithmetic::div_mod::lemma_add_mod_noop(n as int, b, md);
        vstd::arithmetic::div_mod::lemma_small_mod(adjust as nat, 0x10000nat);
        if a + b >= md {
            vstd::arithmetic::div_mod::lemma_mod_sub_multiples_vanish(a + b - md, md);
            vstd::arithmetic::div_mod::lemma_small_mod((a + b - md) as nat, 0x10000nat);
        } else {
            vstd::arithmetic::div_mod::lemma_small_mod((a + b) as nat, 0x10000nat);
        }
        assert(x as int == (n + adjust as int) % md);
    }
    let mut msg: Vec<u8> = Vec::new();
    put_be16(&mut msg, x);
    crate::pkt::put_bytes(&mut msg, bytes.as_slice());
    Ok(Val::Str(Buf::from_vec(msg)))
}

/// The contract of `len_u8_exec`, stated over the arguments before
/// the call and the state after it.
pub open spec fn len_u8_exec_post(pre: Args, post: Args, r: Result<Val, Error>) -> bool {
    &&& ((r matches Ok(v) && v matches Val::Str(b) && b@ == seq![
            ((crate::args::join_spec(pre.extra@, Seq::<u8>::empty()).len() + crate::args::arg_at(pre.args@, 0).spec_int_val() as u8) % 0x100) as u8,
        ] + crate::args::join_spec(pre.extra@, Seq::<u8>::empty())))
}

/// Prefix the joined tail with a one-byte length field.
pub fn len_u8_exec(args: &mut Args) -> (r: Result<Val, Error>)
    requires
        old(args).cursor == 0,
    ensures
        len_u8_exec_post(*old(args), *final(args), r),
{
    let adjust = args.next().as_u8();
    let bytes = joined(args);
    let n = bytes.len();
    let x = ((n % 0x100) as u8).wrapping_add(adjust);
    proof {
        let md = 0x100int;
        let a = ((n % 0x100) as u8) as int;
        let b = adjust as int;
        vstd::arithmetic::div_mod::lemma_add_mod_noop(n as int, b, md);
        vstd::arithmetic::div_mod::lemma_small_mod(adjust as nat, 0x100nat);
        if a + b >= md {
            vstd::arithmetic::div_mod::lemma_mod_sub_multiples_vanish(a + b - md, md);
            vstd::arithmetic::div_mod::lemma_small_mod((a + b - md) as nat, 0x100nat);
        } else {
            vstd::arithmetic::div_mod::lemma_small_mod((a + b) as nat, 0x100nat);
        }
        assert(x as int == (n + adjust as int) % md);
    }
    let mut msg: Vec<u8> = Vec::new();
    msg.push(x);
    crate::pkt::put_bytes(&mut msg, bytes.as_slice());
    Ok(Val::Str(Buf::from_vec(msg)))
}

/// The resolution model of this table.
pub open spec fn module_def_model() -> Seq<(Seq<char>, crate::sym::SymKind)> {
    seq![
        ("be16"@, crate::sym::SymKind::Func(crate::stdlib::FuncId::StdBe16)),
        ("be32"@, crate::sym::SymKind::Func(crate::stdlib::FuncId::StdBe32)),
        ("be64"@, crate::sym::SymKind::Func(crate::stdlib::FuncId::StdBe64)),
        ("le16"@, crate::sym::SymKind::Func(crate::stdlib::FuncId::StdLe16)),
        ("le32"@, crate::sym::SymKind::Func(crate::stdlib::FuncId::StdLe32)),
        ("le64"@, crate::sym::SymKind::Func(crate::stdlib::FuncId::StdLe64)),
        ("u8"@, crate::sym::SymKind::Func(crate::stdlib::FuncId::StdU8)),
        ("len_be64"@, crate::sym::SymKind::Func(crate::stdlib::FuncId::StdLenBe64)),
        ("len_be32"@, crate::sym::SymKind::Func(crate::stdlib::FuncId::StdLenBe32)),
        ("len_be16"@, crate::sym::SymKind::Func(crate::stdlib::FuncId::StdLenBe16)),
        ("len_u8"@, crate::sym::SymKind::Func(crate::stdlib::FuncId::StdLenU8)),
    ]
}

pub fn module_def() -> (r: Module)
    ensures
        forall|n: Seq<char>|
            crate::libapi::lookup_matches(
                #[trigger] crate::libapi::table_lookup(r.symtab@, n),
                crate::libapi::model_lookup(module_def_model(), n),
            ),
{
    let mut symtab: Vec<SymDesc> = Vec::new();
    symtab.push(SymDesc { name: "be16", sym: Symbol::Func(FuncId::StdBe16) });
    symtab.push(SymDesc { name: "be32", sym: Symbol::Func(FuncId::StdBe32) });
    symtab.push(SymDesc { name: "be64", sym: Symbol::Func(FuncId::StdBe64) });
    symtab.push(SymDesc { name: "le16", sym: Symbol::Func(FuncId::StdLe16) });
    symtab.push(SymDesc { name: "le32", sym: Symbol::Func(FuncId::StdLe32) });
    symtab.push(SymDesc { name: "le64", sym: Symbol::Func(FuncId::StdLe64) });
    symtab.push(SymDesc { name: "u8", sym: Symbol::Func(FuncId::StdU8) });
    symtab.push(SymDesc { name: "len_be64", sym: Symbol::Func(FuncId::StdLenBe64) });
    symtab.push(SymDesc { name: "len_be32", sym: Symbol::Func(FuncId::StdLenBe32) });
    symtab.push(SymDesc { name: "len_be16", sym: Symbol::Func(FuncId::StdLenBe16) });
    symtab.push(SymDesc { name: "len_u8", sym: Symbol::Func(FuncId::StdLenU8) });
    let r = Module { name: "std", symtab };
    proof {
        let m = module_def_model();
        assert(r.symtab@.len() == m.len());
        assert forall|i: int|
            0 <= i < r.symtab@.len() implies (#[trigger] r.symtab@[i]).name@ == m[i].0
            && crate::sym::kind_of(r.symtab@[i].sym) == m[i].1 by {
        }
        crate::libapi::lemma_table_model(r.symtab@, m);
    }
    r
}

} // verus!
