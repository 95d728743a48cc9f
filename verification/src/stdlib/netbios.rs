use vstd::prelude::*;
use crate::args::Args;
use crate::err::Error;
use crate::libapi::{ArgDecl, ArgDesc, FuncDef, Module, SymDesc};
use crate::pkt::dns::DnsFlags;
use crate::pkt::netbios::encode;
use crate::stdlib::{FuncId, ModuleId};
use crate::strbuf::Buf;
use crate::sym::Symbol;
use crate::val::{Val, ValDef, ValType};

verus! {

pub fn flags_def() -> (r: FuncDef)
    ensures
        r.body == FuncId::NbnsFlags,
{
    let mut args: Vec<ArgDesc> = Vec::new();
    args.push(ArgDesc { name: "opcode", typ: ArgDecl::Positional(ValType::U8) });
    args.push(ArgDesc { name: "response", typ: ArgDecl::Optional(ValDef::Bool(false)) });
    args.push(ArgDesc { name: "aa", typ: ArgDecl::Optional(ValDef::Bool(false)) });
    args.push(ArgDesc { name: "tc", typ: ArgDecl::Optional(ValDef::Bool(false)) });
    args.push(ArgDesc { name: "rd", typ: ArgDecl::Optional(ValDef::Bool(false)) });
    args.push(ArgDesc { name: "ra", typ: ArgDecl::Optional(ValDef::Bool(false)) });
    args.push(ArgDesc { name: "z", typ: ArgDecl::Optional(ValDef::Bool(false)) });
    args.push(ArgDesc { name: "ad", typ: ArgDecl::Optional(ValDef::Bool(false)) });
    args.push(ArgDesc { name: "b", typ: ArgDecl::Optional(ValDef::Bool(false)) });
    args.push(ArgDesc { name: "rcode", typ: ArgDecl::Optional(ValDef::U8(0)) });
    FuncDef {
        name: "flags",
        return_type: ValType::U16,
        args,
        min_args: 1,
        collect_type: ValType::Void,
        body: FuncId::NbnsFlags,
    }
}

/// The name-service flags word; the broadcast flag sits where DNS
/// keeps CD.
pub fn flags_exec(args: &mut Args) -> (r: Result<Val, Error>) {
    let opcode = args.next().as_u8();
    let response = args.next().as_bool();
    let aa = args.next().as_bool();
    let tc = args.next().as_bool();
    let rd = args.next().as_bool();
    let ra = args.next().as_bool();
    let z = args.next().as_bool();
    let ad = args.next().as_bool();
    let b = args.next().as_bool();
    let rcode = args.next().as_u8();
    let w = DnsFlags {
        response,
        opcode,
        aa,
        tc,
        rd,
        ra,
        z,
        ad,
        cd: b,
        rcode,
    }.build();
    Ok(Val::U16(w))
}

pub fn encode_def() -> (r: FuncDef)
    ensures
        r.body == FuncId::NbNameEncode,
{
    let mut args: Vec<ArgDesc> = Vec::new();
    args.push(ArgDesc { name: "suffix", typ: ArgDecl::Optional(ValDef::U8(0)) });
    FuncDef {
        name: "encode",
        return_type: ValType::Str,
        args,
        min_args: 0,
        collect_type: ValType::Str,
        body: FuncId::NbNameEncode,
    }
}

/// First-level encode the joined name with its suffix byte.
pub fn encode_exec(args: &mut Args) -> (r: Result<Val, Error>) {
    let suffix = args.next().as_u8();
    let sep: Vec<u8> = Vec::new();
    let data = args.join_extra(sep.as_slice()).as_buf();
    match encode(data.as_slice(), suffix) {
        Some(enc) => Ok(Val::Str(Buf::from_vec(enc))),
        None => Err(Error::RuntimeError),
    }
}

/// The resolution model of this table.
pub open spec fn opcode_module_model() -> Seq<(Seq<char>, crate::sym::SymKind)> {
    seq![
        ("QUERY"@, crate::sym::SymKind::ValU8(0)),
        ("REGISTRATION"@, crate::sym::SymKind::ValU8(5)),
        ("RELEASE"@, crate::sym::SymKind::ValU8(6)),
        ("WACK"@, crate::sym::SymKind::ValU8(7)),
        ("REFRESH"@, crate::sym::SymKind::ValU8(8)),
        ("REFRESH_ALT"@, crate::sym::SymKind::ValU8(9)),
        ("MH_REGISTRATION"@, crate::sym::SymKind::ValU8(15)),
    ]
}

pub fn opcode_module() -> (r: Module)
    ensures
        forall|n: Seq<char>|
            crate::libapi::lookup_matches(
                #[trigger] crate::libapi::table_lookup(r.symtab@, n),
                crate::libapi::model_lookup(opcode_module_model(), n),
            ),
{
    let mut symtab: Vec<SymDesc> = Vec::new();
    symtab.push(SymDesc { name: "QUERY", sym: Symbol::u8(0) });
    symtab.push(SymDesc { name: "REGISTRATION", sym: Symbol::u8(5) });
    symtab.push(SymDesc { name: "RELEASE", sym: Symbol::u8(6) });
    symtab.push(SymDesc { name: "WACK", sym: Symbol::u8(7) });
    symtab.push(SymDesc { name: "REFRESH", sym: Symbol::u8(8) });
    symtab.push(SymDesc { name: "REFRESH_ALT", sym: Symbol::u8(9) });
    symtab.push(SymDesc { name: "MH_REGISTRATION", sym: Symbol::u8(15) });
    let r = Module { name: "opcode", symtab };
    proof {
        let m = opcode_module_model();
        assert(r.symtab@.len() == m.len());
        assert forall|i: int|
            0 <= i < r.symtab@.len() implies (#[trigger] r.symtab@[i]).name@ == m[i].0
            && crate::sym::kind_of(r.symtab@[i].sym) == m[i].1 by {
        }
        crate::libapi::lemma_table_model(r.symtab@, m);
    }
    r
}

/// The resolution model of this table.
pub open spec fn rrtype_module_model() -> Seq<(Seq<char>, crate::sym::SymKind)> {
    seq![
        ("NULL"@, crate::sym::SymKind::ValU16(0x0a)),
        ("NB"@, crate::sym::SymKind::ValU16(0x20)),
        ("NBSTAT"@, crate::sym::SymKind::ValU16(0x21)),
    ]
}

pub fn rrtype_module() -> (r: Module)
    ensures
        forall|n: Seq<char>|
            crate::libapi::lookup_matches(
                #[trigger] crate::libapi::table_lookup(r.symtab@, n),
                crate::libapi::model_lookup(rrtype_module_model(), n),
            ),
{
    let mut symtab: Vec<SymDesc> = Vec::new();
    symtab.push(SymDesc { name: "NULL", sym: Symbol::u16(0x0a) });
    symtab.push(SymDesc { name: "NB", sym: Symbol::u16(0x20) });
    symtab.push(SymDesc { name: "NBSTAT", sym: Symbol::u16(0x21) });
    let r = Module { name: "rrtype", symtab };
    proof {
        let m = rrtype_module_model();
        assert(r.symtab@.len() == m.len());
        assert forall|i: int|
            0 <= i < r.symtab@.len() implies (#[trigger] r.symtab@[i]).name@ == m[i].0
            && crate::sym::kind_of(r.symtab@[i].sym) == m[i].1 by {
        }
        crate::libapi::lemma_table_model(r.symtab@, m);
    }
    r
}

/// The resolution model of this table.
pub open spec fn rcode_module_model() -> Seq<(Seq<char>, crate::sym::SymKind)> {
    seq![
        ("ACT_ERR"@, crate::sym::SymKind::ValU8(6)),
        ("CFT_ERR"@, crate::sym::SymKind::ValU8(7)),
    ]
}

pub fn rcode_module() -> (r: Module)
    ensures
        forall|n: Seq<char>|
            crate::libapi::lookup_matches(
                #[trigger] crate::libapi::table_lookup(r.symtab@, n),
                crate::libapi::model_lookup(rcode_module_model(), n),
            ),
{
    let mut symtab: Vec<SymDesc> = Vec::new();
    symtab.push(SymDesc { name: "ACT_ERR", sym: Symbol::u8(6) });
    symtab.push(SymDesc { name: "CFT_ERR", sym: Symbol::u8(7) });
    let r = Module { name: "rcode", symtab };
    proof {
        let m = rcode_module_model();
        assert(r.symtab@.len() == m.len());
        assert forall|i: int|
            0 <= i < r.symtab@.len() implies (#[trigger] r.symtab@[i]).name@ == m[i].0
            && crate::sym::kind_of(r.symtab@[i].sym) == m[i].1 by {
        }
        crate::libapi::lemma_table_model(r.symtab@, m);
    }
    r
}

/// The resolution model of this table.
pub open spec fn ns_module_model() -> Seq<(Seq<char>, crate::sym::SymKind)> {
    seq![
        ("opcode"@, crate::sym::SymKind::Module(crate::stdlib::ModuleId::NbNsOpcode)),
        ("rrtype"@, crate::sym::SymKind::Module(crate::stdlib::ModuleId::NbNsRrtype)),
        ("rcode"@, crate::sym::SymKind::Module(crate::stdlib::ModuleId::NbNsRcode)),
        ("flags"@, crate::sym::SymKind::Func(crate::stdlib::FuncId::NbnsFlags)),
    ]
}

pub fn ns_module() -> (r: Module)
    ensures
        forall|n: Seq<char>|
            crate::libapi::lookup_matches(
                #[trigger] crate::libapi::table_lookup(r.symtab@, n),
                crate::libapi::model_lookup(ns_module_model(), n),
            ),
{
    let mut symtab: Vec<SymDesc> = Vec::new();
    symtab.push(SymDesc { name: "opcode", sym: Symbol::Module(ModuleId::NbNsOpcode) });
    symtab.push(SymDesc { name: "rrtype", sym: Symbol::Module(ModuleId::NbNsRrtype) });
    symtab.push(SymDesc { name: "rcode", sym: Symbol::Module(ModuleId::NbNsRcode) });
    symtab.push(SymDesc { name: "flags", sym: Symbol::Func(FuncId::NbnsFlags) });
    let r = Module { name: "ns", symtab };
    proof {
        let m = ns_module_model();
        assert(r.symtab@.len() == m.len());
        assert forall|i: int|
            0 <= i < r.symtab@.len() implies (#[trigger] r.symtab@[i]).name@ == m[i].0
            && crate::sym::kind_of(r.symtab@[i].sym) == m[i].1 by {
        }
        crate::libapi::lemma_table_model(r.symtab@, m);
    }
    r
}

/// The resolution model of this table.
pub open spec fn name_module_model() -> Seq<(Seq<char>, crate::sym::SymKind)> {
    seq![
        ("encode"@, crate::sym::SymKind::Func(crate::stdlib::FuncId::NbNameEncode)),
    ]
}

pub fn name_module() -> (r: Module)
    ensures
        forall|n: Seq<char>|
            crate::libapi::lookup_matches(
                #[trigger] crate::libapi::table_lookup(r.symtab@, n),
                crate::libapi::model_lookup(name_module_model(), n),
            ),
{
    let mut symtab: Vec<SymDesc> = Vec::new();
    symtab.push(SymDesc { name: "encode", sym: Symbol::Func(FuncId::NbNameEncode) });
    let r = Module { name: "name", symtab };
    proof {
        let m = name_module_model();
        assert(r.symtab@.len() == m.len());
        assert forall|i: int|
            0 <= i < r.symtab@.len() implies (#[trigger] r.symtab@[i]).name@ == m[i].0
            && crate::sym::kind_of(r.symtab@[i].sym) == m[i].1 by {
        }
        crate::libapi::lemma_table_model(r.symtab@, m);
    }
    r
}

/// The resolution model of this table.
pub open spec fn module_def_model() -> Seq<(Seq<char>, crate::sym::SymKind)> {
    seq![
        ("ns"@, crate::sym::SymKind::Module(crate::stdlib::ModuleId::NbNs)),
        ("name"@, crate::sym::SymKind::Module(crate::stdlib::ModuleId::NbName)),
    ]
}

pub fn module_def() -> (r: Module)
    ensures
        forall|n: Seq<char>|
            crate::libapi::lookup_matches(
                #[trigger] crate::libapi::table_lookup(r.symtab@, n),
                crate::libapi::model_lookup(module_def_model(), n),
            ),
{
    let mut symtab: Vec<SymDesc> = Vec::new();
    symtab.push(SymDesc { name: "ns", sym: Symbol::Module(ModuleId::NbNs) });
    symtab.push(SymDesc { name: "name", sym: Symbol::Module(ModuleId::NbName) });
    let r = Module { name: "netbios", symtab };
    proof {
        let m = module_def_model();
        assert(r.symtab@.len() == m.len());
        assert forall|i: int|
            0 <= i < r.symtab@.len() implies (#[trigger] r.symtab@[i]).name@ == m[i].0
            && crate::sym::kind_of(r.symtab@[i].sym) == m[i].1 by {
        }
        crate::libapi::lemma_table_model(r.symtab@, m);
    }
    r
}

} // verus!
