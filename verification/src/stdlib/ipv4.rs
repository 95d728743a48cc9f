use vstd::prelude::*;

pub mod icmp;
pub mod tcp;
pub mod udp;

use crate::args::Args;
use crate::err::Error;
use crate::ezpkt::IpFrag;
use crate::libapi::{ArgDecl, ArgDesc, ClassDef, FuncDef, Module, SymDesc};
use crate::object::ObjRef;
use crate::pkt::eth::{eth_hdr, eth_addr, ETHERTYPE_IPV4};
use crate::pkt::ipv4::{ip_hdr, PROTO_UDP};
use crate::pkt::packet::Packet;
use crate::pkt::Serialize;
use crate::stdlib::{ClassId, FuncId, ModuleId};
use crate::sym::Symbol;
use crate::val::{Val, ValDef, ValType};

verus! {

/// The resolution model of this table.
pub open spec fn proto_module_model() -> Seq<(Seq<char>, crate::sym::SymKind)> {
    seq![
        ("ICMP"@, crate::sym::SymKind::ValU8(1)),
        ("TCP"@, crate::sym::SymKind::ValU8(6)),
        ("UDP"@, crate::sym::SymKind::ValU8(17)),
        ("GRE"@, crate::sym::SymKind::ValU8(47)),
    ]
}

pub fn proto_module() -> (r: Module)
    ensures
        forall|n: Seq<char>|
            crate::libapi::lookup_matches(
                #[trigger] crate::libapi::table_lookup(r.symtab@, n),
                crate::libapi::model_lookup(proto_module_model(), n),
            ),
{
    let mut symtab: Vec<SymDesc> = Vec::new();
    symtab.push(SymDesc { name: "ICMP", sym: Symbol::u8(1) });
    symtab.push(SymDesc { name: "TCP", sym: Symbol::u8(6) });
    symtab.push(SymDesc { name: "UDP", sym: Symbol::u8(17) });
    symtab.push(SymDesc { name: "GRE", sym: Symbol::u8(47) });
    let r = Module { name: "proto", symtab };
    proof {
        let m = proto_module_model();
        assert(r.symtab@.len() == m.len());
        assert forall|i: int|
            0 <= i < r.symtab@.len() implies (#[trigger] r.symtab@[i]).name@ == m[i].0
            && crate::sym::kind_of(r.symtab@[i].sym) == m[i].1 by {
        }
        crate::libapi::lemma_table_model(r.symtab@, m);
    }
    r
}

fn dgram_args(frag: bool) -> (r: Vec<ArgDesc>) {
    let mut args: Vec<ArgDesc> = Vec::new();
    args.push(ArgDesc { name: "src", typ: ArgDecl::Positional(ValType::Ip4) });
    args.push(ArgDesc { name: "dst", typ: ArgDecl::Positional(ValType::Ip4) });
    args.push(ArgDesc { name: "id", typ: ArgDecl::Optional(ValDef::U16(0)) });
    args.push(ArgDesc { name: "evil", typ: ArgDecl::Optional(ValDef::Bool(false)) });
    args.push(ArgDesc { name: "df", typ: ArgDecl::Optional(ValDef::Bool(false)) });
    if !frag {
        args.push(ArgDesc { name: "mf", typ: ArgDecl::Optional(ValDef::Bool(false)) });
    }
    args.push(ArgDesc { name: "ttl", typ: ArgDecl::Optional(ValDef::U8(64)) });
    if !frag {
        args.push(ArgDesc { name: "frag_off", typ: ArgDecl::Optional(ValDef::U16(0)) });
    }
    args.push(ArgDesc { name: "proto", typ: ArgDecl::Optional(ValDef::U8(PROTO_UDP)) });
    args
}

pub fn datagram_def() -> (r: FuncDef)
    ensures
        r.body == FuncId::Ipv4Datagram,
{
    FuncDef {
        name: "datagram",
        return_type: ValType::Pkt,
        args: dgram_args(false),
        min_args: 2,
        collect_type: ValType::Str,
        body: FuncId::Ipv4Datagram,
    }
}

/// A raw IPv4 datagram with the given header fields and the joined
/// tail as payload.
pub fn datagram_exec(args: &mut Args) -> (r: Result<Val, Error>) {
    let src = args.next().as_ip4();
    let dst = args.next().as_ip4();
    let id = args.next().as_u16();
    let evil = args.next().as_bool();
    let df = args.next().as_bool();
    let mf = args.next().as_bool();
    let ttl = args.next().as_u8();
    let frag_off = args.next().as_u16();
    let proto = args.next().as_u8();
    let sep: Vec<u8> = Vec::new();
    let data = args.join_extra(sep.as_slice()).as_buf();
    if data.len() > 0xffff - 20 {
        return Err(Error::RuntimeError);
    }
    let mut iph = ip_hdr::default();
    iph.set_tot_len((data.len() as u16) + 20);
    iph.set_id(id);
    iph.set_evil(evil);
    iph.set_df(df);
    iph.set_mf(mf);
    iph.set_frag_off(frag_off);
    iph.set_ttl(ttl);
    iph.set_protocol(proto);
    iph.set_saddr(src);
    iph.set_daddr(dst);
    iph.calc_csum();
    let eth = eth_hdr::new(eth_addr::from_ip(src), eth_addr::from_ip(dst), ETHERTYPE_IPV4);
    let mut pkt = Packet::with_capacity(34 + data.len());
    proof {
        assert(eth.wire().len() == 14);
        assert(iph.wire().len() == 20);
    }
    pkt.push(eth);
    pkt.push(iph);
    pkt.push_bytes(data.as_slice());
    Ok(Val::Pkt(pkt))
}

pub fn frag_def() -> (r: FuncDef)
    ensures
        r.body == FuncId::Ipv4Frag,
{
    FuncDef {
        name: "frag",
        return_type: ValType::Obj,
        args: dgram_args(true),
        min_args: 2,
        collect_type: ValType::Str,
        body: FuncId::Ipv4Frag,
    }
}

/// A fragmentation context holding a datagram template and payload.
pub fn frag_exec(args: &mut Args) -> (r: Result<Val, Error>) {
    let src = args.next().as_ip4();
    let dst = args.next().as_ip4();
    let id = args.next().as_u16();
    let evil = args.next().as_bool();
    let df = args.next().as_bool();
    let ttl = args.next().as_u8();
    let proto = args.next().as_u8();
    let sep: Vec<u8> = Vec::new();
    let payload = args.join_extra(sep.as_slice()).as_buf();
    let mut iph = ip_hdr::default();
    iph.set_id(id);
    iph.set_evil(evil);
    iph.set_df(df);
    iph.set_ttl(ttl);
    iph.set_protocol(proto);
    iph.set_saddr(src);
    iph.set_daddr(dst);
    Ok(Val::Obj(ObjRef::IpFrag(IpFrag::new(iph, payload.cow_buffer()))))
}

pub fn fragment_def() -> (r: FuncDef)
    ensures
        r.body == FuncId::FragFragment,
{
    let mut args: Vec<ArgDesc> = Vec::new();
    args.push(ArgDesc { name: "frag_off", typ: ArgDecl::Positional(ValType::U16) });
    args.push(ArgDesc { name: "len", typ: ArgDecl::Positional(ValType::U16) });
    FuncDef {
        name: "fragment",
        return_type: ValType::Pkt,
        args,
        min_args: 2,
        collect_type: ValType::Void,
        body: FuncId::FragFragment,
    }
}

pub fn fragment_exec(args: &mut Args) -> (r: Result<Val, Error>) {
    let frag_off = args.next().as_u16();
    let len = args.next().as_u16();
    match &args.this {
        Some(ObjRef::IpFrag(f)) => {
            if f.payload.len() > 0xffff - 20 {
                return Err(Error::RuntimeError);
            }
            if (frag_off as usize) * 8 > f.payload.len() {
                return Err(Error::RuntimeError);
            }
            Ok(Val::Pkt(f.fragment(frag_off, len)))
        },
        _ => Err(Error::TypeError),
    }
}

pub fn tail_def() -> (r: FuncDef)
    ensures
        r.body == FuncId::FragTail,
{
    let mut args: Vec<ArgDesc> = Vec::new();
    args.push(ArgDesc { name: "frag_off", typ: ArgDecl::Positional(ValType::U16) });
    FuncDef {
        name: "tail",
        return_type: ValType::Pkt,
        args,
        min_args: 1,
        collect_type: ValType::Void,
        body: FuncId::FragTail,
    }
}

pub fn tail_exec(args: &mut Args) -> (r: Result<Val, Error>) {
    let frag_off = args.next().as_u16();
    match &args.this {
        Some(ObjRef::IpFrag(f)) => {
            if f.payload.len() > 0xffff - 20 {
                return Err(Error::RuntimeError);
            }
            if (frag_off as usize) * 8 > f.payload.len() {
                return Err(Error::RuntimeError);
            }
            Ok(Val::Pkt(f.tail(frag_off)))
        },
        _ => Err(Error::TypeError),
    }
}

pub fn frag_datagram_def() -> (r: FuncDef)
    ensures
        r.body == FuncId::FragDatagram,
{
    let args: Vec<ArgDesc> = Vec::new();
    FuncDef {
        name: "datagram",
        return_type: ValType::Pkt,
        args,
        min_args: 0,
        collect_type: ValType::Void,
        body: FuncId::FragDatagram,
    }
}

pub fn frag_datagram_exec(args: &mut Args) -> (r: Result<Val, Error>) {
    match &args.this {
        Some(ObjRef::IpFrag(f)) => {
            if f.payload.len() > 0xffff - 20 {
                return Err(Error::RuntimeError);
            }
            Ok(Val::Pkt(f.datagram()))
        },
        _ => Err(Error::TypeError),
    }
}

/// The resolution model of this table.
pub open spec fn class_def_ipfrag_model() -> Seq<(Seq<char>, crate::sym::SymKind)> {
    seq![
        ("fragment"@, crate::sym::SymKind::Func(crate::stdlib::FuncId::FragFragment)),
        ("tail"@, crate::sym::SymKind::Func(crate::stdlib::FuncId::FragTail)),
        ("datagram"@, crate::sym::SymKind::Func(crate::stdlib::FuncId::FragDatagram)),
    ]
}

pub fn class_def_ipfrag() -> (r: ClassDef)
    ensures
        forall|n: Seq<char>|
            crate::libapi::lookup_matches(
                #[trigger] crate::libapi::table_lookup(r.symtab@, n),
                crate::libapi::model_lookup(class_def_ipfrag_model(), n),
            ),
{
    let mut symtab: Vec<SymDesc> = Vec::new();
    symtab.push(SymDesc { name: "fragment", sym: Symbol::Func(FuncId::FragFragment) });
    symtab.push(SymDesc { name: "tail", sym: Symbol::Func(FuncId::FragTail) });
    symtab.push(SymDesc { name: "datagram", sym: Symbol::Func(FuncId::FragDatagram) });
    let r = ClassDef { name: "IpFrag", symtab };
    proof {
        let m = class_def_ipfrag_model();
        assert(r.symtab@.len() == m.len());
        assert forall|i: int|
            0 <= i < r.symtab@.len() implies (#[trigger] r.symtab@[i]).name@ == m[i].0
            && crate::sym::kind_of(r.symtab@[i].sym) == m[i].1 by {
        }
        crate::libapi::lemma_table_model(r.symtab@, m);
    }
    r
}

/// The resolution model of this table.
pub open spec fn module_def_model() -> Seq<(Seq<char>, crate::sym::SymKind)> {
    seq![
        ("IpFrag"@, crate::sym::SymKind::Class(crate::stdlib::ClassId::IpFrag)),
        ("tcp"@, crate::sym::SymKind::Module(crate::stdlib::ModuleId::Tcp)),
        ("udp"@, crate::sym::SymKind::Module(crate::stdlib::ModuleId::Udp)),
        ("icmp"@, crate::sym::SymKind::Module(crate::stdlib::ModuleId::Icmp)),
        ("datagram"@, crate::sym::SymKind::Func(crate::stdlib::FuncId::Ipv4Datagram)),
        ("frag"@, crate::sym::SymKind::Func(crate::stdlib::FuncId::Ipv4Frag)),
        ("proto"@, crate::sym::SymKind::Module(crate::stdlib::ModuleId::Ipv4Proto)),
    ]
}

pub fn module_def() -> (r: Module)
    ensures
        forall|n: Seq<char>|
            crate::libapi::lookup_matches(
                #[trigger] crate::libapi::table_lookup(r.symtab@, n),
                crate::libapi::model_lookup(module_def_model(), n),
            ),
{
    let mut symtab: Vec<SymDesc> = Vec::new();
    symtab.push(SymDesc { name: "IpFrag", sym: Symbol::Class(ClassId::IpFrag) });
    symtab.push(SymDesc { name: "tcp", sym: Symbol::Module(ModuleId::Tcp) });
    symtab.push(SymDesc { name: "udp", sym: Symbol::Module(ModuleId::Udp) });
    symtab.push(SymDesc { name: "icmp", sym: Symbol::Module(ModuleId::Icmp) });
    symtab.push(SymDesc { name: "datagram", sym: Symbol::Func(FuncId::Ipv4Datagram) });
    symtab.push(SymDesc { name: "frag", sym: Symbol::Func(FuncId::Ipv4Frag) });
    symtab.push(SymDesc { name: "proto", sym: Symbol::Module(ModuleId::Ipv4Proto) });
    let r = Module { name: "ipv4", symtab };
    proof {
        let m = module_def_model();
        assert(r.symtab@.len() == m.len());
        assert forall|i: int|
            0 <= i < r.symtab@.len() implies (#[trigger] r.symtab@[i]).name@ == m[i].0
            && crate::sym::kind_of(r.symtab@[i].sym) == m[i].1 by {
        }
        crate::libapi::lemma_table_model(r.symtab@, m);
    }
    r
}

} // verus!
