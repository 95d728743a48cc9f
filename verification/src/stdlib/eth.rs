use vstd::prelude::*;
use crate::args::Args;
use crate::err::Error;
use crate::libapi::{ArgDecl, ArgDesc, FuncDef, Module, SymDesc};
use crate::pkt::eth::{eth_hdr, eth_addr, ETHERTYPE_IPV4};
use crate::pkt::packet::Packet;
use crate::pkt::Serialize;
use crate::stdlib::{FuncId, ModuleId};
use crate::strbuf::Buf;
use crate::sym::Symbol;
use crate::val::{Val, ValDef, ValType};

verus! {

pub fn frame_def() -> (r: FuncDef)
    ensures
        r.body == FuncId::EthFrame,
{
    let mut args: Vec<ArgDesc> = Vec::new();
    args.push(ArgDesc { name: "src", typ: ArgDecl::Positional(ValType::Str) });
    args.push(ArgDesc { name: "dst", typ: ArgDecl::Positional(ValType::Str) });
    args.push(ArgDesc { name: "ethertype", typ: ArgDecl::Optional(ValDef::U16(ETHERTYPE_IPV4)) });
    FuncDef {
        name: "frame",
        return_type: ValType::Pkt,
        args,
        min_args: 2,
        collect_type: ValType::Str,
        body: FuncId::EthFrame,
    }
}

/// A six-byte hardware address from raw bytes; any other length is a
/// runtime failure.
fn ether(val: &Buf) -> (r: Result<eth_addr, Error>) {
    if val.len() != 6 {
        return Err(Error::RuntimeError);
    }
    let s = val.as_slice();
    Ok(eth_addr::new([s[0], s[1], s[2], s[3], s[4], s[5]]))
}

/// A whole frame: addresses, ethertype, payload.
pub fn frame_exec(args: &mut Args) -> (r: Result<Val, Error>) {
    let src = args.next().as_buf();
    let dst = args.next().as_buf();
    let ethertype = args.next().as_u16();
    let sep: Vec<u8> = Vec::new();
    let data = args.join_extra(sep.as_slice()).as_buf();
    if data.len() > 0xffff {
        return Err(Error::RuntimeError);
    }
    let srca = match ether(&src) {
        Ok(a) => a,
        Err(e) => {
            return Err(e);
        },
    };
    let dsta = match ether(&dst) {
        Ok(a) => a,
        Err(e) => {
            return Err(e);
        },
    };
    let eth = eth_hdr::new(srca, dsta, ethertype);
    proof {
        assert(eth.wire().len() == 14);
    }
    let mut pkt = Packet::with_capacity(14 + data.len());
    pkt.push(eth);
    pkt.push_bytes(data.as_slice());
    Ok(Val::Pkt(pkt))
}

pub fn from_ip_def() -> (r: FuncDef)
    ensures
        r.body == FuncId::EthFromIp,
{
    let mut args: Vec<ArgDesc> = Vec::new();
    args.push(ArgDesc { name: "ip", typ: ArgDecl::Positional(ValType::Ip4) });
    FuncDef {
        name: "from_ip",
        return_type: ValType::Str,
        args,
        min_args: 1,
        collect_type: ValType::Void,
        body: FuncId::EthFromIp,
    }
}

/// The locally-administered hardware address derived from an address.
pub fn from_ip_exec(args: &mut Args) -> (r: Result<Val, Error>) {
    let ip = args.next().as_ip4();
    let a = eth_addr::from_ip(ip);
    Ok(Val::Str(Buf::from_vec(a.write_bytes())))
}

/// The resolution model of this table.
pub open spec fn ethertype_module_model() -> Seq<(Seq<char>, crate::sym::SymKind)> {
    seq![
        ("VLAN"@, crate::sym::SymKind::ValU16(0x8100)),
        ("FABRICPATH"@, crate::sym::SymKind::ValU16(0x8903)),
        ("IPV4"@, crate::sym::SymKind::ValU16(0x0800)),
        ("IPV6"@, crate::sym::SymKind::ValU16(0x86dd)),
        ("PPTP"@, crate::sym::SymKind::ValU16(0x880b)),
        ("GRETAP"@, crate::sym::SymKind::ValU16(0x6558)),
        ("ERSPAN_1_2"@, crate::sym::SymKind::ValU16(0x88be)),
        ("ERSPAN_3"@, crate::sym::SymKind::ValU16(0x22eb)),
    ]
}

pub fn ethertype_module() -> (r: Module)
    ensures
        forall|n: Seq<char>|
            crate::libapi::lookup_matches(
                #[trigger] crate::libapi::table_lookup(r.symtab@, n),
                crate::libapi::model_lookup(ethertype_module_model(), n),
            ),
{
    let mut symtab: Vec<SymDesc> = Vec::new();
    symtab.push(SymDesc { name: "VLAN", sym: Symbol::u16(0x8100) });
    symtab.push(SymDesc { name: "FABRICPATH", sym: Symbol::u16(0x8903) });
    symtab.push(SymDesc { name: "IPV4", sym: Symbol::u16(0x0800) });
    symtab.push(SymDesc { name: "IPV6", sym: Symbol::u16(0x86dd) });
    symtab.push(SymDesc { name: "PPTP", sym: Symbol::u16(0x880b) });
    symtab.push(SymDesc { name: "GRETAP", sym: Symbol::u16(0x6558) });
    symtab.push(SymDesc { name: "ERSPAN_1_2", sym: Symbol::u16(0x88be) });
    symtab.push(SymDesc { name: "ERSPAN_3", sym: Symbol::u16(0x22eb) });
    let r = Module { name: "ethertype", symtab };
    proof {
        let m = ethertype_module_model();
        assert(r.symtab@.len() == m.len());
        assert forall|i: int|
            0 <= i < r.symtab@.len() implies (#[trigger] r.symtab@[i]).name@ == m[i].0
            && crate::sym::kind_of(r.symtab@[i].sym) == m[i].1 by {
        }
        crate::libapi::lemma_table_model(r.symtab@, m);
    }
    r
}

/// The resolution model of this table.
pub open spec fn module_def_model() -> Seq<(Seq<char>, crate::sym::SymKind)> {
    seq![
        ("ethertype"@, crate::sym::SymKind::Module(crate::stdlib::ModuleId::EthType)),
        ("frame"@, crate::sym::SymKind::Func(crate::stdlib::FuncId::EthFrame)),
        ("from_ip"@, crate::sym::SymKind::Func(crate::stdlib::FuncId::EthFromIp)),
        ("BROADCAST"@, crate::sym::SymKind::ValBytes),
    ]
}

pub fn module_def() -> (r: Module)
    ensures
        forall|n: Seq<char>|
            crate::libapi::lookup_matches(
                #[trigger] crate::libapi::table_lookup(r.symtab@, n),
                crate::libapi::model_lookup(module_def_model(), n),
            ),
{
    let mut symtab: Vec<SymDesc> = Vec::new();
    symtab.push(SymDesc { name: "ethertype", sym: Symbol::Module(ModuleId::EthType) });
    symtab.push(SymDesc { name: "frame", sym: Symbol::Func(FuncId::EthFrame) });
    symtab.push(SymDesc { name: "from_ip", sym: Symbol::Func(FuncId::EthFromIp) });
    let mut bcast: Vec<u8> = Vec::new();
    let mut i: usize = 0;
    while i < 6
        decreases 6 - i,
    {
        bcast.push(0xff);
        i += 1;
    }
    symtab.push(SymDesc { name: "BROADCAST", sym: Symbol::Val(ValDef::Str(Buf::from_vec(bcast))) });
    let r = Module { name: "eth", symtab };
    proof {
        let m = module_def_model();
        assert(r.symtab@.len() == m.len());
        assert forall|i: int|
            0 <= i < r.symtab@.len() implies (#[trigger] r.symtab@[i]).name@ == m[i].0
            && crate::sym::kind_of(r.symtab@[i].sym) == m[i].1 by {
        }
        crate::libapi::lemma_table_model(r.symtab@, m);
    }
    r
}

} // verus!
