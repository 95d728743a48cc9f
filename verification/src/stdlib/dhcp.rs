use vstd::prelude::*;
use crate::args::Args;
use crate::err::Error;
use crate::ezpkt::Dhcp;
use crate::libapi::{ArgDecl, ArgDesc, FuncDef, Module, SymDesc};
use crate::pkt::dhcp::{dhcp_opt, DHCP_MAGIC};
use crate::pkt::Ip4Addr;
use crate::stdlib::{FuncId, ModuleId};
use crate::strbuf::Buf;
use crate::sym::Symbol;
use crate::val::{Val, ValDef, ValType};

verus! {

pub fn hdr_def() -> (r: FuncDef)
    ensures
        r.body == FuncId::DhcpHdr,
{
    let mut args: Vec<ArgDesc> = Vec::new();
    args.push(ArgDesc { name: "opcode", typ: ArgDecl::Optional(ValDef::U8(1)) });
    args.push(ArgDesc { name: "htype", typ: ArgDecl::Optional(ValDef::U8(1)) });
    args.push(ArgDesc { name: "hlen", typ: ArgDecl::Optional(ValDef::U8(6)) });
    args.push(ArgDesc { name: "hops", typ: ArgDecl::Optional(ValDef::U8(0)) });
    args.push(ArgDesc { name: "xid", typ: ArgDecl::Optional(ValDef::U32(0)) });
    args.push(ArgDesc { name: "ciaddr", typ: ArgDecl::Optional(ValDef::Ip4(Ip4Addr { bits: 0 })) });
    args.push(ArgDesc { name: "yiaddr", typ: ArgDecl::Optional(ValDef::Ip4(Ip4Addr { bits: 0 })) });
    args.push(ArgDesc { name: "siaddr", typ: ArgDecl::Optional(ValDef::Ip4(Ip4Addr { bits: 0 })) });
    args.push(ArgDesc { name: "giaddr", typ: ArgDecl::Optional(ValDef::Ip4(Ip4Addr { bits: 0 })) });
    args.push(ArgDesc { name: "chaddr", typ: ArgDecl::Optional(ValDef::Type(ValType::Str)) });
    args.push(ArgDesc { name: "sname", typ: ArgDecl::Optional(ValDef::Type(ValType::Str)) });
    args.push(ArgDesc { name: "file", typ: ArgDecl::Optional(ValDef::Type(ValType::Str)) });
    args.push(ArgDesc { name: "magic", typ: ArgDecl::Optional(ValDef::U32(DHCP_MAGIC)) });
    FuncDef {
        name: "hdr",
        return_type: ValType::Str,
        args,
        min_args: 0,
        collect_type: ValType::Void,
        body: FuncId::DhcpHdr,
    }
}

/// The fixed 240-byte header from its fields.
pub fn hdr_exec(args: &mut Args) -> (r: Result<Val, Error>) {
    let opcode = args.next().as_u8();
    let htype = args.next().as_u8();
    let hlen = args.next().as_u8();
    let hops = args.next().as_u8();
    let xid = args.next().as_u32();
    let ciaddr = args.next().as_ip4();
    let yiaddr = args.next().as_ip4();
    let siaddr = args.next().as_ip4();
    let giaddr = args.next().as_ip4();
    let chaddr = args.next().as_opt_buf();
    let sname = args.next().as_opt_buf();
    let file = args.next().as_opt_buf();
    let magic = args.next().as_u32();
    let mut hdr = Dhcp::default().op(opcode).htype(htype).hlen(hlen).hops(hops).xid(xid).ciaddr(
        ciaddr.to_u32(),
    ).yiaddr(yiaddr.to_u32()).siaddr(siaddr.to_u32()).giaddr(giaddr.to_u32()).magic(magic);
    if let Some(ch) = chaddr {
        hdr = hdr.chaddr(ch.as_slice());
    }
    if let Some(sv) = sname {
        hdr = hdr.sname(sv.as_slice());
    }
    if let Some(f) = file {
        hdr = hdr.file(f.as_slice());
    }
    Ok(Val::Str(Buf::from_vec(hdr.into_vec())))
}

pub fn option_def() -> (r: FuncDef)
    ensures
        r.body == FuncId::DhcpOption,
{
    let mut args: Vec<ArgDesc> = Vec::new();
    args.push(ArgDesc { name: "opt", typ: ArgDecl::Positional(ValType::U8) });
    FuncDef {
        name: "option",
        return_type: ValType::Str,
        args,
        min_args: 1,
        collect_type: ValType::Str,
        body: FuncId::DhcpOption,
    }
}

/// One option: code, payload length, payload.
pub fn option_exec(args: &mut Args) -> (r: Result<Val, Error>) {
    let opt = args.next().as_u8();
    let sep: Vec<u8> = Vec::new();
    let data = args.join_extra(sep.as_slice()).as_buf();
    if data.len() > 255 {
        return Err(Error::RuntimeError);
    }
    Ok(Val::Str(Buf::from_vec(dhcp_opt::create(opt, data.as_slice()))))
}

/// The resolution model of this table.
pub open spec fn opcode_module_model() -> Seq<(Seq<char>, crate::sym::SymKind)> {
    seq![
        ("REQUEST"@, crate::sym::SymKind::ValU8(1)),
        ("REPLY"@, crate::sym::SymKind::ValU8(2)),
    ]
}

pub fn opcode_module() -> (r: Module)
    ensures
        forall|n: Seq<char>|
            crate::libapi::lookup_matches(
                #[trigger] crate::libapi::table_lookup(r.symtab@, n),
                crate::libapi::model_lookup(opcode_module_model(), n),
            ),
{
    let mut symtab: Vec<SymDesc> = Vec::new();
    symtab.push(SymDesc { name: "REQUEST", sym: Symbol::u8(1) });
    symtab.push(SymDesc { name: "REPLY", sym: Symbol::u8(2) });
    let r = Module { name: "opcode", symtab };
    proof {
        let m = opcode_module_model();
        assert(r.symtab@.len() == m.len());
        assert forall|i: int|
            0 <= i < r.symtab@.len() implies (#[trigger] r.symtab@[i]).name@ == m[i].0
            && crate::sym::kind_of(r.symtab@[i].sym) == m[i].1 by {
        }
        crate::libapi::lemma_table_model(r.symtab@, m);
    }
    r
}

/// The resolution model of this table.
pub open spec fn msgtype_module_model() -> Seq<(Seq<char>, crate::sym::SymKind)> {
    seq![
        ("DISCOVER"@, crate::sym::SymKind::ValU8(1)),
        ("OFFER"@, crate::sym::SymKind::ValU8(2)),
        ("REQUEST"@, crate::sym::SymKind::ValU8(3)),
        ("DECLINE"@, crate::sym::SymKind::ValU8(4)),
        ("ACK"@, crate::sym::SymKind::ValU8(5)),
        ("NACK"@, crate::sym::SymKind::ValU8(6)),
        ("RELEASE"@, crate::sym::SymKind::ValU8(7)),
        ("INFORM"@, crate::sym::SymKind::ValU8(8)),
    ]
}

pub fn msgtype_module() -> (r: Module)
    ensures
        forall|n: Seq<char>|
            crate::libapi::lookup_matches(
                #[trigger] crate::libapi::table_lookup(r.symtab@, n),
                crate::libapi::model_lookup(msgtype_module_model(), n),
            ),
{
    let mut symtab: Vec<SymDesc> = Vec::new();
    symtab.push(SymDesc { name: "DISCOVER", sym: Symbol::u8(1) });
    symtab.push(SymDesc { name: "OFFER", sym: Symbol::u8(2) });
    symtab.push(SymDesc { name: "REQUEST", sym: Symbol::u8(3) });
    symtab.push(SymDesc { name: "DECLINE", sym: Symbol::u8(4) });
    symtab.push(SymDesc { name: "ACK", sym: Symbol::u8(5) });
    symtab.push(SymDesc { name: "NACK", sym: Symbol::u8(6) });
    symtab.push(SymDesc { name: "RELEASE", sym: Symbol::u8(7) });
    symtab.push(SymDesc { name: "INFORM", sym: Symbol::u8(8) });
    let r = Module { name: "msgtype", symtab };
    proof {
        let m = msgtype_module_model();
        assert(r.symtab@.len() == m.len());
        assert forall|i: int|
            0 <= i < r.symtab@.len() implies (#[trigger] r.symtab@[i]).name@ == m[i].0
            && crate::sym::kind_of(r.symtab@[i].sym) == m[i].1 by {
        }
        crate::libapi::lemma_table_model(r.symtab@, m);
    }
    r
}

/// The resolution model of this table.
pub open spec fn opt_module_model() -> Seq<(Seq<char>, crate::sym::SymKind)> {
    seq![
        ("PADDING"@, crate::sym::SymKind::ValU8(0)),
        ("SUBNET_MASK"@, crate::sym::SymKind::ValU8(1)),
        ("CLIENT_HOSTNAME"@, crate::sym::SymKind::ValU8(12)),
        ("VENDOR_SPECIFIC"@, crate::sym::SymKind::ValU8(43)),
        ("REQUESTED_ADDRESS"@, crate::sym::SymKind::ValU8(50)),
        ("ADDRESS_LEASE_TIME"@, crate::sym::SymKind::ValU8(51)),
        ("MESSAGE_TYPE"@, crate::sym::SymKind::ValU8(53)),
        ("SERVER_ID"@, crate::sym::SymKind::ValU8(54)),
        ("PARAM_REQUEST_LIST"@, crate::sym::SymKind::ValU8(55)),
        ("MAX_MESSAGE_SIZE"@, crate::sym::SymKind::ValU8(57)),
        ("RENEWAL_TIME"@, crate::sym::SymKind::ValU8(58)),
        ("REBINDING_TIME"@, crate::sym::SymKind::ValU8(59)),
        ("VENDOR_CLASS_ID"@, crate::sym::SymKind::ValU8(60)),
        ("CLIENT_ID"@, crate::sym::SymKind::ValU8(61)),
        ("CLIENT_FQDN"@, crate::sym::SymKind::ValU8(81)),
        ("END"@, crate::sym::SymKind::ValU8(0xff)),
    ]
}

pub fn opt_module() -> (r: Module)
    ensures
        forall|n: Seq<char>|
            crate::libapi::lookup_matches(
                #[trigger] crate::libapi::table_lookup(r.symtab@, n),
                crate::libapi::model_lookup(opt_module_model(), n),
            ),
{
    let mut symtab: Vec<SymDesc> = Vec::new();
    symtab.push(SymDesc { name: "PADDING", sym: Symbol::u8(0) });
    symtab.push(SymDesc { name: "SUBNET_MASK", sym: Symbol::u8(1) });
    symtab.push(SymDesc { name: "CLIENT_HOSTNAME", sym: Symbol::u8(12) });
    symtab.push(SymDesc { name: "VENDOR_SPECIFIC", sym: Symbol::u8(43) });
    symtab.push(SymDesc { name: "REQUESTED_ADDRESS", sym: Symbol::u8(50) });
    symtab.push(SymDesc { name: "ADDRESS_LEASE_TIME", sym: Symbol::u8(51) });
    symtab.push(SymDesc { name: "MESSAGE_TYPE", sym: Symbol::u8(53) });
    symtab.push(SymDesc { name: "SERVER_ID", sym: Symbol::u8(54) });
    symtab.push(SymDesc { name: "PARAM_REQUEST_LIST", sym: Symbol::u8(55) });
    symtab.push(SymDesc { name: "MAX_MESSAGE_SIZE", sym: Symbol::u8(57) });
    symtab.push(SymDesc { name: "RENEWAL_TIME", sym: Symbol::u8(58) });
    symtab.push(SymDesc { name: "REBINDING_TIME", sym: Symbol::u8(59) });
    symtab.push(SymDesc { name: "VENDOR_CLASS_ID", sym: Symbol::u8(60) });
    symtab.push(SymDesc { name: "CLIENT_ID", sym: Symbol::u8(61) });
    symtab.push(SymDesc { name: "CLIENT_FQDN", sym: Symbol::u8(81) });
    symtab.push(SymDesc { name: "END", sym: Symbol::u8(0xff) });
    let r = Module { name: "opt", symtab };
    proof {
        let m = opt_module_model();
        assert(r.symtab@.len() == m.len());
        assert forall|i: int|
            0 <= i < r.symtab@.len() implies (#[trigger] r.symtab@[i]).name@ == m[i].0
            && crate::sym::kind_of(r.symtab@[i].sym) == m[i].1 by {
        }
        crate::libapi::lemma_table_model(r.symtab@, m);
    }
    r
}

/// The resolution model of this table.
pub open spec fn module_def_model() -> Seq<(Seq<char>, crate::sym::SymKind)> {
    seq![
        ("CLIENT_PORT"@, crate::sym::SymKind::ValU16(68)),
        ("SERVER_PORT"@, crate::sym::SymKind::ValU16(67)),
        ("opcode"@, crate::sym::SymKind::Module(crate::stdlib::ModuleId::DhcpOpcode)),
        ("msgtype"@, crate::sym::SymKind::Module(crate::stdlib::ModuleId::DhcpMsgtype)),
        ("opt"@, crate::sym::SymKind::Module(crate::stdlib::ModuleId::DhcpOpt)),
        ("hdr"@, crate::sym::SymKind::Func(crate::stdlib::FuncId::DhcpHdr)),
        ("option"@, crate::sym::SymKind::Func(crate::stdlib::FuncId::DhcpOption)),
    ]
}

pub fn module_def() -> (r: Module)
    ensures
        forall|n: Seq<char>|
            crate::libapi::lookup_matches(
                #[trigger] crate::libapi::table_lookup(r.symtab@, n),
                crate::libapi::model_lookup(module_def_model(), n),
            ),
{
    let mut symtab: Vec<SymDesc> = Vec::new();
    symtab.push(SymDesc { name: "CLIENT_PORT", sym: Symbol::u16(68) });
    symtab.push(SymDesc { name: "SERVER_PORT", sym: Symbol::u16(67) });
    symtab.push(SymDesc { name: "opcode", sym: Symbol::Module(ModuleId::DhcpOpcode) });
    symtab.push(SymDesc { name: "msgtype", sym: Symbol::Module(ModuleId::DhcpMsgtype) });
    symtab.push(SymDesc { name: "opt", sym: Symbol::Module(ModuleId::DhcpOpt) });
    symtab.push(SymDesc { name: "hdr", sym: Symbol::Func(FuncId::DhcpHdr) });
    symtab.push(SymDesc { name: "option", sym: Symbol::Func(FuncId::DhcpOption) });
    let r = Module { name: "dhcp", symtab };
    proof {
        let m = module_def_model();
        assert(r.symtab@.len() == m.len());
        assert forall|i: int|
            0 <= i < r.symtab@.len() implies (#[trigger] r.symtab@[i]).name@ == m[i].0
            && crate::sym::kind_of(r.symtab@[i].sym) == m[i].1 by {
        }
        crate::libapi::lemma_table_model(r.symtab@, m);
    }
    r
}

} // verus!
