use vstd::prelude::*;
use crate::args::Args;
use crate::err::Error;
use crate::ezpkt::{UdpDgram, UdpFlow};
use crate::libapi::{ArgDecl, ArgDesc, ClassDef, FuncDef, Module, SymDesc};
use crate::object::ObjRef;
use crate::pkt::ipv4::udp_hdr;
use crate::pkt::Serialize;
use crate::stdlib::{ClassId, FuncId};
use crate::strbuf::Buf;
use crate::sym::Symbol;
use crate::val::{Val, ValDef, ValType};

verus! {

pub fn broadcast_def() -> (r: FuncDef)
    ensures
        r.body == FuncId::UdpBroadcast,
{
    let mut args: Vec<ArgDesc> = Vec::new();
    args.push(ArgDesc { name: "src", typ: ArgDecl::Positional(ValType::Sock4) });
    args.push(ArgDesc { name: "dst", typ: ArgDecl::Positional(ValType::Sock4) });
    args.push(ArgDesc { name: "srcip", typ: ArgDecl::Optional(ValDef::Type(ValType::Ip4)) });
    args.push(ArgDesc { name: "raw", typ: ArgDecl::Optional(ValDef::Bool(false)) });
    FuncDef {
        name: "broadcast",
        return_type: ValType::Pkt,
        args,
        min_args: 2,
        collect_type: ValType::Str,
        body: FuncId::UdpBroadcast,
    }
}

/// The contract of `broadcast_exec`, stated over the arguments before
/// the call and the state after it.
pub open spec fn broadcast_exec_post(pre: Args, post: Args, r: Result<Val, Error>) -> bool {
    &&& (({
            let src = crate::val::sock4_of(crate::args::arg_at(pre.args@, 0));
            let dst = crate::val::sock4_of(crate::args::arg_at(pre.args@, 1));
            let srcv = crate::args::arg_at(pre.args@, 2);
            let raw = crate::val::bool_of(crate::args::arg_at(pre.args@, 3));
            let payload = crate::args::join_spec(pre.extra@, Seq::<u8>::empty());
            let saddr = if srcv matches Val::Ip4(_) || srcv.spec_is_integral() {
                crate::val::ip4_of(srcv).bits
            } else {
                src.ip.bits
            };
            &&& (payload.len() > 0xffff - 28 ==> r == Err::<Val, Error>(Error::RuntimeError))
            &&& (payload.len() <= 0xffff - 28 ==> (r matches Ok(v) && v matches Val::Pkt(p)
                && p.content() == crate::ezpkt::udp4::udp_packet_content(
                src,
                dst,
                raw,
                true,
                saddr,
                payload,
            )))
        }))
}

/// A broadcast datagram; the hardware destination is all-ones, the IP
/// source may be overridden.
pub fn broadcast_exec(args: &mut Args) -> (r: Result<Val, Error>)
    requires
        old(args).cursor == 0,
    ensures
        broadcast_exec_post(*old(args), *final(args), r),
{
    let src = args.next().as_sock4();
    let dst = args.next().as_sock4();
    let srcip = args.next().as_opt_ip4();
    let raw = args.next().as_bool();
    let sep: Vec<u8> = Vec::new();
    let buf = args.join_extra(sep.as_slice()).as_buf();
    if buf.len() > 0xffff - 28 {
        return Err(Error::RuntimeError);
    }
    let mut dgram = UdpDgram::with_capacity(buf.len(), raw).src(src).dst(dst).broadcast().push(
        buf.as_slice(),
    );
    if let Some(sip) = srcip {
        dgram = dgram.srcip(sip);
    }
    proof {
        dgram.lemma_content();
        assert(dgram.content_spec() =~= crate::ezpkt::udp4::udp_packet_content(
            src,
            dst,
            raw,
            true,
            dgram.ip.saddr,
            buf@,
        ));
    }
    Ok(Val::Pkt(dgram.into_packet()))
}

pub fn unicast_def() -> (r: FuncDef)
    ensures
        r.body == FuncId::UdpUnicast,
{
    let mut args: Vec<ArgDesc> = Vec::new();
    args.push(ArgDesc { name: "src", typ: ArgDecl::Positional(ValType::Sock4) });
    args.push(ArgDesc { name: "dst", typ: ArgDecl::Positional(ValType::Sock4) });
    args.push(ArgDesc { name: "raw", typ: ArgDecl::Optional(ValDef::Bool(false)) });
    FuncDef {
        name: "unicast",
        return_type: ValType::Pkt,
        args,
        min_args: 2,
        collect_type: ValType::Str,
        body: FuncId::UdpUnicast,
    }
}

/// The contract of `unicast_exec`, stated over the arguments before
/// the call and the state after it.
pub open spec fn unicast_exec_post(pre: Args, post: Args, r: Result<Val, Error>) -> bool {
    &&& (({
            let src = crate::val::sock4_of(crate::args::arg_at(pre.args@, 0));
            let dst = crate::val::sock4_of(crate::args::arg_at(pre.args@, 1));
            let raw = crate::val::bool_of(crate::args::arg_at(pre.args@, 2));
            let payload = crate::args::join_spec(pre.extra@, Seq::<u8>::empty());
            &&& (payload.len() > 0xffff - 28 ==> r == Err::<Val, Error>(Error::RuntimeError))
            &&& (payload.len() <= 0xffff - 28 ==> (r matches Ok(v) && v matches Val::Pkt(p)
                && p.content() == crate::ezpkt::udp4::udp_packet_content(
                src,
                dst,
                raw,
                false,
                src.ip.bits,
                payload,
            )))
        }))
}

/// One addressed datagram carrying the joined tail.
pub fn unicast_exec(args: &mut Args) -> (r: Result<Val, Error>)
    requires
        old(args).cursor == 0,
    ensures
        unicast_exec_post(*old(args), *final(args), r),
{
    let src = args.next().as_sock4();
    let dst = args.next().as_sock4();
    let raw = args.next().as_bool();
    let sep: Vec<u8> = Vec::new();
    let buf = args.join_extra(sep.as_slice()).as_buf();
    if buf.len() > 0xffff - 28 {
        return Err(Error::RuntimeError);
    }
    let dgram = UdpDgram::with_capacity(buf.len(), raw).src(src).dst(dst).push(buf.as_slice());
    proof {
        dgram.lemma_content();
        assert(dgram.content_spec() =~= crate::ezpkt::udp4::udp_packet_content(
            src,
            dst,
            raw,
            false,
            src.ip.bits,
            buf@,
        ));
    }
    Ok(Val::Pkt(dgram.into_packet()))
}

pub fn hdr_def() -> (r: FuncDef)
    ensures
        r.body == FuncId::UdpHdr,
{
    let mut args: Vec<ArgDesc> = Vec::new();
    args.push(ArgDesc { name: "src", typ: ArgDecl::Positional(ValType::U16) });
    args.push(ArgDesc { name: "dst", typ: ArgDecl::Positional(ValType::U16) });
    args.push(ArgDesc { name: "len", typ: ArgDecl::Optional(ValDef::U16(0)) });
    args.push(ArgDesc { name: "csum", typ: ArgDecl::Optional(ValDef::U16(0)) });
    FuncDef {
        name: "hdr",
        return_type: ValType::Str,
        args,
        min_args: 2,
        collect_type: ValType::Void,
        body: FuncId::UdpHdr,
    }
}

/// The contract of `hdr_exec`, stated over the arguments before
/// the call and the state after it.
pub open spec fn hdr_exec_post(pre: Args, post: Args, r: Result<Val, Error>) -> bool {
    &&& (({
            let src = crate::args::arg_at(pre.args@, 0).spec_int_val() as u16;
            let dst = crate::args::arg_at(pre.args@, 1).spec_int_val() as u16;
            let len = crate::args::arg_at(pre.args@, 2).spec_int_val() as u16;
            let csum = crate::args::arg_at(pre.args@, 3).spec_int_val() as u16;
            &&& (len > 0xffff - 8 ==> r == Err::<Val, Error>(Error::RuntimeError))
            &&& (len <= 0xffff - 8 ==> (r matches Ok(v) && v matches Val::Str(b) && b@ == (
            udp_hdr { sport: src, dport: dst, len: (len + 8) as u16, csum }).wire()))
        }))
}

/// A bare UDP header; `len` is the payload length, the stored length
/// adds the header's own eight bytes.
pub fn hdr_exec(args: &mut Args) -> (r: Result<Val, Error>)
    requires
        old(args).cursor == 0,
    ensures
        hdr_exec_post(*old(args), *final(args), r),
{
    let src = args.next().as_u16();
    let dst = args.next().as_u16();
    let len = args.next().as_u16();
    let csum = args.next().as_u16();
    if len > 0xffff - 8 {
        return Err(Error::RuntimeError);
    }
    let hdr = udp_hdr { sport: src, dport: dst, len: len + 8, csum };
    Ok(Val::Str(Buf::from_vec(hdr.write_bytes())))
}

pub fn flow_def() -> (r: FuncDef)
    ensures
        r.body == FuncId::UdpFlowFn,
{
    let mut args: Vec<ArgDesc> = Vec::new();
    args.push(ArgDesc { name: "cl", typ: ArgDecl::Positional(ValType::Sock4) });
    args.push(ArgDesc { name: "sv", typ: ArgDecl::Positional(ValType::Sock4) });
    args.push(ArgDesc { name: "raw", typ: ArgDecl::Optional(ValDef::Bool(false)) });
    FuncDef {
        name: "flow",
        return_type: ValType::Obj,
        args,
        min_args: 2,
        collect_type: ValType::Void,
        body: FuncId::UdpFlowFn,
    }
}

/// The contract of `flow_exec`, stated over the arguments before
/// the call and the state after it.
pub open spec fn flow_exec_post(pre: Args, post: Args, r: Result<Val, Error>) -> bool {
    &&& (r == Ok::<Val, Error>(Val::Obj(ObjRef::Udp(UdpFlow {
            cl: crate::val::sock4_of(crate::args::arg_at(pre.args@, 0)),
            sv: crate::val::sock4_of(crate::args::arg_at(pre.args@, 1)),
            raw: crate::val::bool_of(crate::args::arg_at(pre.args@, 2)),
        }))))
}

pub fn flow_exec(args: &mut Args) -> (r: Result<Val, Error>)
    requires
        old(args).cursor == 0,
    ensures
        flow_exec_post(*old(args), *final(args), r),
{
    let cl = args.next().as_sock4();
    let sv = args.next().as_sock4();
    let raw = args.next().as_bool();
    Ok(Val::Obj(ObjRef::Udp(UdpFlow::new(cl, sv, raw))))
}

fn dgram_method_def(name: &'static str, ret: ValType, id: FuncId) -> (r: FuncDef)
    ensures
        r.body == id,
{
    let mut args: Vec<ArgDesc> = Vec::new();
    args.push(ArgDesc { name: "frag_off", typ: ArgDecl::Optional(ValDef::U16(0)) });
    args.push(ArgDesc { name: "csum", typ: ArgDecl::Optional(ValDef::Bool(true)) });
    FuncDef {
        name,
        return_type: ret,
        args,
        min_args: 0,
        collect_type: ValType::Str,
        body: id,
    }
}

pub fn client_dgram_def() -> (r: FuncDef)
    ensures
        r.body == FuncId::UdpClientDgram,
{
    dgram_method_def("client_dgram", ValType::Pkt, FuncId::UdpClientDgram)
}

pub fn server_dgram_def() -> (r: FuncDef)
    ensures
        r.body == FuncId::UdpServerDgram,
{
    dgram_method_def("server_dgram", ValType::Pkt, FuncId::UdpServerDgram)
}

fn raw_dgram_method_def(name: &'static str, id: FuncId) -> (r: FuncDef)
    ensures
        r.body == id,
{
    let mut args: Vec<ArgDesc> = Vec::new();
    args.push(ArgDesc { name: "csum", typ: ArgDecl::Optional(ValDef::Bool(true)) });
    FuncDef {
        name,
        return_type: ValType::Str,
        args,
        min_args: 0,
        collect_type: ValType::Str,
        body: id,
    }
}

pub fn client_raw_dgram_def() -> (r: FuncDef)
    ensures
        r.body == FuncId::UdpClientRawDgram,
{
    raw_dgram_method_def("client_raw_dgram", FuncId::UdpClientRawDgram)
}

pub fn server_raw_dgram_def() -> (r: FuncDef)
    ensures
        r.body == FuncId::UdpServerRawDgram,
{
    raw_dgram_method_def("server_raw_dgram", FuncId::UdpServerRawDgram)
}

/// What one flow datagram call returns: an oversized tail is refused,
/// a receiver that is no UDP flow is a type error, and otherwise the
/// raw UDP bytes or the whole packet between the flow's endpoints in
/// the requested direction.
pub open spec fn flow_dgram_post(
    pre: Args,
    from_client: bool,
    raw_bytes: bool,
    with_frag: bool,
    r: Result<Val, Error>,
) -> bool {
    let frag_off = if with_frag {
        crate::args::arg_at(pre.args@, 0).spec_int_val() as u16
    } else {
        0u16
    };
    let csum = crate::val::bool_of(
        crate::args::arg_at(pre.args@, if with_frag { 1int } else { 0int }),
    );
    let payload = crate::args::join_spec(pre.extra@, Seq::<u8>::empty());
    &&& (payload.len() > 0xffff - 28 ==> r == Err::<Val, Error>(Error::RuntimeError))
    &&& (payload.len() <= 0xffff - 28 ==> match pre.this {
        Some(ObjRef::Udp(flow)) => {
            let src = if from_client {
                flow.cl
            } else {
                flow.sv
            };
            let dst = if from_client {
                flow.sv
            } else {
                flow.cl
            };
            if raw_bytes {
                (r matches Ok(v) && v matches Val::Str(b) && b@
                    == crate::ezpkt::udp4::udp_flow_udp_csummed(src, dst, payload, csum).wire()
                    + payload)
            } else {
                (r matches Ok(v) && v matches Val::Pkt(p) && p.content()
                    == crate::ezpkt::udp4::udp_flow_pkt_content(
                    src,
                    dst,
                    flow.raw,
                    frag_off,
                    csum,
                    payload,
                ))
            }
        },
        _ => r == Err::<Val, Error>(Error::TypeError),
    })
}

fn flow_dgram(args: &mut Args, from_client: bool, raw_bytes: bool, with_frag: bool) -> (r: Result<
    Val,
    Error,
>)
    requires
        old(args).cursor == 0,
    ensures
        flow_dgram_post(*old(args), from_client, raw_bytes, with_frag, r),
{
    let frag_off = if with_frag {
        args.next().as_u16()
    } else {
        0
    };
    let csum = args.next().as_bool();
    let sep: Vec<u8> = Vec::new();
    let bytes = args.join_extra(sep.as_slice()).as_buf();
    if bytes.len() > 0xffff - 28 {
        return Err(Error::RuntimeError);
    }
    match &mut args.this {
        Some(ObjRef::Udp(flow)) => {
            let ghost src = if from_client {
                flow.cl
            } else {
                flow.sv
            };
            let ghost dst = if from_client {
                flow.sv
            } else {
                flow.cl
            };
            let mut dgram: UdpDgram = if from_client {
                flow.client_dgram(bytes.as_slice())
            } else {
                flow.server_dgram(bytes.as_slice())
            };
            if with_frag {
                dgram = dgram.frag_off(frag_off);
            } else {
                proof {
                    let ip0 = crate::ezpkt::udp4::udp_flow_ip(src, dst, bytes@.len() as int);
                    let x = crate::pkt::ipv4::ip_hdr {
                        saddr: src.ip.bits,
                        daddr: dst.ip.bits,
                        tot_len: (28 + bytes@.len()) as u16,
                        protocol: crate::pkt::ipv4::PROTO_UDP,
                        ..crate::pkt::ipv4::ip_hdr::default_spec()
                    };
                    assert(ip0.zero_csum() == x.zero_csum());
                    assert(ip0.zero_csum().wire() == x.zero_csum().wire());
                    assert(ip0.csum == x.published_csum());
                    assert(ip0.published_csum() == x.published_csum());
                    assert(ip0.recalc() == ip0);
                    assert(ip0.frag_off == 0);
                    assert(0u16 | (0u16 & 0xe000u16) == 0u16) by (bit_vector);
                    assert((crate::pkt::ipv4::ip_hdr {
                        frag_off: (0u16 | (ip0.frag_off & 0xe000)) as u16,
                        ..ip0
                    }) == ip0);
                }
            }
            if csum {
                dgram = dgram.csum();
            }
            if raw_bytes {
                Ok(Val::Str(Buf::from_vec(dgram.into_udp_dgram())))
            } else {
                proof {
                    dgram.lemma_content();
                    assert(dgram.content_spec() =~= crate::ezpkt::udp4::udp_flow_pkt_content(
                        src,
                        dst,
                        dgram.eth is None,
                        if with_frag {
                            frag_off
                        } else {
                            0u16
                        },
                        csum,
                        bytes@,
                    ));
                }
                Ok(Val::Pkt(dgram.into_packet()))
            }
        },
        _ => Err(Error::TypeError),
    }
}

/// A datagram from client to server.
pub fn client_dgram_exec(args: &mut Args) -> (r: Result<Val, Error>)
    requires
        old(args).cursor == 0,
    ensures
        flow_dgram_post(*old(args), true, false, true, r),
{
    flow_dgram(args, true, false, true)
}

/// A datagram from server to client.
pub fn server_dgram_exec(args: &mut Args) -> (r: Result<Val, Error>)
    requires
        old(args).cursor == 0,
    ensures
        flow_dgram_post(*old(args), false, false, true, r),
{
    flow_dgram(args, false, false, true)
}

/// A datagram from client to server, minus the frame and IP header.
pub fn client_raw_dgram_exec(args: &mut Args) -> (r: Result<Val, Error>)
    requires
        old(args).cursor == 0,
    ensures
        flow_dgram_post(*old(args), true, true, false, r),
{
    flow_dgram(args, true, true, false)
}

/// A datagram from server to client, minus the frame and IP header.
pub fn server_raw_dgram_exec(args: &mut Args) -> (r: Result<Val, Error>)
    requires
        old(args).cursor == 0,
    ensures
        flow_dgram_post(*old(args), false, true, false, r),
{
    flow_dgram(args, false, true, false)
}

/// The resolution model of this table.
pub open spec fn class_def_udpflow_model() -> Seq<(Seq<char>, crate::sym::SymKind)> {
    seq![
        ("client_dgram"@, crate::sym::SymKind::Func(crate::stdlib::FuncId::UdpClientDgram)),
        ("server_dgram"@, crate::sym::SymKind::Func(crate::stdlib::FuncId::UdpServerDgram)),
        ("client_raw_dgram"@, crate::sym::SymKind::Func(crate::stdlib::FuncId::UdpClientRawDgram)),
        ("server_raw_dgram"@, crate::sym::SymKind::Func(crate::stdlib::FuncId::UdpServerRawDgram)),
    ]
}

pub fn class_def_udpflow() -> (r: ClassDef)
    ensures
        forall|n: Seq<char>|
            crate::libapi::lookup_matches(
                #[trigger] crate::libapi::table_lookup(r.symtab@, n),
                crate::libapi::model_lookup(class_def_udpflow_model(), n),
            ),
{
    let mut symtab: Vec<SymDesc> = Vec::new();
    symtab.push(SymDesc { name: "client_dgram", sym: Symbol::Func(FuncId::UdpClientDgram) });
    symtab.push(SymDesc { name: "server_dgram", sym: Symbol::Func(FuncId::UdpServerDgram) });
    symtab.push(
        SymDesc { name: "client_raw_dgram", sym: Symbol::Func(FuncId::UdpClientRawDgram) },
    );
    symtab.push(
        SymDesc { name: "server_raw_dgram", sym: Symbol::Func(FuncId::UdpServerRawDgram) },
    );
    let r = ClassDef { name: "UdpFlow", symtab };
    proof {
        let m = class_def_udpflow_model();
        assert(r.symtab@.len() == m.len());
        assert forall|i: int|
            0 <= i < r.symtab@.len() implies (#[trigger] r.symtab@[i]).name@ == m[i].0
            && crate::sym::kind_of(r.symtab@[i].sym) == m[i].1 by {
        }
        crate::libapi::lemma_table_model(r.symtab@, m);
    }
    r
}

/// The resolution model of this table.
pub open spec fn module_def_model() -> Seq<(Seq<char>, crate::sym::SymKind)> {
    seq![
        ("UdpFlow"@, crate::sym::SymKind::Class(crate::stdlib::ClassId::UdpFlow)),
        ("flow"@, crate::sym::SymKind::Func(crate::stdlib::FuncId::UdpFlowFn)),
        ("broadcast"@, crate::sym::SymKind::Func(crate::stdlib::FuncId::UdpBroadcast)),
        ("unicast"@, crate::sym::SymKind::Func(crate::stdlib::FuncId::UdpUnicast)),
        ("hdr"@, crate::sym::SymKind::Func(crate::stdlib::FuncId::UdpHdr)),
    ]
}

pub fn module_def() -> (r: Module)
    ensures
        forall|n: Seq<char>|
            crate::libapi::lookup_matches(
                #[trigger] crate::libapi::table_lookup(r.symtab@, n),
                crate::libapi::model_lookup(module_def_model(), n),
            ),
{
    let mut symtab: Vec<SymDesc> = Vec::new();
    symtab.push(SymDesc { name: "UdpFlow", sym: Symbol::Class(ClassId::UdpFlow) });
    symtab.push(SymDesc { name: "flow", sym: Symbol::Func(FuncId::UdpFlowFn) });
    symtab.push(SymDesc { name: "broadcast", sym: Symbol::Func(FuncId::UdpBroadcast) });
    symtab.push(SymDesc { name: "unicast", sym: Symbol::Func(FuncId::UdpUnicast) });
    symtab.push(SymDesc { name: "hdr", sym: Symbol::Func(FuncId::UdpHdr) });
    let r = Module { name: "udp", symtab };
    proof {
        let m = module_def_model();
        assert(r.symtab@.len() == m.len());
        assert forall|i: int|
            0 <= i < r.symtab@.len() implies (#[trigger] r.symtab@[i]).name@ == m[i].0
            && crate::sym::kind_of(r.symtab@[i].sym) == m[i].1 by {
        }
        crate::libapi::lemma_table_model(r.symtab@, m);
    }
    r
}

} // verus!
