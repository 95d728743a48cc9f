use vstd::prelude::*;
use crate::args::Args;
use crate::err::Error;
use crate::ezpkt::TcpFlow;
use crate::libapi::{ArgDecl, ArgDesc, ClassDef, FuncDef, Module, SymDesc};
use crate::object::ObjRef;
use crate::stdlib::{ClassId, FuncId};
use crate::strbuf::Buf;
use crate::sym::Symbol;
use crate::val::{Val, ValDef, ValType};

verus! {

fn noarg_def(name: &'static str, ret: ValType, id: FuncId) -> (r: FuncDef)
    ensures
        r.body == id,
{
    let args: Vec<ArgDesc> = Vec::new();
    FuncDef {
        name,
        return_type: ret,
        args,
        min_args: 0,
        collect_type: ValType::Void,
        body: id,
    }
}

fn seq_ack_def(name: &'static str, ret: ValType, collect: ValType, id: FuncId) -> (r: FuncDef)
    ensures
        r.body == id,
{
    let mut args: Vec<ArgDesc> = Vec::new();
    args.push(ArgDesc { name: "seq", typ: ArgDecl::Optional(ValDef::Type(ValType::U32)) });
    args.push(ArgDesc { name: "ack", typ: ArgDecl::Optional(ValDef::Type(ValType::U32)) });
    FuncDef {
        name,
        return_type: ret,
        args,
        min_args: 0,
        collect_type: collect,
        body: id,
    }
}

fn msg_def(name: &'static str, id: FuncId) -> (r: FuncDef)
    ensures
        r.body == id,
{
    let mut args: Vec<ArgDesc> = Vec::new();
    args.push(ArgDesc { name: "send_ack", typ: ArgDecl::Optional(ValDef::Bool(true)) });
    args.push(ArgDesc { name: "seq", typ: ArgDecl::Optional(ValDef::Type(ValType::U32)) });
    args.push(ArgDesc { name: "ack", typ: ArgDecl::Optional(ValDef::Type(ValType::U32)) });
    args.push(ArgDesc { name: "frag_off", typ: ArgDecl::Optional(ValDef::U16(0)) });
    FuncDef {
        name,
        return_type: ValType::PktGen,
        args,
        min_args: 0,
        collect_type: ValType::Str,
        body: id,
    }
}

fn hole_def(name: &'static str, id: FuncId) -> (r: FuncDef)
    ensures
        r.body == id,
{
    let mut args: Vec<ArgDesc> = Vec::new();
    args.push(ArgDesc { name: "bytes", typ: ArgDecl::Positional(ValType::U32) });
    FuncDef {
        name,
        return_type: ValType::Void,
        args,
        min_args: 1,
        collect_type: ValType::Void,
        body: id,
    }
}

fn hdr_def(name: &'static str, id: FuncId) -> (r: FuncDef)
    ensures
        r.body == id,
{
    let mut args: Vec<ArgDesc> = Vec::new();
    args.push(ArgDesc { name: "bytes", typ: ArgDecl::Optional(ValDef::U32(0)) });
    FuncDef {
        name,
        return_type: ValType::Str,
        args,
        min_args: 0,
        collect_type: ValType::Void,
        body: id,
    }
}

pub fn open_def() -> (r: FuncDef)
    ensures
        r.body == FuncId::TcpOpen,
{
    noarg_def("open", ValType::PktGen, FuncId::TcpOpen)
}

pub fn client_message_def() -> (r: FuncDef)
    ensures
        r.body == FuncId::TcpClientMessage,
{
    msg_def("client_message", FuncId::TcpClientMessage)
}

pub fn server_message_def() -> (r: FuncDef)
    ensures
        r.body == FuncId::TcpServerMessage,
{
    msg_def("server_message", FuncId::TcpServerMessage)
}

pub fn client_segment_def() -> (r: FuncDef)
    ensures
        r.body == FuncId::TcpClientSegment,
{
    seq_ack_def("client_segment", ValType::Pkt, ValType::Str, FuncId::TcpClientSegment)
}

pub fn server_segment_def() -> (r: FuncDef)
    ensures
        r.body == FuncId::TcpServerSegment,
{
    seq_ack_def("server_segment", ValType::Pkt, ValType::Str, FuncId::TcpServerSegment)
}

pub fn client_raw_segment_def() -> (r: FuncDef)
    ensures
        r.body == FuncId::TcpClientRawSegment,
{
    seq_ack_def("client_raw_segment", ValType::Str, ValType::Str, FuncId::TcpClientRawSegment)
}

pub fn server_raw_segment_def() -> (r: FuncDef)
    ensures
        r.body == FuncId::TcpServerRawSegment,
{
    seq_ack_def("server_raw_segment", ValType::Str, ValType::Str, FuncId::TcpServerRawSegment)
}

pub fn client_hdr_def() -> (r: FuncDef)
    ensures
        r.body == FuncId::TcpClientHdr,
{
    hdr_def("client_hdr", FuncId::TcpClientHdr)
}

pub fn server_hdr_def() -> (r: FuncDef)
    ensures
        r.body == FuncId::TcpServerHdr,
{
    hdr_def("server_hdr", FuncId::TcpServerHdr)
}

pub fn client_ack_def() -> (r: FuncDef)
    ensures
        r.body == FuncId::TcpClientAck,
{
    seq_ack_def("client_ack", ValType::Pkt, ValType::Void, FuncId::TcpClientAck)
}

pub fn server_ack_def() -> (r: FuncDef)
    ensures
        r.body == FuncId::TcpServerAck,
{
    seq_ack_def("server_ack", ValType::Pkt, ValType::Void, FuncId::TcpServerAck)
}

pub fn client_hole_def() -> (r: FuncDef)
    ensures
        r.body == FuncId::TcpClientHole,
{
    hole_def("client_hole", FuncId::TcpClientHole)
}

pub fn server_hole_def() -> (r: FuncDef)
    ensures
        r.body == FuncId::TcpServerHole,
{
    hole_def("server_hole", FuncId::TcpServerHole)
}

pub fn client_close_def() -> (r: FuncDef)
    ensures
        r.body == FuncId::TcpClientClose,
{
    noarg_def("client_close", ValType::PktGen, FuncId::TcpClientClose)
}

pub fn server_close_def() -> (r: FuncDef)
    ensures
        r.body == FuncId::TcpServerClose,
{
    noarg_def("server_close", ValType::PktGen, FuncId::TcpServerClose)
}

pub fn client_reset_def() -> (r: FuncDef)
    ensures
        r.body == FuncId::TcpClientReset,
{
    noarg_def("client_reset", ValType::Pkt, FuncId::TcpClientReset)
}

pub fn server_reset_def() -> (r: FuncDef)
    ensures
        r.body == FuncId::TcpServerReset,
{
    noarg_def("server_reset", ValType::Pkt, FuncId::TcpServerReset)
}

pub fn flow_def() -> (r: FuncDef)
    ensures
        r.body == FuncId::TcpFlowFn,
{
    let mut args: Vec<ArgDesc> = Vec::new();
    args.push(ArgDesc { name: "cl", typ: ArgDecl::Positional(ValType::Sock4) });
    args.push(ArgDesc { name: "sv", typ: ArgDecl::Positional(ValType::Sock4) });
    args.push(ArgDesc { name: "cl_seq", typ: ArgDecl::Optional(ValDef::U32(1)) });
    args.push(ArgDesc { name: "sv_seq", typ: ArgDecl::Optional(ValDef::U32(1)) });
    args.push(ArgDesc { name: "raw", typ: ArgDecl::Optional(ValDef::Bool(false)) });
    FuncDef {
        name: "flow",
        return_type: ValType::Obj,
        args,
        min_args: 2,
        collect_type: ValType::Void,
        body: FuncId::TcpFlowFn,
    }
}

pub fn flow_exec(args: &mut Args) -> (r: Result<Val, Error>) {
    let cl = args.next().as_sock4();
    let sv = args.next().as_sock4();
    let cl_seq = args.next().as_u32();
    let sv_seq = args.next().as_u32();
    let raw = args.next().as_bool();
    Ok(Val::Obj(ObjRef::Tcp(TcpFlow::new(cl, sv, cl_seq, sv_seq, raw))))
}

/// The contract of `open_exec`, stated over the arguments before
/// the call and the state after it.
pub open spec fn open_exec_post(pre: Args, post: Args, r: Result<Val, Error>) -> bool {
    &&& (!(pre.this matches Some(ObjRef::Tcp(_))) ==> r == Err::<Val, Error>(
            Error::TypeError,
        ) && post == pre)
    &&& (pre.this matches Some(ObjRef::Tcp(flow)) ==> (r matches Ok(v) && v matches Val::PktGen(
            ps,
        ) && post.this matches Some(ObjRef::Tcp(flow2))
            && crate::ezpkt::tcp4::tcp_open_result(flow, flow2, ps@)) && post.args == pre.args && post.extra == pre.extra)
}

/// The three-way handshake of the receiving flow.
pub fn open_exec(args: &mut Args) -> (r: Result<Val, Error>)
    ensures
        open_exec_post(*old(args), *final(args), r),
{
    match &mut args.this {
        Some(ObjRef::Tcp(flow)) => Ok(Val::PktGen(flow.open())),
        _ => Err(Error::TypeError),
    }
}

fn message(args: &mut Args, from_client: bool) -> (r: Result<Val, Error>) {
    let send_ack = args.next().as_bool();
    let seq = args.next().as_opt_u32();
    let ack = args.next().as_opt_u32();
    let frag_off = args.next().as_u16();
    let sep: Vec<u8> = Vec::new();
    let bytes = args.join_extra(sep.as_slice()).as_buf();
    if bytes.len() > 0xffff - 40 {
        return Err(Error::RuntimeError);
    }
    match &mut args.this {
        Some(ObjRef::Tcp(flow)) => {
            let saved = flow.push_state(seq, ack);
            let pkts = if from_client {
                flow.client_message(bytes.as_slice(), send_ack, frag_off)
            } else {
                flow.server_message(bytes.as_slice(), send_ack, frag_off)
            };
            flow.pop_state(saved);
            Ok(Val::PktGen(pkts))
        },
        _ => Err(Error::TypeError),
    }
}

pub fn client_message_exec(args: &mut Args) -> (r: Result<Val, Error>) {
    message(args, true)
}

pub fn server_message_exec(args: &mut Args) -> (r: Result<Val, Error>) {
    message(args, false)
}

fn segment(args: &mut Args, from_client: bool, raw_bytes: bool) -> (r: Result<Val, Error>) {
    let seq = args.next().as_opt_u32();
    let ack = args.next().as_opt_u32();
    let sep: Vec<u8> = Vec::new();
    let bytes = args.join_extra(sep.as_slice()).as_buf();
    if bytes.len() > 0xffff - 40 {
        return Err(Error::RuntimeError);
    }
    match &mut args.this {
        Some(ObjRef::Tcp(flow)) => {
            let saved = flow.push_state(seq, ack);
            let seg = if from_client {
                flow.client_data_segment(bytes.as_slice())
            } else {
                flow.server_data_segment(bytes.as_slice())
            };
            flow.pop_state(saved);
            if raw_bytes {
                Ok(Val::Str(Buf::from_vec(seg.into_tcpseg())))
            } else {
                Ok(Val::Pkt(seg.into_packet()))
            }
        },
        _ => Err(Error::TypeError),
    }
}

pub fn client_segment_exec(args: &mut Args) -> (r: Result<Val, Error>) {
    segment(args, true, false)
}

pub fn server_segment_exec(args: &mut Args) -> (r: Result<Val, Error>) {
    segment(args, false, false)
}

pub fn client_raw_segment_exec(args: &mut Args) -> (r: Result<Val, Error>) {
    segment(args, true, true)
}

pub fn server_raw_segment_exec(args: &mut Args) -> (r: Result<Val, Error>) {
    segment(args, false, true)
}

fn hdr_exec(args: &mut Args, from_client: bool) -> (r: Result<Val, Error>) {
    let dlen = args.next().as_u32();
    match &mut args.this {
        Some(ObjRef::Tcp(flow)) => {
            let bytes = if from_client {
                flow.client_hdr(dlen)
            } else {
                flow.server_hdr(dlen)
            };
            Ok(Val::Str(Buf::from_vec(bytes)))
        },
        _ => Err(Error::TypeError),
    }
}

pub fn client_hdr_exec(args: &mut Args) -> (r: Result<Val, Error>) {
    hdr_exec(args, true)
}

pub fn server_hdr_exec(args: &mut Args) -> (r: Result<Val, Error>) {
    hdr_exec(args, false)
}

fn ack_exec(args: &mut Args, from_client: bool) -> (r: Result<Val, Error>) {
    let seq = args.next().as_opt_u32();
    let ack = args.next().as_opt_u32();
    match &mut args.this {
        Some(ObjRef::Tcp(flow)) => {
            let saved = flow.push_state(seq, ack);
            let seg = if from_client {
                flow.client_ack()
            } else {
                flow.server_ack()
            };
            flow.pop_state(saved);
            Ok(Val::Pkt(seg.into_packet()))
        },
        _ => Err(Error::TypeError),
    }
}

pub fn client_ack_exec(args: &mut Args) -> (r: Result<Val, Error>) {
    ack_exec(args, true)
}

pub fn server_ack_exec(args: &mut Args) -> (r: Result<Val, Error>) {
    ack_exec(args, false)
}

fn hole_exec(args: &mut Args, from_client: bool) -> (r: Result<Val, Error>) {
    let bytes = args.next().as_u32();
    match &mut args.this {
        Some(ObjRef::Tcp(flow)) => {
            if from_client {
                flow.client_hole(bytes);
            } else {
                flow.server_hole(bytes);
            }
            Ok(Val::Nil)
        },
        _ => Err(Error::TypeError),
    }
}

pub fn client_hole_exec(args: &mut Args) -> (r: Result<Val, Error>) {
    hole_exec(args, true)
}

pub fn server_hole_exec(args: &mut Args) -> (r: Result<Val, Error>) {
    hole_exec(args, false)
}

fn close_exec(args: &mut Args, from_client: bool) -> (r: Result<Val, Error>) {
    match &mut args.this {
        Some(ObjRef::Tcp(flow)) => {
            let pkts = if from_client {
                flow.client_close()
            } else {
                flow.server_close()
            };
            Ok(Val::PktGen(pkts))
        },
        _ => Err(Error::TypeError),
    }
}

pub fn client_close_exec(args: &mut Args) -> (r: Result<Val, Error>) {
    close_exec(args, true)
}

pub fn server_close_exec(args: &mut Args) -> (r: Result<Val, Error>) {
    close_exec(args, false)
}

fn reset_exec(args: &mut Args, from_client: bool) -> (r: Result<Val, Error>) {
    match &mut args.this {
        Some(ObjRef::Tcp(flow)) => {
            let seg = if from_client {
                flow.client_reset()
            } else {
                flow.server_reset()
            };
            Ok(Val::Pkt(seg.into_packet()))
        },
        _ => Err(Error::TypeError),
    }
}

pub fn client_reset_exec(args: &mut Args) -> (r: Result<Val, Error>) {
    reset_exec(args, true)
}

pub fn server_reset_exec(args: &mut Args) -> (r: Result<Val, Error>) {
    reset_exec(args, false)
}

/// The resolution model of this table.
pub open spec fn class_def_tcpflow_model() -> Seq<(Seq<char>, crate::sym::SymKind)> {
    seq![
        ("open"@, crate::sym::SymKind::Func(crate::stdlib::FuncId::TcpOpen)),
        ("client_message"@, crate::sym::SymKind::Func(crate::stdlib::FuncId::TcpClientMessage)),
        ("server_message"@, crate::sym::SymKind::Func(crate::stdlib::FuncId::TcpServerMessage)),
        ("client_segment"@, crate::sym::SymKind::Func(crate::stdlib::FuncId::TcpClientSegment)),
        ("server_segment"@, crate::sym::SymKind::Func(crate::stdlib::FuncId::TcpServerSegment)),
        ("client_raw_segment"@, crate::sym::SymKind::Func(crate::stdlib::FuncId::TcpClientRawSegment)),
        ("server_raw_segment"@, crate::sym::SymKind::Func(crate::stdlib::FuncId::TcpServerRawSegment)),
        ("client_hdr"@, crate::sym::SymKind::Func(crate::stdlib::FuncId::TcpClientHdr)),
        ("server_hdr"@, crate::sym::SymKind::Func(crate::stdlib::FuncId::TcpServerHdr)),
        ("client_ack"@, crate::sym::SymKind::Func(crate::stdlib::FuncId::TcpClientAck)),
        ("server_ack"@, crate::sym::SymKind::Func(crate::stdlib::FuncId::TcpServerAck)),
        ("client_hole"@, crate::sym::SymKind::Func(crate::stdlib::FuncId::TcpClientHole)),
        ("server_hole"@, crate::sym::SymKind::Func(crate::stdlib::FuncId::TcpServerHole)),
        ("client_close"@, crate::sym::SymKind::Func(crate::stdlib::FuncId::TcpClientClose)),
        ("server_close"@, crate::sym::SymKind::Func(crate::stdlib::FuncId::TcpServerClose)),
        ("client_reset"@, crate::sym::SymKind::Func(crate::stdlib::FuncId::TcpClientReset)),
        ("server_reset"@, crate::sym::SymKind::Func(crate::stdlib::FuncId::TcpServerReset)),
    ]
}

pub fn class_def_tcpflow() -> (r: ClassDef)
    ensures
        forall|n: Seq<char>|
            crate::libapi::lookup_matches(
                #[trigger] crate::libapi::table_lookup(r.symtab@, n),
                crate::libapi::model_lookup(class_def_tcpflow_model(), n),
            ),
{
    let mut symtab: Vec<SymDesc> = Vec::new();
    symtab.push(SymDesc { name: "open", sym: Symbol::Func(FuncId::TcpOpen) });
    symtab.push(SymDesc { name: "client_message", sym: Symbol::Func(FuncId::TcpClientMessage) });
    symtab.push(SymDesc { name: "server_message", sym: Symbol::Func(FuncId::TcpServerMessage) });
    symtab.push(SymDesc { name: "client_segment", sym: Symbol::Func(FuncId::TcpClientSegment) });
    symtab.push(SymDesc { name: "server_segment", sym: Symbol::Func(FuncId::TcpServerSegment) });
    symtab.push(
        SymDesc { name: "client_raw_segment", sym: Symbol::Func(FuncId::TcpClientRawSegment) },
    );
    symtab.push(
        SymDesc { name: "server_raw_segment", sym: Symbol::Func(FuncId::TcpServerRawSegment) },
    );
    symtab.push(SymDesc { name: "client_hdr", sym: Symbol::Func(FuncId::TcpClientHdr) });
    symtab.push(SymDesc { name: "server_hdr", sym: Symbol::Func(FuncId::TcpServerHdr) });
    symtab.push(SymDesc { name: "client_ack", sym: Symbol::Func(FuncId::TcpClientAck) });
    symtab.push(SymDesc { name: "server_ack", sym: Symbol::Func(FuncId::TcpServerAck) });
    symtab.push(SymDesc { name: "client_hole", sym: Symbol::Func(FuncId::TcpClientHole) });
    symtab.push(SymDesc { name: "server_hole", sym: Symbol::Func(FuncId::TcpServerHole) });
    symtab.push(SymDesc { name: "client_close", sym: Symbol::Func(FuncId::TcpClientClose) });
    symtab.push(SymDesc { name: "server_close", sym: Symbol::Func(FuncId::TcpServerClose) });
    symtab.push(SymDesc { name: "client_reset", sym: Symbol::Func(FuncId::TcpClientReset) });
    symtab.push(SymDesc { name: "server_reset", sym: Symbol::Func(FuncId::TcpServerReset) });
    let r = ClassDef { name: "TcpFlow", symtab };
    proof {
        let m = class_def_tcpflow_model();
        assert(r.symtab@.len() == m.len());
        assert forall|i: int|
            0 <= i < r.symtab@.len() implies (#[trigger] r.symtab@[i]).name@ == m[i].0
            && crate::sym::kind_of(r.symtab@[i].sym) == m[i].1 by {
        }
        crate::libapi::lemma_table_model(r.symtab@, m);
    }
    r
}

/// The resolution model of this table.
pub open spec fn module_def_model() -> Seq<(Seq<char>, crate::sym::SymKind)> {
    seq![
        ("TcpFlow"@, crate::sym::SymKind::Class(crate::stdlib::ClassId::TcpFlow)),
        ("flow"@, crate::sym::SymKind::Func(crate::stdlib::FuncId::TcpFlowFn)),
    ]
}

pub fn module_def() -> (r: Module)
    ensures
        forall|n: Seq<char>|
            crate::libapi::lookup_matches(
                #[trigger] crate::libapi::table_lookup(r.symtab@, n),
                crate::libapi::model_lookup(module_def_model(), n),
            ),
{
    let mut symtab: Vec<SymDesc> = Vec::new();
    symtab.push(SymDesc { name: "TcpFlow", sym: Symbol::Class(ClassId::TcpFlow) });
    symtab.push(SymDesc { name: "flow", sym: Symbol::Func(FuncId::TcpFlowFn) });
    let r = Module { name: "tcp", symtab };
    proof {
        let m = module_def_model();
        assert(r.symtab@.len() == m.len());
        assert forall|i: int|
            0 <= i < r.symtab@.len() implies (#[trigger] r.symtab@[i]).name@ == m[i].0
            && crate::sym::kind_of(r.symtab@[i].sym) == m[i].1 by {
        }
        crate::libapi::lemma_table_model(r.symtab@, m);
    }
    r
}

} // verus!
