use vstd::prelude::*;
use crate::args::Args;
use crate::err::Error;
use crate::ezpkt::IcmpFlow;
use crate::libapi::{ArgDecl, ArgDesc, ClassDef, FuncDef, Module, SymDesc};
use crate::object::ObjRef;
use crate::stdlib::{ClassId, FuncId};
use crate::sym::Symbol;
use crate::val::{Val, ValDef, ValType};

verus! {

fn echo_def(name: &'static str, id: FuncId) -> (r: FuncDef)
    ensures
        r.body == id,
{
    let mut args: Vec<ArgDesc> = Vec::new();
    args.push(ArgDesc { name: "payload", typ: ArgDecl::Positional(ValType::Str) });
    FuncDef {
        name,
        return_type: ValType::Pkt,
        args,
        min_args: 1,
        collect_type: ValType::Void,
        body: id,
    }
}

pub fn echo_fn_def() -> (r: FuncDef)
    ensures
        r.body == FuncId::IcmpEcho,
{
    echo_def("echo", FuncId::IcmpEcho)
}

pub fn echo_reply_def() -> (r: FuncDef)
    ensures
        r.body == FuncId::IcmpEchoReply,
{
    echo_def("echo_reply", FuncId::IcmpEchoReply)
}

pub fn flow_def() -> (r: FuncDef)
    ensures
        r.body == FuncId::IcmpFlowFn,
{
    let mut args: Vec<ArgDesc> = Vec::new();
    args.push(ArgDesc { name: "cl", typ: ArgDecl::Positional(ValType::Ip4) });
    args.push(ArgDesc { name: "sv", typ: ArgDecl::Positional(ValType::Ip4) });
    args.push(ArgDesc { name: "raw", typ: ArgDecl::Optional(ValDef::Bool(false)) });
    FuncDef {
        name: "flow",
        return_type: ValType::Obj,
        args,
        min_args: 2,
        collect_type: ValType::Void,
        body: FuncId::IcmpFlowFn,
    }
}

/// The contract of `flow_exec`, stated over the arguments before
/// the call and the state after it.
pub open spec fn flow_exec_post(pre: Args, post: Args, r: Result<Val, Error>) -> bool {
    &&& ((r matches Ok(v) && v matches Val::Obj(o) && o matches ObjRef::Icmp(f) && f.cl
            == crate::val::ip4_of(crate::args::arg_at(pre.args@, 0)) && f.sv
            == crate::val::ip4_of(crate::args::arg_at(pre.args@, 1)) && f.raw
            == crate::val::bool_of(crate::args::arg_at(pre.args@, 2))))
}

pub fn flow_exec(args: &mut Args) -> (r: Result<Val, Error>)
    requires
        old(args).cursor == 0,
    ensures
        flow_exec_post(*old(args), *final(args), r),
{
    let cl = args.next().as_ip4();
    let sv = args.next().as_ip4();
    let raw = args.next().as_bool();
    Ok(Val::Obj(ObjRef::Icmp(IcmpFlow::new(cl, sv, raw))))
}

/// What an echo or reply call returns: an oversized payload is
/// refused, a receiver that is no ICMP session a type error, and
/// otherwise one echo packet whose counter advances.
pub open spec fn echo_post(pre: Args, post: Args, request: bool, r: Result<Val, Error>) -> bool {
    let payload = crate::args::buf_of(crate::args::arg_at(pre.args@, 0));
    &&& (payload.len() > 0xffff - 28 ==> r == Err::<Val, Error>(Error::RuntimeError))
    &&& (payload.len() <= 0xffff - 28 ==> match pre.this {
        Some(ObjRef::Icmp(flow)) => (r matches Ok(v) && v matches Val::Pkt(p)
            && post.this matches Some(ObjRef::Icmp(flow2)) && (if request {
            flow2 == (IcmpFlow { ping_seq: ((flow.ping_seq + 1) % 0x10000) as u16, ..flow })
                && p.content() == crate::ezpkt::icmp4::icmp_packet_content(
                flow.raw,
                flow.cl,
                flow.sv,
                crate::pkt::ipv4::ICMP_ECHO,
                flow.id,
                flow.ping_seq,
                payload,
            )
        } else {
            flow2 == (IcmpFlow { pong_seq: ((flow.pong_seq + 1) % 0x10000) as u16, ..flow })
                && p.content() == crate::ezpkt::icmp4::icmp_packet_content(
                flow.raw,
                flow.sv,
                flow.cl,
                crate::pkt::ipv4::ICMP_ECHOREPLY,
                flow.id,
                flow.pong_seq,
                payload,
            )
        })),
        _ => r == Err::<Val, Error>(Error::TypeError),
    })
}

fn echo_exec_dir(args: &mut Args, request: bool) -> (r: Result<Val, Error>)
    requires
        old(args).cursor == 0,
    ensures
        echo_post(*old(args), *final(args), request, r),
{
    let bytes = args.next().as_buf();
    if bytes.len() > 0xffff - 28 {
        return Err(Error::RuntimeError);
    }
    match &mut args.this {
        Some(ObjRef::Icmp(flow)) => {
            let pkt = if request {
                flow.echo(bytes.as_slice())
            } else {
                flow.echo_reply(bytes.as_slice())
            };
            Ok(Val::Pkt(pkt))
        },
        _ => Err(Error::TypeError),
    }
}

/// An echo request; the request counter advances.
pub fn echo_exec(args: &mut Args) -> (r: Result<Val, Error>)
    requires
        old(args).cursor == 0,
    ensures
        echo_post(*old(args), *final(args), true, r),
{
    echo_exec_dir(args, true)
}

/// An echo reply; the reply counter advances.
pub fn echo_reply_exec(args: &mut Args) -> (r: Result<Val, Error>)
    requires
        old(args).cursor == 0,
    ensures
        echo_post(*old(args), *final(args), false, r),
{
    echo_exec_dir(args, false)
}

/// The resolution model of this table.
pub open spec fn class_def_icmp_model() -> Seq<(Seq<char>, crate::sym::SymKind)> {
    seq![
        ("echo"@, crate::sym::SymKind::Func(crate::stdlib::FuncId::IcmpEcho)),
        ("echo_reply"@, crate::sym::SymKind::Func(crate::stdlib::FuncId::IcmpEchoReply)),
    ]
}

pub fn class_def_icmp() -> (r: ClassDef)
    ensures
        forall|n: Seq<char>|
            crate::libapi::lookup_matches(
                #[trigger] crate::libapi::table_lookup(r.symtab@, n),
                crate::libapi::model_lookup(class_def_icmp_model(), n),
            ),
{
    let mut symtab: Vec<SymDesc> = Vec::new();
    symtab.push(SymDesc { name: "echo", sym: Symbol::Func(FuncId::IcmpEcho) });
    symtab.push(SymDesc { name: "echo_reply", sym: Symbol::Func(FuncId::IcmpEchoReply) });
    let r = ClassDef { name: "Icmp", symtab };
    proof {
        let m = class_def_icmp_model();
        assert(r.symtab@.len() == m.len());
        assert forall|i: int|
            0 <= i < r.symtab@.len() implies (#[trigger] r.symtab@[i]).name@ == m[i].0
            && crate::sym::kind_of(r.symtab@[i].sym) == m[i].1 by {
        }
        crate::libapi::lemma_table_model(r.symtab@, m);
    }
    r
}

/// The resolution model of this table.
pub open spec fn module_def_model() -> Seq<(Seq<char>, crate::sym::SymKind)> {
    seq![
        ("Icmp"@, crate::sym::SymKind::Class(crate::stdlib::ClassId::Icmp)),
        ("flow"@, crate::sym::SymKind::Func(crate::stdlib::FuncId::IcmpFlowFn)),
    ]
}

pub fn module_def() -> (r: Module)
    ensures
        forall|n: Seq<char>|
            crate::libapi::lookup_matches(
                #[trigger] crate::libapi::table_lookup(r.symtab@, n),
                crate::libapi::model_lookup(module_def_model(), n),
            ),
{
    let mut symtab: Vec<SymDesc> = Vec::new();
    symtab.push(SymDesc { name: "Icmp", sym: Symbol::Class(ClassId::Icmp) });
    symtab.push(SymDesc { name: "flow", sym: Symbol::Func(FuncId::IcmpFlowFn) });
    let r = Module { name: "icmp", symtab };
    proof {
        let m = module_def_model();
        assert(r.symtab@.len() == m.len());
        assert forall|i: int|
            0 <= i < r.symtab@.len() implies (#[trigger] r.symtab@[i]).name@ == m[i].0
            && crate::sym::kind_of(r.symtab@[i].sym) == m[i].1 by {
        }
        crate::libapi::lemma_table_model(r.symtab@, m);
    }
    r
}

} // verus!
