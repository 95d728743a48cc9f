use vstd::prelude::*;
use crate::args::Args;
use crate::err::Error;
use crate::ezpkt::{Erspan1Flow, Erspan2Flow, GreFlow, VxlanFlow};
use crate::libapi::{ArgDecl, ArgDesc, ClassDef, FuncDef, Module, SymDesc};
use crate::object::ObjRef;
use crate::pkt::gre::GreFlags;
use crate::pkt::packet::Packet;
use crate::stdlib::{ClassId, FuncId};
use crate::sym::Symbol;
use crate::val::{Val, ValDef, ValType};

verus! {

// ---------------------------------------------------------------------------
// GRE.
// ---------------------------------------------------------------------------
pub fn gre_encap_def() -> (r: FuncDef)
    ensures
        r.body == FuncId::GreEncap,
{
    let mut args: Vec<ArgDesc> = Vec::new();
    args.push(ArgDesc { name: "gen", typ: ArgDecl::Positional(ValType::PktGen) });
    FuncDef {
        name: "encap",
        return_type: ValType::PktGen,
        args,
        min_args: 1,
        collect_type: ValType::Void,
        body: FuncId::GreEncap,
    }
}

/// Encapsulate every packet of a burst in its own GRE frame.
pub fn gre_encap_exec(args: &mut Args) -> (r: Result<Val, Error>) {
    let gen = args.next();
    let pkts: Vec<Packet> = match gen {
        Val::PktGen(ps) => ps,
        _ => {
            return Err(Error::TypeError);
        },
    };
    match &mut args.this {
        Some(ObjRef::Gre(flow)) => {
            let mut out: Vec<Packet> = Vec::new();
            let mut i: usize = 0;
            while i < pkts.len()
                decreases pkts@.len() - i,
            {
                let p = &pkts[i];
                if p.headroom > p.buf.len() {
                    return Err(Error::RuntimeError);
                }
                let body = p.to_vec();
                if body.len() > 0xffff - 28 {
                    return Err(Error::RuntimeError);
                }
                out.push(flow.encap(body.as_slice()));
                i += 1;
            }
            Ok(Val::PktGen(out))
        },
        _ => Err(Error::TypeError),
    }
}

pub fn gre_session_def() -> (r: FuncDef)
    ensures
        r.body == FuncId::GreSession,
{
    let mut args: Vec<ArgDesc> = Vec::new();
    args.push(ArgDesc { name: "cl", typ: ArgDecl::Positional(ValType::Ip4) });
    args.push(ArgDesc { name: "sv", typ: ArgDecl::Positional(ValType::Ip4) });
    args.push(ArgDesc { name: "ethertype", typ: ArgDecl::Positional(ValType::U16) });
    args.push(ArgDesc { name: "raw", typ: ArgDecl::Optional(ValDef::Bool(false)) });
    FuncDef {
        name: "session",
        return_type: ValType::Obj,
        args,
        min_args: 3,
        collect_type: ValType::Void,
        body: FuncId::GreSession,
    }
}

pub fn gre_session_exec(args: &mut Args) -> (r: Result<Val, Error>) {
    let cl = args.next().as_ip4();
    let sv = args.next().as_ip4();
    let ethertype = args.next().as_u16();
    let raw = args.next().as_bool();
    let flags = GreFlags::default();
    Ok(Val::Obj(ObjRef::Gre(GreFlow::new(cl, sv, flags, ethertype, raw))))
}

/// The resolution model of this table.
pub open spec fn class_def_gre_model() -> Seq<(Seq<char>, crate::sym::SymKind)> {
    seq![
        ("encap"@, crate::sym::SymKind::Func(crate::stdlib::FuncId::GreEncap)),
    ]
}

pub fn class_def_gre() -> (r: ClassDef)
    ensures
        forall|n: Seq<char>|
            crate::libapi::lookup_matches(
                #[trigger] crate::libapi::table_lookup(r.symtab@, n),
                crate::libapi::model_lookup(class_def_gre_model(), n),
            ),
{
    let mut symtab: Vec<SymDesc> = Vec::new();
    symtab.push(SymDesc { name: "encap", sym: Symbol::Func(FuncId::GreEncap) });
    let r = ClassDef { name: "Gre", symtab };
    proof {
        let m = class_def_gre_model();
        assert(r.symtab@.len() == m.len());
        assert forall|i: int|
            0 <= i < r.symtab@.len() implies (#[trigger] r.symtab@[i]).name@ == m[i].0
            && crate::sym::kind_of(r.symtab@[i].sym) == m[i].1 by {
        }
        crate::libapi::lemma_table_model(r.symtab@, m);
    }
    r
}

/// The resolution model of this table.
pub open spec fn gre_module_model() -> Seq<(Seq<char>, crate::sym::SymKind)> {
    seq![
        ("Gre"@, crate::sym::SymKind::Class(crate::stdlib::ClassId::Gre)),
        ("session"@, crate::sym::SymKind::Func(crate::stdlib::FuncId::GreSession)),
    ]
}

pub fn gre_module() -> (r: Module)
    ensures
        forall|n: Seq<char>|
            crate::libapi::lookup_matches(
                #[trigger] crate::libapi::table_lookup(r.symtab@, n),
                crate::libapi::model_lookup(gre_module_model(), n),
            ),
{
    let mut symtab: Vec<SymDesc> = Vec::new();
    symtab.push(SymDesc { name: "Gre", sym: Symbol::Class(ClassId::Gre) });
    symtab.push(SymDesc { name: "session", sym: Symbol::Func(FuncId::GreSession) });
    let r = Module { name: "gre", symtab };
    proof {
        let m = gre_module_model();
        assert(r.symtab@.len() == m.len());
        assert forall|i: int|
            0 <= i < r.symtab@.len() implies (#[trigger] r.symtab@[i]).name@ == m[i].0
            && crate::sym::kind_of(r.symtab@[i].sym) == m[i].1 by {
        }
        crate::libapi::lemma_table_model(r.symtab@, m);
    }
    r
}

// ---------------------------------------------------------------------------
// VXLAN.
// ---------------------------------------------------------------------------
pub fn vxlan_encap_def() -> (r: FuncDef)
    ensures
        r.body == FuncId::VxlanEncap,
{
    let mut args: Vec<ArgDesc> = Vec::new();
    args.push(ArgDesc { name: "gen", typ: ArgDecl::Positional(ValType::PktGen) });
    FuncDef {
        name: "encap",
        return_type: ValType::PktGen,
        args,
        min_args: 1,
        collect_type: ValType::Void,
        body: FuncId::VxlanEncap,
    }
}

/// Encapsulate every packet of a burst in its own VXLAN datagram.
pub fn vxlan_encap_exec(args: &mut Args) -> (r: Result<Val, Error>) {
    let gen = args.next();
    let pkts: Vec<Packet> = match gen {
        Val::PktGen(ps) => ps,
        _ => {
            return Err(Error::TypeError);
        },
    };
    match &mut args.this {
        Some(ObjRef::Vxlan(flow)) => {
            let mut out: Vec<Packet> = Vec::new();
            let mut i: usize = 0;
            while i < pkts.len()
                decreases pkts@.len() - i,
            {
                let p = &pkts[i];
                if p.headroom > p.buf.len() {
                    return Err(Error::RuntimeError);
                }
                let body = p.to_vec();
                if body.len() > 0xffff - 36 {
                    return Err(Error::RuntimeError);
                }
                out.push(flow.encap(body.as_slice()));
                i += 1;
            }
            Ok(Val::PktGen(out))
        },
        _ => Err(Error::TypeError),
    }
}

pub fn vxlan_dgram_def() -> (r: FuncDef)
    ensures
        r.body == FuncId::VxlanDgramFn,
{
    let mut args: Vec<ArgDesc> = Vec::new();
    args.push(ArgDesc { name: "pkt", typ: ArgDecl::Positional(ValType::Pkt) });
    FuncDef {
        name: "dgram",
        return_type: ValType::Pkt,
        args,
        min_args: 1,
        collect_type: ValType::Void,
        body: FuncId::VxlanDgramFn,
    }
}

/// Encapsulate one packet.
pub fn vxlan_dgram_exec(args: &mut Args) -> (r: Result<Val, Error>) {
    let pv = args.next();
    let p: Packet = match pv {
        Val::Pkt(p) => p,
        _ => {
            return Err(Error::TypeError);
        },
    };
    if p.headroom > p.buf.len() {
        return Err(Error::RuntimeError);
    }
    match &mut args.this {
        Some(ObjRef::Vxlan(flow)) => {
            let body = p.to_vec();
            if body.len() > 0xffff - 36 {
                return Err(Error::RuntimeError);
            }
            Ok(Val::Pkt(flow.encap(body.as_slice())))
        },
        _ => Err(Error::TypeError),
    }
}

pub fn vxlan_session_def() -> (r: FuncDef)
    ensures
        r.body == FuncId::VxlanSession,
{
    let mut args: Vec<ArgDesc> = Vec::new();
    args.push(ArgDesc { name: "cl", typ: ArgDecl::Positional(ValType::Sock4) });
    args.push(ArgDesc { name: "sv", typ: ArgDecl::Positional(ValType::Sock4) });
    args.push(ArgDesc { name: "sessionid", typ: ArgDecl::Optional(ValDef::U32(0)) });
    args.push(ArgDesc { name: "raw", typ: ArgDecl::Optional(ValDef::Bool(false)) });
    FuncDef {
        name: "session",
        return_type: ValType::Obj,
        args,
        min_args: 2,
        collect_type: ValType::Void,
        body: FuncId::VxlanSession,
    }
}

pub fn vxlan_session_exec(args: &mut Args) -> (r: Result<Val, Error>) {
    let cl = args.next().as_sock4();
    let sv = args.next().as_sock4();
    let vni = args.next().as_u32();
    let raw = args.next().as_bool();
    Ok(Val::Obj(ObjRef::Vxlan(VxlanFlow::new(cl, sv, vni, raw))))
}

/// The resolution model of this table.
pub open spec fn class_def_vxlan_model() -> Seq<(Seq<char>, crate::sym::SymKind)> {
    seq![
        ("dgram"@, crate::sym::SymKind::Func(crate::stdlib::FuncId::VxlanDgramFn)),
        ("encap"@, crate::sym::SymKind::Func(crate::stdlib::FuncId::VxlanEncap)),
    ]
}

pub fn class_def_vxlan() -> (r: ClassDef)
    ensures
        forall|n: Seq<char>|
            crate::libapi::lookup_matches(
                #[trigger] crate::libapi::table_lookup(r.symtab@, n),
                crate::libapi::model_lookup(class_def_vxlan_model(), n),
            ),
{
    let mut symtab: Vec<SymDesc> = Vec::new();
    symtab.push(SymDesc { name: "dgram", sym: Symbol::Func(FuncId::VxlanDgramFn) });
    symtab.push(SymDesc { name: "encap", sym: Symbol::Func(FuncId::VxlanEncap) });
    let r = ClassDef { name: "Vxlan", symtab };
    proof {
        let m = class_def_vxlan_model();
        assert(r.symtab@.len() == m.len());
        assert forall|i: int|
            0 <= i < r.symtab@.len() implies (#[trigger] r.symtab@[i]).name@ == m[i].0
            && crate::sym::kind_of(r.symtab@[i].sym) == m[i].1 by {
        }
        crate::libapi::lemma_table_model(r.symtab@, m);
    }
    r
}

/// The resolution model of this table.
pub open spec fn vxlan_module_model() -> Seq<(Seq<char>, crate::sym::SymKind)> {
    seq![
        ("Vxlan"@, crate::sym::SymKind::Class(crate::stdlib::ClassId::Vxlan)),
        ("session"@, crate::sym::SymKind::Func(crate::stdlib::FuncId::VxlanSession)),
        ("DEFAULT_PORT"@, crate::sym::SymKind::ValU16(4789)),
    ]
}

pub fn vxlan_module() -> (r: Module)
    ensures
        forall|n: Seq<char>|
            crate::libapi::lookup_matches(
                #[trigger] crate::libapi::table_lookup(r.symtab@, n),
                crate::libapi::model_lookup(vxlan_module_model(), n),
            ),
{
    let mut symtab: Vec<SymDesc> = Vec::new();
    symtab.push(SymDesc { name: "Vxlan", sym: Symbol::Class(ClassId::Vxlan) });
    symtab.push(SymDesc { name: "session", sym: Symbol::Func(FuncId::VxlanSession) });
    symtab.push(SymDesc { name: "DEFAULT_PORT", sym: Symbol::u16(4789) });
    let r = Module { name: "vxlan", symtab };
    proof {
        let m = vxlan_module_model();
        assert(r.symtab@.len() == m.len());
        assert forall|i: int|
            0 <= i < r.symtab@.len() implies (#[trigger] r.symtab@[i]).name@ == m[i].0
            && crate::sym::kind_of(r.symtab@[i].sym) == m[i].1 by {
        }
        crate::libapi::lemma_table_model(r.symtab@, m);
    }
    r
}

// ---------------------------------------------------------------------------
// ERSPAN type I and type II.
// ---------------------------------------------------------------------------
pub fn erspan1_encap_def() -> (r: FuncDef)
    ensures
        r.body == FuncId::Erspan1Encap,
{
    let mut args: Vec<ArgDesc> = Vec::new();
    args.push(ArgDesc { name: "gen", typ: ArgDecl::Positional(ValType::PktGen) });
    FuncDef {
        name: "encap",
        return_type: ValType::PktGen,
        args,
        min_args: 1,
        collect_type: ValType::Void,
        body: FuncId::Erspan1Encap,
    }
}

/// Mirror every packet of a burst in its own type I frame.
pub fn erspan1_encap_exec(args: &mut Args) -> (r: Result<Val, Error>) {
    let gen = args.next();
    let pkts: Vec<Packet> = match gen {
        Val::PktGen(ps) => ps,
        _ => {
            return Err(Error::TypeError);
        },
    };
    match &mut args.this {
        Some(ObjRef::Erspan1(flow)) => {
            let mut out: Vec<Packet> = Vec::new();
            let mut i: usize = 0;
            while i < pkts.len()
                decreases pkts@.len() - i,
            {
                let p = &pkts[i];
                if p.headroom > p.buf.len() {
                    return Err(Error::RuntimeError);
                }
                let body = p.to_vec();
                if body.len() > 0xffff - 28 {
                    return Err(Error::RuntimeError);
                }
                out.push(flow.encap(body.as_slice()));
                i += 1;
            }
            Ok(Val::PktGen(out))
        },
        _ => Err(Error::TypeError),
    }
}

pub fn erspan1_session_def() -> (r: FuncDef)
    ensures
        r.body == FuncId::Erspan1Session,
{
    let mut args: Vec<ArgDesc> = Vec::new();
    args.push(ArgDesc { name: "cl", typ: ArgDecl::Positional(ValType::Ip4) });
    args.push(ArgDesc { name: "sv", typ: ArgDecl::Positional(ValType::Ip4) });
    args.push(ArgDesc { name: "raw", typ: ArgDecl::Optional(ValDef::Bool(false)) });
    FuncDef {
        name: "session",
        return_type: ValType::Obj,
        args,
        min_args: 2,
        collect_type: ValType::Void,
        body: FuncId::Erspan1Session,
    }
}

pub fn erspan1_session_exec(args: &mut Args) -> (r: Result<Val, Error>) {
    let cl = args.next().as_ip4();
    let sv = args.next().as_ip4();
    let raw = args.next().as_bool();
    Ok(Val::Obj(ObjRef::Erspan1(Erspan1Flow::new(cl, sv, raw))))
}

/// The resolution model of this table.
pub open spec fn class_def_erspan1_model() -> Seq<(Seq<char>, crate::sym::SymKind)> {
    seq![
        ("encap"@, crate::sym::SymKind::Func(crate::stdlib::FuncId::Erspan1Encap)),
    ]
}

pub fn class_def_erspan1() -> (r: ClassDef)
    ensures
        forall|n: Seq<char>|
            crate::libapi::lookup_matches(
                #[trigger] crate::libapi::table_lookup(r.symtab@, n),
                crate::libapi::model_lookup(class_def_erspan1_model(), n),
            ),
{
    let mut symtab: Vec<SymDesc> = Vec::new();
    symtab.push(SymDesc { name: "encap", sym: Symbol::Func(FuncId::Erspan1Encap) });
    let r = ClassDef { name: "Erspan1", symtab };
    proof {
        let m = class_def_erspan1_model();
        assert(r.symtab@.len() == m.len());
        assert forall|i: int|
            0 <= i < r.symtab@.len() implies (#[trigger] r.symtab@[i]).name@ == m[i].0
            && crate::sym::kind_of(r.symtab@[i].sym) == m[i].1 by {
        }
        crate::libapi::lemma_table_model(r.symtab@, m);
    }
    r
}

/// The resolution model of this table.
pub open spec fn erspan1_module_model() -> Seq<(Seq<char>, crate::sym::SymKind)> {
    seq![
        ("Erspan1"@, crate::sym::SymKind::Class(crate::stdlib::ClassId::Erspan1)),
        ("session"@, crate::sym::SymKind::Func(crate::stdlib::FuncId::Erspan1Session)),
    ]
}

pub fn erspan1_module() -> (r: Module)
    ensures
        forall|n: Seq<char>|
            crate::libapi::lookup_matches(
                #[trigger] crate::libapi::table_lookup(r.symtab@, n),
                crate::libapi::model_lookup(erspan1_module_model(), n),
            ),
{
    let mut symtab: Vec<SymDesc> = Vec::new();
    symtab.push(SymDesc { name: "Erspan1", sym: Symbol::Class(ClassId::Erspan1) });
    symtab.push(SymDesc { name: "session", sym: Symbol::Func(FuncId::Erspan1Session) });
    let r = Module { name: "erspan1", symtab };
    proof {
        let m = erspan1_module_model();
        assert(r.symtab@.len() == m.len());
        assert forall|i: int|
            0 <= i < r.symtab@.len() implies (#[trigger] r.symtab@[i]).name@ == m[i].0
            && crate::sym::kind_of(r.symtab@[i].sym) == m[i].1 by {
        }
        crate::libapi::lemma_table_model(r.symtab@, m);
    }
    r
}

pub fn erspan2_encap_def() -> (r: FuncDef)
    ensures
        r.body == FuncId::Erspan2Encap,
{
    let mut args: Vec<ArgDesc> = Vec::new();
    args.push(ArgDesc { name: "gen", typ: ArgDecl::Positional(ValType::PktGen) });
    args.push(ArgDesc { name: "port_index", typ: ArgDecl::Optional(ValDef::U32(0)) });
    FuncDef {
        name: "encap",
        return_type: ValType::PktGen,
        args,
        min_args: 1,
        collect_type: ValType::Void,
        body: FuncId::Erspan2Encap,
    }
}

/// Mirror every packet of a burst in its own type II frame.
pub fn erspan2_encap_exec(args: &mut Args) -> (r: Result<Val, Error>) {
    let gen = args.next();
    let port_index = args.next().as_u32();
    let pkts: Vec<Packet> = match gen {
        Val::PktGen(ps) => ps,
        _ => {
            return Err(Error::TypeError);
        },
    };
    match &mut args.this {
        Some(ObjRef::Erspan2(flow)) => {
            let mut out: Vec<Packet> = Vec::new();
            let mut i: usize = 0;
            while i < pkts.len()
                decreases pkts@.len() - i,
            {
                let p = &pkts[i];
                if p.headroom > p.buf.len() {
                    return Err(Error::RuntimeError);
                }
                let body = p.to_vec();
                if body.len() > 0xffff - 40 {
                    return Err(Error::RuntimeError);
                }
                out.push(flow.encap(body.as_slice(), port_index));
                i += 1;
            }
            Ok(Val::PktGen(out))
        },
        _ => Err(Error::TypeError),
    }
}

pub fn erspan2_session_def() -> (r: FuncDef)
    ensures
        r.body == FuncId::Erspan2Session,
{
    let mut args: Vec<ArgDesc> = Vec::new();
    args.push(ArgDesc { name: "cl", typ: ArgDecl::Positional(ValType::Ip4) });
    args.push(ArgDesc { name: "sv", typ: ArgDecl::Positional(ValType::Ip4) });
    args.push(ArgDesc { name: "raw", typ: ArgDecl::Optional(ValDef::Bool(false)) });
    FuncDef {
        name: "session",
        return_type: ValType::Obj,
        args,
        min_args: 2,
        collect_type: ValType::Void,
        body: FuncId::Erspan2Session,
    }
}

pub fn erspan2_session_exec(args: &mut Args) -> (r: Result<Val, Error>) {
    let cl = args.next().as_ip4();
    let sv = args.next().as_ip4();
    let raw = args.next().as_bool();
    Ok(Val::Obj(ObjRef::Erspan2(Erspan2Flow::new(cl, sv, raw))))
}

/// The resolution model of this table.
pub open spec fn class_def_erspan2_model() -> Seq<(Seq<char>, crate::sym::SymKind)> {
    seq![
        ("encap"@, crate::sym::SymKind::Func(crate::stdlib::FuncId::Erspan2Encap)),
    ]
}

pub fn class_def_erspan2() -> (r: ClassDef)
    ensures
        forall|n: Seq<char>|
            crate::libapi::lookup_matches(
                #[trigger] crate::libapi::table_lookup(r.symtab@, n),
                crate::libapi::model_lookup(class_def_erspan2_model(), n),
            ),
{
    let mut symtab: Vec<SymDesc> = Vec::new();
    symtab.push(SymDesc { name: "encap", sym: Symbol::Func(FuncId::Erspan2Encap) });
    let r = ClassDef { name: "Erspan2", symtab };
    proof {
        let m = class_def_erspan2_model();
        assert(r.symtab@.len() == m.len());
        assert forall|i: int|
            0 <= i < r.symtab@.len() implies (#[trigger] r.symtab@[i]).name@ == m[i].0
            && crate::sym::kind_of(r.symtab@[i].sym) == m[i].1 by {
        }
        crate::libapi::lemma_table_model(r.symtab@, m);
    }
    r
}

/// The resolution model of this table.
pub open spec fn erspan2_module_model() -> Seq<(Seq<char>, crate::sym::SymKind)> {
    seq![
        ("Erspan2"@, crate::sym::SymKind::Class(crate::stdlib::ClassId::Erspan2)),
        ("session"@, crate::sym::SymKind::Func(crate::stdlib::FuncId::Erspan2Session)),
    ]
}

pub fn erspan2_module() -> (r: Module)
    ensures
        forall|n: Seq<char>|
            crate::libapi::lookup_matches(
                #[trigger] crate::libapi::table_lookup(r.symtab@, n),
                crate::libapi::model_lookup(erspan2_module_model(), n),
            ),
{
    let mut symtab: Vec<SymDesc> = Vec::new();
    symtab.push(SymDesc { name: "Erspan2", sym: Symbol::Class(ClassId::Erspan2) });
    symtab.push(SymDesc { name: "session", sym: Symbol::Func(FuncId::Erspan2Session) });
    let r = Module { name: "erspan2", symtab };
    proof {
        let m = erspan2_module_model();
        assert(r.symtab@.len() == m.len());
        assert forall|i: int|
            0 <= i < r.symtab@.len() implies (#[trigger] r.symtab@[i]).name@ == m[i].0
            && crate::sym::kind_of(r.symtab@[i].sym) == m[i].1 by {
        }
        crate::libapi::lemma_table_model(r.symtab@, m);
    }
    r
}

} // verus!
