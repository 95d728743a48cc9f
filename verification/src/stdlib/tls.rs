use vstd::prelude::*;
use crate::args::Args;
use crate::err::Error;
use crate::libapi::{ArgDecl, ArgDesc, FuncDef, Module, SymDesc};
use crate::pkt::tls::{tls_frame, TLS_CONTENT_HANDSHAKE, TLS_VERSION_TLS_1_0};
use crate::stdlib::{FuncId, ModuleId};
use crate::strbuf::Buf;
use crate::sym::Symbol;
use crate::val::{Val, ValDef, ValType};

verus! {

pub fn message_def() -> (r: FuncDef)
    ensures
        r.body == FuncId::TlsMessage,
{
    let mut args: Vec<ArgDesc> = Vec::new();
    args.push(
        ArgDesc { name: "content", typ: ArgDecl::Optional(ValDef::U8(TLS_CONTENT_HANDSHAKE)) },
    );
    args.push(
        ArgDesc { name: "version", typ: ArgDecl::Optional(ValDef::U16(TLS_VERSION_TLS_1_0)) },
    );
    FuncDef {
        name: "message",
        return_type: ValType::Str,
        args,
        min_args: 0,
        collect_type: ValType::Str,
        body: FuncId::TlsMessage,
    }
}

/// Frame the joined tail in one record.
pub fn message_exec(args: &mut Args) -> (r: Result<Val, Error>) {
    let content = args.next().as_u8();
    let version = args.next().as_u16();
    let sep: Vec<u8> = Vec::new();
    let data = args.join_extra(sep.as_slice()).as_buf();
    if data.len() > 0xffff {
        return Err(Error::RuntimeError);
    }
    Ok(Val::Str(Buf::from_vec(tls_frame(content, version, data.as_slice()))))
}

/// The resolution model of this table.
pub open spec fn version_module_model() -> Seq<(Seq<char>, crate::sym::SymKind)> {
    seq![
        ("SSL_1"@, crate::sym::SymKind::ValU16(0x0100)),
        ("SSL_2"@, crate::sym::SymKind::ValU16(0x0200)),
        ("SSL_3"@, crate::sym::SymKind::ValU16(0x0300)),
        ("TLS_1_0"@, crate::sym::SymKind::ValU16(0x0301)),
        ("TLS_1_1"@, crate::sym::SymKind::ValU16(0x0302)),
        ("TLS_1_2"@, crate::sym::SymKind::ValU16(0x0303)),
        ("TLS_1_3"@, crate::sym::SymKind::ValU16(0x0304)),
    ]
}

pub fn version_module() -> (r: Module)
    ensures
        forall|n: Seq<char>|
            crate::libapi::lookup_matches(
                #[trigger] crate::libapi::table_lookup(r.symtab@, n),
                crate::libapi::model_lookup(version_module_model(), n),
            ),
{
    let mut symtab: Vec<SymDesc> = Vec::new();
    symtab.push(SymDesc { name: "SSL_1", sym: Symbol::u16(0x0100) });
    symtab.push(SymDesc { name: "SSL_2", sym: Symbol::u16(0x0200) });
    symtab.push(SymDesc { name: "SSL_3", sym: Symbol::u16(0x0300) });
    symtab.push(SymDesc { name: "TLS_1_0", sym: Symbol::u16(0x0301) });
    symtab.push(SymDesc { name: "TLS_1_1", sym: Symbol::u16(0x0302) });
    symtab.push(SymDesc { name: "TLS_1_2", sym: Symbol::u16(0x0303) });
    symtab.push(SymDesc { name: "TLS_1_3", sym: Symbol::u16(0x0304) });
    let r = Module { name: "version", symtab };
    proof {
        let m = version_module_model();
        assert(r.symtab@.len() == m.len());
        assert forall|i: int|
            0 <= i < r.symtab@.len() implies (#[trigger] r.symtab@[i]).name@ == m[i].0
            && crate::sym::kind_of(r.symtab@[i].sym) == m[i].1 by {
        }
        crate::libapi::lemma_table_model(r.symtab@, m);
    }
    r
}

/// The resolution model of this table.
pub open spec fn content_module_model() -> Seq<(Seq<char>, crate::sym::SymKind)> {
    seq![
        ("INVALID"@, crate::sym::SymKind::ValU8(0)),
        ("CHANGE_CIPHER_SPEC"@, crate::sym::SymKind::ValU8(20)),
        ("ALERT"@, crate::sym::SymKind::ValU8(21)),
        ("HANDSHAKE"@, crate::sym::SymKind::ValU8(22)),
        ("APP_DATA"@, crate::sym::SymKind::ValU8(23)),
        ("HEARTBEAT"@, crate::sym::SymKind::ValU8(24)),
        ("TLS12_CID"@, crate::sym::SymKind::ValU8(25)),
        ("ACK"@, crate::sym::SymKind::ValU8(26)),
    ]
}

pub fn content_module() -> (r: Module)
    ensures
        forall|n: Seq<char>|
            crate::libapi::lookup_matches(
                #[trigger] crate::libapi::table_lookup(r.symtab@, n),
                crate::libapi::model_lookup(content_module_model(), n),
            ),
{
    let mut symtab: Vec<SymDesc> = Vec::new();
    symtab.push(SymDesc { name: "INVALID", sym: Symbol::u8(0) });
    symtab.push(SymDesc { name: "CHANGE_CIPHER_SPEC", sym: Symbol::u8(20) });
    symtab.push(SymDesc { name: "ALERT", sym: Symbol::u8(21) });
    symtab.push(SymDesc { name: "HANDSHAKE", sym: Symbol::u8(22) });
    symtab.push(SymDesc { name: "APP_DATA", sym: Symbol::u8(23) });
    symtab.push(SymDesc { name: "HEARTBEAT", sym: Symbol::u8(24) });
    symtab.push(SymDesc { name: "TLS12_CID", sym: Symbol::u8(25) });
    symtab.push(SymDesc { name: "ACK", sym: Symbol::u8(26) });
    let r = Module { name: "content", symtab };
    proof {
        let m = content_module_model();
        assert(r.symtab@.len() == m.len());
        assert forall|i: int|
            0 <= i < r.symtab@.len() implies (#[trigger] r.symtab@[i]).name@ == m[i].0
            && crate::sym::kind_of(r.symtab@[i].sym) == m[i].1 by {
        }
        crate::libapi::lemma_table_model(r.symtab@, m);
    }
    r
}

/// The resolution model of this table.
pub open spec fn handshake_module_model() -> Seq<(Seq<char>, crate::sym::SymKind)> {
    seq![
        ("HELLO_REQUEST"@, crate::sym::SymKind::ValU8(0)),
        ("CLIENT_HELLO"@, crate::sym::SymKind::ValU8(1)),
        ("SERVER_HELLO"@, crate::sym::SymKind::ValU8(2)),
        ("CERTIFICATE"@, crate::sym::SymKind::ValU8(11)),
        ("SERVER_KEY_EXCHANGE"@, crate::sym::SymKind::ValU8(12)),
        ("CERTIFICATE_REQUEST"@, crate::sym::SymKind::ValU8(13)),
        ("SERVER_HELLO_DONE"@, crate::sym::SymKind::ValU8(14)),
        ("CERTIFICATE_VERIFY"@, crate::sym::SymKind::ValU8(15)),
        ("CLIENT_KEY_EXCHANGE"@, crate::sym::SymKind::ValU8(16)),
        ("FINISHED"@, crate::sym::SymKind::ValU8(20)),
    ]
}

pub fn handshake_module() -> (r: Module)
    ensures
        forall|n: Seq<char>|
            crate::libapi::lookup_matches(
                #[trigger] crate::libapi::table_lookup(r.symtab@, n),
                crate::libapi::model_lookup(handshake_module_model(), n),
            ),
{
    let mut symtab: Vec<SymDesc> = Vec::new();
    symtab.push(SymDesc { name: "HELLO_REQUEST", sym: Symbol::u8(0) });
    symtab.push(SymDesc { name: "CLIENT_HELLO", sym: Symbol::u8(1) });
    symtab.push(SymDesc { name: "SERVER_HELLO", sym: Symbol::u8(2) });
    symtab.push(SymDesc { name: "CERTIFICATE", sym: Symbol::u8(11) });
    symtab.push(SymDesc { name: "SERVER_KEY_EXCHANGE", sym: Symbol::u8(12) });
    symtab.push(SymDesc { name: "CERTIFICATE_REQUEST", sym: Symbol::u8(13) });
    symtab.push(SymDesc { name: "SERVER_HELLO_DONE", sym: Symbol::u8(14) });
    symtab.push(SymDesc { name: "CERTIFICATE_VERIFY", sym: Symbol::u8(15) });
    symtab.push(SymDesc { name: "CLIENT_KEY_EXCHANGE", sym: Symbol::u8(16) });
    symtab.push(SymDesc { name: "FINISHED", sym: Symbol::u8(20) });
    let r = Module { name: "handshake", symtab };
    proof {
        let m = handshake_module_model();
        assert(r.symtab@.len() == m.len());
        assert forall|i: int|
            0 <= i < r.symtab@.len() implies (#[trigger] r.symtab@[i]).name@ == m[i].0
            && crate::sym::kind_of(r.symtab@[i].sym) == m[i].1 by {
        }
        crate::libapi::lemma_table_model(r.symtab@, m);
    }
    r
}

/// The resolution model of this table.
pub open spec fn module_def_model() -> Seq<(Seq<char>, crate::sym::SymKind)> {
    seq![
        ("version"@, crate::sym::SymKind::Module(crate::stdlib::ModuleId::TlsVersion)),
        ("content"@, crate::sym::SymKind::Module(crate::stdlib::ModuleId::TlsContent)),
        ("handshake"@, crate::sym::SymKind::Module(crate::stdlib::ModuleId::TlsHandshake)),
        ("message"@, crate::sym::SymKind::Func(crate::stdlib::FuncId::TlsMessage)),
    ]
}

pub fn module_def() -> (r: Module)
    ensures
        forall|n: Seq<char>|
            crate::libapi::lookup_matches(
                #[trigger] crate::libapi::table_lookup(r.symtab@, n),
                crate::libapi::model_lookup(module_def_model(), n),
            ),
{
    let mut symtab: Vec<SymDesc> = Vec::new();
    symtab.push(SymDesc { name: "version", sym: Symbol::Module(ModuleId::TlsVersion) });
    symtab.push(SymDesc { name: "content", sym: Symbol::Module(ModuleId::TlsContent) });
    symtab.push(SymDesc { name: "handshake", sym: Symbol::Module(ModuleId::TlsHandshake) });
    symtab.push(SymDesc { name: "message", sym: Symbol::Func(FuncId::TlsMessage) });
    let r = Module { name: "tls", symtab };
    proof {
        let m = module_def_model();
        assert(r.symtab@.len() == m.len());
        assert forall|i: int|
            0 <= i < r.symtab@.len() implies (#[trigger] r.symtab@[i]).name@ == m[i].0
            && crate::sym::kind_of(r.symtab@[i].sym) == m[i].1 by {
        }
        crate::libapi::lemma_table_model(r.symtab@, m);
    }
    r
}

} // verus!
