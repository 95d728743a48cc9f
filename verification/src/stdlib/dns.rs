use vstd::prelude::*;
use crate::args::Args;
use crate::err::Error;
use crate::ezpkt::UdpFlow;
use crate::libapi::{ArgDecl, ArgDesc, FuncDef, Module, SymDesc};
use crate::pkt::dns::{dns_hdr, DnsFlags, DnsName};
use crate::pkt::packet::Packet;
use crate::pkt::{put_be16, put_be32, put_bytes, Ip4Addr, Serialize, Sock4};
use crate::stdlib::{FuncId, ModuleId};
use crate::strbuf::Buf;
use crate::sym::Symbol;
use crate::val::{Val, ValDef, ValType};

verus! {

/// The wire form of the variadic labels, each length-prefixed.
pub open spec fn dns_labels_wire(vals: Seq<Val>) -> Seq<u8>
    decreases vals.len(),
{
    if vals.len() == 0 {
        Seq::<u8>::empty()
    } else {
        seq![crate::args::buf_of(vals[0]).len() as u8] + crate::args::buf_of(vals[0])
            + dns_labels_wire(vals.skip(1))
    }
}

/// Appending one more label extends the wire form by its encoding.
proof fn lemma_labels_wire_snoc(vals: Seq<Val>, i: int)
    requires
        0 <= i < vals.len(),
    ensures
        dns_labels_wire(vals.take(i + 1)) == dns_labels_wire(vals.take(i)) + seq![
            crate::args::buf_of(vals[i]).len() as u8,
        ] + crate::args::buf_of(vals[i]),
    decreases i,
{
    if i == 0 {
        assert(vals.take(0) =~= Seq::<Val>::empty());
        assert(vals.take(1)[0] == vals[0]);
        assert(vals.take(1).skip(1) =~= Seq::<Val>::empty());
        assert(dns_labels_wire(vals.take(1)) =~= dns_labels_wire(vals.take(0)) + seq![
            crate::args::buf_of(vals[0]).len() as u8,
        ] + crate::args::buf_of(vals[0]));
    } else {
        lemma_labels_wire_snoc(vals.skip(1), i - 1);
        assert(vals.take(i + 1)[0] == vals[0]);
        assert(vals.take(i)[0] == vals[0]);
        assert(vals.take(i + 1).skip(1) =~= vals.skip(1).take(i));
        assert(vals.take(i).skip(1) =~= vals.skip(1).take(i - 1));
        assert(vals.skip(1)[i - 1] == vals[i]);
        assert(dns_labels_wire(vals.take(i + 1)) =~= dns_labels_wire(vals.take(i)) + seq![
            crate::args::buf_of(vals[i]).len() as u8,
        ] + crate::args::buf_of(vals[i]));
    }
}

pub fn name_def() -> (r: FuncDef)
    ensures
        r.body == FuncId::DnsNameFn,
{
    let mut args: Vec<ArgDesc> = Vec::new();
    args.push(ArgDesc { name: "complete", typ: ArgDecl::Optional(ValDef::Bool(true)) });
    FuncDef {
        name: "name",
        return_type: ValType::Str,
        args,
        min_args: 0,
        collect_type: ValType::Str,
        body: FuncId::DnsNameFn,
    }
}

/// The contract of `name_exec`, stated over the arguments before
/// the call and the state after it.
pub open spec fn name_exec_post(pre: Args, post: Args, r: Result<Val, Error>) -> bool {
    &&& (({
            let complete = crate::val::bool_of(crate::args::arg_at(pre.args@, 0));
            let tail = pre.extra@;
            &&& (complete && tail.len() == 0 ==> (r matches Ok(v) && v matches Val::Str(b) && b@
                == seq![0u8]))
            &&& (complete && tail.len() == 1 ==> (r matches Ok(v) && v matches Val::Str(b) && b@
                == crate::pkt::dns::dns_name_spec(crate::args::buf_of(tail[0]))))
            &&& (!(complete && tail.len() <= 1) ==> ((forall|i: int|
                0 <= i < tail.len() ==> crate::args::buf_of(#[trigger] tail[i]).len() <= 255)
                ==> (r matches Ok(v) && v matches Val::Str(b) && b@ == dns_labels_wire(tail) + (
                if complete {
                    seq![0u8]
                } else {
                    Seq::<u8>::empty()
                }))))
            &&& (!(complete && tail.len() <= 1) ==> ((exists|i: int|
                0 <= i < tail.len() && crate::args::buf_of(#[trigger] tail[i]).len() > 255) ==> r
                == Err::<Val, Error>(Error::RuntimeError)))
        }))
}

/// A DNS name from the variadic labels: with `complete`, no label
/// means the root, one label is parsed as a dotted name, and several
/// labels are encoded one by one and terminated.
#[verifier::loop_isolation(false)]
pub fn name_exec(args: &mut Args) -> (r: Result<Val, Error>)
    requires
        old(args).cursor == 0,
    ensures
        name_exec_post(*old(args), *final(args), r),
{
    let complete = args.next().as_bool();
    let v = args.collect_extra_bufs();
    let mut n = DnsName::new();
    if complete && v.len() == 0 {
        let root = DnsName::root();
        return Ok(Val::str(root.as_bytes()));
    }
    if complete && v.len() == 1 {
        let parsed = DnsName::from(v[0].as_slice());
        return Ok(Val::str(parsed.as_bytes()));
    }
    let mut i: usize = 0;
    proof {
        assert(args.extra@.take(0) =~= Seq::<Val>::empty());
    }
    while i < v.len()
        invariant
            0 <= i <= v@.len(),
            v@.len() == args.extra@.len(),
            forall|j: int|
                0 <= j < v@.len() ==> (#[trigger] v@[j])@ == crate::args::buf_of(args.extra@[j]),
            n@ == dns_labels_wire(args.extra@.take(i as int)),
            forall|j: int|
                0 <= j < i ==> crate::args::buf_of(#[trigger] args.extra@[j]).len() <= 255,
        decreases v@.len() - i,
    {
        let label = &v[i];
        if label.len() > 255 {
            return Err(Error::RuntimeError);
        }
        proof {
            lemma_labels_wire_snoc(args.extra@, i as int);
        }
        n.push(label.as_slice());
        i += 1;
    }
    proof {
        assert(args.extra@.take(args.extra@.len() as int) =~= args.extra@);
    }
    if complete {
        n.finish();
    }
    Ok(Val::str(n.as_bytes()))
}

pub fn pointer_def() -> (r: FuncDef)
    ensures
        r.body == FuncId::DnsPointer,
{
    let mut args: Vec<ArgDesc> = Vec::new();
    args.push(ArgDesc { name: "offset", typ: ArgDecl::Optional(ValDef::U16(0x0c)) });
    FuncDef {
        name: "pointer",
        return_type: ValType::Str,
        args,
        min_args: 0,
        collect_type: ValType::Void,
        body: FuncId::DnsPointer,
    }
}

/// The contract of `pointer_exec`, stated over the arguments before
/// the call and the state after it.
pub open spec fn pointer_exec_post(pre: Args, post: Args, r: Result<Val, Error>) -> bool {
    &&& ((r matches Ok(v) && v matches Val::Str(b) && b@ == crate::pkt::spec_be16(
            (crate::args::arg_at(pre.args@, 0).spec_int_val() as u16) | 0xc000,
        )))
}

/// A compression pointer to the given message offset.
pub fn pointer_exec(args: &mut Args) -> (r: Result<Val, Error>)
    requires
        old(args).cursor == 0,
    ensures
        pointer_exec_post(*old(args), *final(args), r),
{
    let offset = args.next().as_u16();
    let n = DnsName::compression_pointer(offset);
    Ok(Val::str(n.as_bytes()))
}

pub fn flags_def() -> (r: FuncDef)
    ensures
        r.body == FuncId::DnsFlagsFn,
{
    let mut args: Vec<ArgDesc> = Vec::new();
    args.push(ArgDesc { name: "opcode", typ: ArgDecl::Positional(ValType::U8) });
    args.push(ArgDesc { name: "response", typ: ArgDecl::Optional(ValDef::Bool(false)) });
    args.push(ArgDesc { name: "aa", typ: ArgDecl::Optional(ValDef::Bool(false)) });
    args.push(ArgDesc { name: "tc", typ: ArgDecl::Optional(ValDef::Bool(false)) });
    args.push(ArgDesc { name: "rd", typ: ArgDecl::Optional(ValDef::Bool(false)) });
    args.push(ArgDesc { name: "ra", typ: ArgDecl::Optional(ValDef::Bool(false)) });
    args.push(ArgDesc { name: "z", typ: ArgDecl::Optional(ValDef::Bool(false)) });
    args.push(ArgDesc { name: "ad", typ: ArgDecl::Optional(ValDef::Bool(false)) });
    args.push(ArgDesc { name: "cd", typ: ArgDecl::Optional(ValDef::Bool(false)) });
    args.push(ArgDesc { name: "rcode", typ: ArgDecl::Optional(ValDef::U8(0)) });
    FuncDef {
        name: "flags",
        return_type: ValType::U16,
        args,
        min_args: 1,
        collect_type: ValType::Void,
        body: FuncId::DnsFlagsFn,
    }
}

/// The contract of `flags_exec`, stated over the arguments before
/// the call and the state after it.
pub open spec fn flags_exec_post(pre: Args, post: Args, r: Result<Val, Error>) -> bool {
    &&& (r == Ok::<Val, Error>(Val::U16(crate::pkt::dns::dns_flags_word(DnsFlags {
            response: crate::val::bool_of(crate::args::arg_at(pre.args@, 1)),
            opcode: crate::args::arg_at(pre.args@, 0).spec_int_val() as u8,
            aa: crate::val::bool_of(crate::args::arg_at(pre.args@, 2)),
            tc: crate::val::bool_of(crate::args::arg_at(pre.args@, 3)),
            rd: crate::val::bool_of(crate::args::arg_at(pre.args@, 4)),
            ra: crate::val::bool_of(crate::args::arg_at(pre.args@, 5)),
            z: crate::val::bool_of(crate::args::arg_at(pre.args@, 6)),
            ad: crate::val::bool_of(crate::args::arg_at(pre.args@, 7)),
            cd: crate::val::bool_of(crate::args::arg_at(pre.args@, 8)),
            rcode: crate::args::arg_at(pre.args@, 9).spec_int_val() as u8,
        }))))
}

/// The sixteen-bit flags word from its fields.
pub fn flags_exec(args: &mut Args) -> (r: Result<Val, Error>)
    requires
        old(args).cursor == 0,
    ensures
        flags_exec_post(*old(args), *final(args), r),
{
    let opcode = args.next().as_u8();
    let response = args.next().as_bool();
    let aa = args.next().as_bool();
    let tc = args.next().as_bool();
    let rd = args.next().as_bool();
    let ra = args.next().as_bool();
    let z = args.next().as_bool();
    let ad = args.next().as_bool();
    let cd = args.next().as_bool();
    let rcode = args.next().as_u8();
    let w = DnsFlags {
        response,
        opcode,
        aa,
        tc,
        rd,
        ra,
        z,
        ad,
        cd,
        rcode,
    }.build();
    Ok(Val::U16(w))
}

pub fn hdr_def() -> (r: FuncDef)
    ensures
        r.body == FuncId::DnsHdr,
{
    let mut args: Vec<ArgDesc> = Vec::new();
    args.push(ArgDesc { name: "id", typ: ArgDecl::Positional(ValType::U16) });
    args.push(ArgDesc { name: "flags", typ: ArgDecl::Positional(ValType::U16) });
    args.push(ArgDesc { name: "qdcount", typ: ArgDecl::Optional(ValDef::U16(0)) });
    args.push(ArgDesc { name: "ancount", typ: ArgDecl::Optional(ValDef::U16(0)) });
    args.push(ArgDesc { name: "nscount", typ: ArgDecl::Optional(ValDef::U16(0)) });
    args.push(ArgDesc { name: "arcount", typ: ArgDecl::Optional(ValDef::U16(0)) });
    FuncDef {
        name: "hdr",
        return_type: ValType::Str,
        args,
        min_args: 2,
        collect_type: ValType::Void,
        body: FuncId::DnsHdr,
    }
}

/// The contract of `hdr_exec`, stated over the arguments before
/// the call and the state after it.
pub open spec fn hdr_exec_post(pre: Args, post: Args, r: Result<Val, Error>) -> bool {
    &&& ((r matches Ok(v) && v matches Val::Str(b) && b@ == (dns_hdr {
            id: crate::args::arg_at(pre.args@, 0).spec_int_val() as u16,
            flags: crate::args::arg_at(pre.args@, 1).spec_int_val() as u16,
            qdcount: crate::args::arg_at(pre.args@, 2).spec_int_val() as u16,
            ancount: crate::args::arg_at(pre.args@, 3).spec_int_val() as u16,
            nscount: crate::args::arg_at(pre.args@, 4).spec_int_val() as u16,
            arcount: crate::args::arg_at(pre.args@, 5).spec_int_val() as u16,
        }).wire()))
}

/// The twelve header bytes from the six fields.
pub fn hdr_exec(args: &mut Args) -> (r: Result<Val, Error>)
    requires
        old(args).cursor == 0,
    ensures
        hdr_exec_post(*old(args), *final(args), r),
{
    let id = args.next().as_u16();
    let flags = args.next().as_u16();
    let qdcount = args.next().as_u16();
    let ancount = args.next().as_u16();
    let nscount = args.next().as_u16();
    let arcount = args.next().as_u16();
    let hdr = dns_hdr { id, flags, qdcount, ancount, nscount, arcount };
    let bytes = hdr.write_bytes();
    Ok(Val::Str(Buf::from_vec(bytes)))
}

pub fn question_def() -> (r: FuncDef)
    ensures
        r.body == FuncId::DnsQuestion,
{
    let mut args: Vec<ArgDesc> = Vec::new();
    args.push(ArgDesc { name: "qname", typ: ArgDecl::Positional(ValType::Str) });
    args.push(ArgDesc { name: "qtype", typ: ArgDecl::Optional(ValDef::U16(1)) });
    args.push(ArgDesc { name: "qclass", typ: ArgDecl::Optional(ValDef::U16(1)) });
    FuncDef {
        name: "question",
        return_type: ValType::Str,
        args,
        min_args: 1,
        collect_type: ValType::Void,
        body: FuncId::DnsQuestion,
    }
}

/// The contract of `question_exec`, stated over the arguments before
/// the call and the state after it.
pub open spec fn question_exec_post(pre: Args, post: Args, r: Result<Val, Error>) -> bool {
    &&& ((r matches Ok(v) && v matches Val::Str(b) && b@ == crate::args::buf_of(crate::args::arg_at(pre.args@, 0))
            + crate::pkt::spec_be16(crate::args::arg_at(pre.args@, 1).spec_int_val() as u16) + crate::pkt::spec_be16(
            crate::args::arg_at(pre.args@, 2).spec_int_val() as u16,
        )))
}

/// An encoded name followed by query type and class.
pub fn question_exec(args: &mut Args) -> (r: Result<Val, Error>)
    requires
        old(args).cursor == 0,
    ensures
        question_exec_post(*old(args), *final(args), r),
{
    let name = args.next().as_buf();
    let qtype = args.next().as_u16();
    let qclass = args.next().as_u16();
    let mut q: Vec<u8> = Vec::new();
    put_bytes(&mut q, name.as_slice());
    put_be16(&mut q, qtype);
    put_be16(&mut q, qclass);
    Ok(Val::Str(Buf::from_vec(q)))
}

pub fn answer_def() -> (r: FuncDef)
    ensures
        r.body == FuncId::DnsAnswer,
{
    let mut args: Vec<ArgDesc> = Vec::new();
    args.push(ArgDesc { name: "aname", typ: ArgDecl::Positional(ValType::Str) });
    args.push(ArgDesc { name: "atype", typ: ArgDecl::Optional(ValDef::U16(1)) });
    args.push(ArgDesc { name: "aclass", typ: ArgDecl::Optional(ValDef::U16(1)) });
    args.push(ArgDesc { name: "ttl", typ: ArgDecl::Optional(ValDef::U32(229)) });
    FuncDef {
        name: "answer",
        return_type: ValType::Str,
        args,
        min_args: 1,
        collect_type: ValType::Str,
        body: FuncId::DnsAnswer,
    }
}

/// The contract of `answer_exec`, stated over the arguments before
/// the call and the state after it.
pub open spec fn answer_exec_post(pre: Args, post: Args, r: Result<Val, Error>) -> bool {
    &&& (({
            let data = crate::args::join_spec(pre.extra@, Seq::<u8>::empty());
            &&& (data.len() > 0xffff ==> r == Err::<Val, Error>(Error::RuntimeError))
            &&& (data.len() <= 0xffff ==> (r matches Ok(v) && v matches Val::Str(b) && b@
                == crate::args::buf_of(crate::args::arg_at(pre.args@, 0)) + crate::pkt::spec_be16(
                crate::args::arg_at(pre.args@, 1).spec_int_val() as u16,
            ) + crate::pkt::spec_be16(crate::args::arg_at(pre.args@, 2).spec_int_val() as u16)
                + crate::pkt::spec_be32(crate::args::arg_at(pre.args@, 3).spec_int_val() as u32)
                + crate::pkt::spec_be16(data.len() as u16) + data))
        }))
}

/// One resource record: name, type, class, TTL, then the joined tail
/// behind its length.
pub fn answer_exec(args: &mut Args) -> (r: Result<Val, Error>)
    requires
        old(args).cursor == 0,
    ensures
        answer_exec_post(*old(args), *final(args), r),
{
    let name = args.next().as_buf();
    let atype = args.next().as_u16();
    let aclass = args.next().as_u16();
    let ttl = args.next().as_u32();
    let sep: Vec<u8> = Vec::new();
    let data = args.join_extra(sep.as_slice()).as_buf();
    if data.len() > 0xffff {
        return Err(Error::RuntimeError);
    }
    let mut a: Vec<u8> = Vec::new();
    put_bytes(&mut a, name.as_slice());
    put_be16(&mut a, atype);
    put_be16(&mut a, aclass);
    put_be32(&mut a, ttl);
    put_be16(&mut a, data.len() as u16);
    put_bytes(&mut a, data.as_slice());
    Ok(Val::Str(Buf::from_vec(a)))
}

/// The query message of a host exchange: header, the encoded name,
/// then type A and class IN.
pub open spec fn host_query_msg(n: Seq<u8>) -> Seq<u8> {
    (dns_hdr {
        id: 0x1234,
        flags: crate::pkt::dns::dns_flags_word(DnsFlags {
            response: false,
            opcode: 0,
            aa: false,
            tc: false,
            rd: true,
            ra: false,
            z: false,
            ad: false,
            cd: false,
            rcode: 0,
        }),
        qdcount: 1,
        ancount: 0,
        nscount: 0,
        arcount: 0,
    }).wire() + n + crate::pkt::spec_be16(1) + crate::pkt::spec_be16(1)
}

/// One A record per result address, in order.
pub open spec fn host_answer_records(n: Seq<u8>, ttl: u32, results: Seq<Ip4Addr>) -> Seq<u8>
    decreases results.len(),
{
    if results.len() == 0 {
        Seq::<u8>::empty()
    } else {
        n + crate::pkt::spec_be16(1) + crate::pkt::spec_be16(1) + crate::pkt::spec_be32(ttl)
            + crate::pkt::spec_be16(4) + crate::pkt::spec_be32(results[0].bits)
            + host_answer_records(n, ttl, results.skip(1))
    }
}

/// Appending one more result extends the records by its record.
proof fn lemma_host_records_snoc(n: Seq<u8>, ttl: u32, results: Seq<Ip4Addr>, i: int)
    requires
        0 <= i < results.len(),
    ensures
        host_answer_records(n, ttl, results.take(i + 1)) == host_answer_records(
            n,
            ttl,
            results.take(i),
        ) + n + crate::pkt::spec_be16(1) + crate::pkt::spec_be16(1) + crate::pkt::spec_be32(ttl)
            + crate::pkt::spec_be16(4) + crate::pkt::spec_be32(results[i].bits),
    decreases i,
{
    if i == 0 {
        assert(results.take(0) =~= Seq::<Ip4Addr>::empty());
        assert(results.take(1)[0] == results[0]);
        assert(results.take(1).skip(1) =~= Seq::<Ip4Addr>::empty());
        assert(host_answer_records(n, ttl, results.take(1)) =~= host_answer_records(
            n,
            ttl,
            results.take(0),
        ) + n + crate::pkt::spec_be16(1) + crate::pkt::spec_be16(1) + crate::pkt::spec_be32(ttl)
            + crate::pkt::spec_be16(4) + crate::pkt::spec_be32(results[0].bits));
    } else {
        lemma_host_records_snoc(n, ttl, results.skip(1), i - 1);
        assert(results.take(i + 1)[0] == results[0]);
        assert(results.take(i)[0] == results[0]);
        assert(results.take(i + 1).skip(1) =~= results.skip(1).take(i));
        assert(results.take(i).skip(1) =~= results.skip(1).take(i - 1));
        assert(results.skip(1)[i - 1] == results[i]);
        assert(host_answer_records(n, ttl, results.take(i + 1)) =~= host_answer_records(
            n,
            ttl,
            results.take(i),
        ) + n + crate::pkt::spec_be16(1) + crate::pkt::spec_be16(1) + crate::pkt::spec_be32(ttl)
            + crate::pkt::spec_be16(4) + crate::pkt::spec_be32(results[i].bits));
    }
}

/// The records of a prefix never outgrow the records of the whole.
proof fn lemma_host_records_prefix_len(n: Seq<u8>, ttl: u32, results: Seq<Ip4Addr>, i: int)
    requires
        0 <= i <= results.len(),
    ensures
        host_answer_records(n, ttl, results.take(i)).len() <= host_answer_records(
            n,
            ttl,
            results,
        ).len(),
    decreases results.len() - i,
{
    if i == results.len() {
        assert(results.take(i) =~= results);
    } else {
        lemma_host_records_snoc(n, ttl, results, i);
        lemma_host_records_prefix_len(n, ttl, results, i + 1);
    }
}

/// The response message of a host exchange: header with the answer
/// count, the question, then the records.
pub open spec fn host_response_msg(n: Seq<u8>, ttl: u32, results: Seq<Ip4Addr>) -> Seq<u8> {
    (dns_hdr {
        id: 0x1234,
        flags: crate::pkt::dns::dns_flags_word(DnsFlags {
            response: true,
            opcode: 0,
            aa: false,
            tc: false,
            rd: false,
            ra: true,
            z: false,
            ad: false,
            cd: false,
            rcode: 0,
        }),
        qdcount: 1,
        ancount: results.len() as u16,
        nscount: 0,
        arcount: 0,
    }).wire() + n + crate::pkt::spec_be16(1) + crate::pkt::spec_be16(1) + host_answer_records(
        n,
        ttl,
        results,
    )
}

pub fn host_def() -> (r: FuncDef)
    ensures
        r.body == FuncId::DnsHost,
{
    let mut args: Vec<ArgDesc> = Vec::new();
    args.push(ArgDesc { name: "client", typ: ArgDecl::Positional(ValType::Ip4) });
    args.push(ArgDesc { name: "qname", typ: ArgDecl::Positional(ValType::Str) });
    args.push(ArgDesc { name: "ttl", typ: ArgDecl::Optional(ValDef::U32(229)) });
    args.push(
        ArgDesc { name: "ns", typ: ArgDecl::Optional(ValDef::Ip4(Ip4Addr { bits: 0x01010101 })) },
    );
    args.push(ArgDesc { name: "raw", typ: ArgDecl::Optional(ValDef::Bool(false)) });
    FuncDef {
        name: "host",
        return_type: ValType::PktGen,
        args,
        min_args: 2,
        collect_type: ValType::Ip4,
        body: FuncId::DnsHost,
    }
}

/// The contract of `host_exec`, stated over the arguments before
/// the call and the state after it.
pub open spec fn host_exec_post(pre: Args, post: Args, r: Result<Val, Error>) -> bool {
    &&& (({
            let cl = (Sock4 {
                ip: crate::val::ip4_of(crate::args::arg_at(pre.args@, 0)),
                port: 32768,
            });
            let sv = (Sock4 {
                ip: crate::val::ip4_of(crate::args::arg_at(pre.args@, 3)),
                port: 53,
            });
            let qn = crate::pkt::dns::dns_name_spec(
                crate::args::buf_of(crate::args::arg_at(pre.args@, 1)),
            );
            let ttl = crate::args::arg_at(pre.args@, 2).spec_int_val() as u32;
            let raw = crate::val::bool_of(crate::args::arg_at(pre.args@, 4));
            let results = Seq::new(
                pre.extra@.len(),
                |i: int| crate::val::ip4_of(pre.extra@[i]),
            );
            let qmsg = host_query_msg(qn);
            let rmsg = host_response_msg(qn, ttl, results);
            &&& (r matches Err(e) ==> e == Error::RuntimeError)
            &&& ((qmsg.len() <= 0xffff - 28 && results.len() <= 0xffff && rmsg.len() <= 0xffff
                - 28) <==> r is Ok)
            &&& (r matches Ok(v) ==> (v matches Val::PktGen(ps) && ps@.len() == 2 && ps@[0].content()
                == crate::ezpkt::udp4::udp_flow_pkt_content(cl, sv, raw, 0, true, qmsg)
                && ps@[1].content() == crate::ezpkt::udp4::udp_flow_pkt_content(
                sv,
                cl,
                raw,
                0,
                true,
                rmsg,
            )))
        }))
}

/// One query for an A record and its response carrying the variadic
/// addresses as answers.
#[verifier::loop_isolation(false)]
#[verifier::rlimit(100)]
pub fn host_exec(args: &mut Args) -> (r: Result<Val, Error>)
    requires
        old(args).cursor == 0,
    ensures
        host_exec_post(*old(args), *final(args), r),
{
    let client = args.next().as_ip4();
    let qname_buf = args.next().as_buf();
    let ttl = args.next().as_u32();
    let ns = args.next().as_ip4();
    let raw = args.next().as_bool();

    let qname = DnsName::from(qname_buf.as_slice());
    let ghost qn = qname@;

    let mut flow = UdpFlow::new(
        Sock4 { ip: client, port: 32768 },
        Sock4 { ip: ns, port: 53 },
        raw,
    );

    let mut pkts: Vec<Packet> = Vec::new();

    // the query
    let mut msg: Vec<u8> = Vec::new();
    let qflags = DnsFlags {
        response: false,
        opcode: 0,
        aa: false,
        tc: false,
        rd: true,
        ra: false,
        z: false,
        ad: false,
        cd: false,
        rcode: 0,
    }.build();
    let qh = dns_hdr { id: 0x1234, flags: qflags, qdcount: 1, ancount: 0, nscount: 0, arcount: 0 };
    let qhb = qh.write_bytes();
    put_bytes(&mut msg, qhb.as_slice());
    put_bytes(&mut msg, qname.as_bytes());
    put_be16(&mut msg, 1);
    put_be16(&mut msg, 1);
    proof {
        assert(msg@ =~= host_query_msg(qn));
    }
    if msg.len() > 0xffff - 28 {
        return Err(Error::RuntimeError);
    }
    let q_dgram = flow.client_dgram(msg.as_slice()).csum();
    proof {
        crate::ezpkt::udp4::lemma_flow_ip_refrag_zero(flow.cl, flow.sv, msg@.len() as int);
        q_dgram.lemma_content();
        assert(q_dgram.content_spec() =~= crate::ezpkt::udp4::udp_flow_pkt_content(
            flow.cl,
            flow.sv,
            raw,
            0,
            true,
            msg@,
        ));
    }
    pkts.push(q_dgram.into_packet());

    // the response
    let results = args.collect_extra_ips();
    let ghost results_spec = Seq::new(
        old(args).extra@.len(),
        |i: int| crate::val::ip4_of(old(args).extra@[i]),
    );
    proof {
        assert(results@ =~= results_spec);
    }
    if results.len() > 0xffff {
        return Err(Error::RuntimeError);
    }
    let mut msg2: Vec<u8> = Vec::new();
    let rflags = DnsFlags {
        response: true,
        opcode: 0,
        aa: false,
        tc: false,
        rd: false,
        ra: true,
        z: false,
        ad: false,
        cd: false,
        rcode: 0,
    }.build();
    let rh = dns_hdr {
        id: 0x1234,
        flags: rflags,
        qdcount: 1,
        ancount: results.len() as u16,
        nscount: 0,
        arcount: 0,
    };
    let rhb = rh.write_bytes();
    put_bytes(&mut msg2, rhb.as_slice());
    put_bytes(&mut msg2, qname.as_bytes());
    put_be16(&mut msg2, 1);
    put_be16(&mut msg2, 1);
    let ghost r_head = msg2@;
    proof {
        assert(results_spec.take(0) =~= Seq::<Ip4Addr>::empty());
        assert(host_response_msg(qn, ttl, results_spec) =~= r_head + host_answer_records(
            qn,
            ttl,
            results_spec,
        ));
    }
    let mut i: usize = 0;
    while i < results.len()
        invariant
            0 <= i <= results@.len(),
            msg2@ == r_head + host_answer_records(qn, ttl, results_spec.take(i as int)),
        decreases results@.len() - i,
    {
        if msg2.len() > 0x10000 {
            proof {
                lemma_host_records_prefix_len(qn, ttl, results_spec, i as int);
            }
            return Err(Error::RuntimeError);
        }
        proof {
            lemma_host_records_snoc(qn, ttl, results_spec, i as int);
        }
        put_bytes(&mut msg2, qname.as_bytes());
        put_be16(&mut msg2, 1);
        put_be16(&mut msg2, 1);
        put_be32(&mut msg2, ttl);
        put_be16(&mut msg2, 4);
        put_be32(&mut msg2, results[i].to_u32());
        proof {
            assert(msg2@ =~= r_head + host_answer_records(qn, ttl, results_spec.take(i + 1)));
        }
        i += 1;
    }
    proof {
        assert(results_spec.take(results_spec.len() as int) =~= results_spec);
        assert(msg2@ =~= host_response_msg(qn, ttl, results_spec));
    }
    if msg2.len() > 0xffff - 28 {
        return Err(Error::RuntimeError);
    }
    let r_dgram = flow.server_dgram(msg2.as_slice()).csum();
    proof {
        crate::ezpkt::udp4::lemma_flow_ip_refrag_zero(flow.sv, flow.cl, msg2@.len() as int);
        r_dgram.lemma_content();
        assert(r_dgram.content_spec() =~= crate::ezpkt::udp4::udp_flow_pkt_content(
            flow.sv,
            flow.cl,
            raw,
            0,
            true,
            msg2@,
        ));
    }
    pkts.push(r_dgram.into_packet());

    Ok(Val::PktGen(pkts))
}

/// The resolution model of this table.
pub open spec fn opcode_module_model() -> Seq<(Seq<char>, crate::sym::SymKind)> {
    seq![
        ("QUERY"@, crate::sym::SymKind::ValU8(0)),
        ("IQUERY"@, crate::sym::SymKind::ValU8(1)),
        ("STATUS"@, crate::sym::SymKind::ValU8(2)),
        ("NOTIFY"@, crate::sym::SymKind::ValU8(4)),
        ("UPDATE"@, crate::sym::SymKind::ValU8(5)),
        ("DSO"@, crate::sym::SymKind::ValU8(6)),
    ]
}

pub fn opcode_module() -> (r: Module)
    ensures
        forall|n: Seq<char>|
            crate::libapi::lookup_matches(
                #[trigger] crate::libapi::table_lookup(r.symtab@, n),
                crate::libapi::model_lookup(opcode_module_model(), n),
            ),
{
    let mut symtab: Vec<SymDesc> = Vec::new();
    symtab.push(SymDesc { name: "QUERY", sym: Symbol::u8(0) });
    symtab.push(SymDesc { name: "IQUERY", sym: Symbol::u8(1) });
    symtab.push(SymDesc { name: "STATUS", sym: Symbol::u8(2) });
    symtab.push(SymDesc { name: "NOTIFY", sym: Symbol::u8(4) });
    symtab.push(SymDesc { name: "UPDATE", sym: Symbol::u8(5) });
    symtab.push(SymDesc { name: "DSO", sym: Symbol::u8(6) });
    let r = Module { name: "opcode", symtab };
    proof {
        let m = opcode_module_model();
        assert(r.symtab@.len() == m.len());
        assert forall|i: int|
            0 <= i < r.symtab@.len() implies (#[trigger] r.symtab@[i]).name@ == m[i].0
            && crate::sym::kind_of(r.symtab@[i].sym) == m[i].1 by {
        }
        crate::libapi::lemma_table_model(r.symtab@, m);
    }
    r
}

/// The resolution model of this table.
pub open spec fn rcode_module_model() -> Seq<(Seq<char>, crate::sym::SymKind)> {
    seq![
        ("NOERROR"@, crate::sym::SymKind::ValU8(0)),
        ("FORMERR"@, crate::sym::SymKind::ValU8(1)),
        ("SERVFAIL"@, crate::sym::SymKind::ValU8(2)),
        ("NXDOMAIN"@, crate::sym::SymKind::ValU8(3)),
        ("NOTIMP"@, crate::sym::SymKind::ValU8(4)),
        ("REFUSED"@, crate::sym::SymKind::ValU8(5)),
        ("YXDOMAIN"@, crate::sym::SymKind::ValU8(6)),
        ("YXRRSET"@, crate::sym::SymKind::ValU8(7)),
        ("NXRRSET"@, crate::sym::SymKind::ValU8(8)),
        ("NOTAUTH"@, crate::sym::SymKind::ValU8(9)),
        ("NOTZONE"@, crate::sym::SymKind::ValU8(10)),
    ]
}

pub fn rcode_module() -> (r: Module)
    ensures
        forall|n: Seq<char>|
            crate::libapi::lookup_matches(
                #[trigger] crate::libapi::table_lookup(r.symtab@, n),
                crate::libapi::model_lookup(rcode_module_model(), n),
            ),
{
    let mut symtab: Vec<SymDesc> = Vec::new();
    symtab.push(SymDesc { name: "NOERROR", sym: Symbol::u8(0) });
    symtab.push(SymDesc { name: "FORMERR", sym: Symbol::u8(1) });
    symtab.push(SymDesc { name: "SERVFAIL", sym: Symbol::u8(2) });
    symtab.push(SymDesc { name: "NXDOMAIN", sym: Symbol::u8(3) });
    symtab.push(SymDesc { name: "NOTIMP", sym: Symbol::u8(4) });
    symtab.push(SymDesc { name: "REFUSED", sym: Symbol::u8(5) });
    symtab.push(SymDesc { name: "YXDOMAIN", sym: Symbol::u8(6) });
    symtab.push(SymDesc { name: "YXRRSET", sym: Symbol::u8(7) });
    symtab.push(SymDesc { name: "NXRRSET", sym: Symbol::u8(8) });
    symtab.push(SymDesc { name: "NOTAUTH", sym: Symbol::u8(9) });
    symtab.push(SymDesc { name: "NOTZONE", sym: Symbol::u8(10) });
    let r = Module { name: "rcode", symtab };
    proof {
        let m = rcode_module_model();
        assert(r.symtab@.len() == m.len());
        assert forall|i: int|
            0 <= i < r.symtab@.len() implies (#[trigger] r.symtab@[i]).name@ == m[i].0
            && crate::sym::kind_of(r.symtab@[i].sym) == m[i].1 by {
        }
        crate::libapi::lemma_table_model(r.symtab@, m);
    }
    r
}

/// The resolution model of this table.
pub open spec fn rtype_module_model() -> Seq<(Seq<char>, crate::sym::SymKind)> {
    seq![
        ("A"@, crate::sym::SymKind::ValU16(1)),
        ("NS"@, crate::sym::SymKind::ValU16(2)),
        ("CNAME"@, crate::sym::SymKind::ValU16(5)),
        ("SOA"@, crate::sym::SymKind::ValU16(6)),
        ("PTR"@, crate::sym::SymKind::ValU16(12)),
        ("MX"@, crate::sym::SymKind::ValU16(15)),
        ("TXT"@, crate::sym::SymKind::ValU16(16)),
        ("AAAA"@, crate::sym::SymKind::ValU16(28)),
        ("SRV"@, crate::sym::SymKind::ValU16(33)),
        ("OPT"@, crate::sym::SymKind::ValU16(41)),
        ("AXFR"@, crate::sym::SymKind::ValU16(252)),
        ("ALL"@, crate::sym::SymKind::ValU16(255)),
    ]
}

pub fn rtype_module() -> (r: Module)
    ensures
        forall|n: Seq<char>|
            crate::libapi::lookup_matches(
                #[trigger] crate::libapi::table_lookup(r.symtab@, n),
                crate::libapi::model_lookup(rtype_module_model(), n),
            ),
{
    let mut symtab: Vec<SymDesc> = Vec::new();
    symtab.push(SymDesc { name: "A", sym: Symbol::u16(1) });
    symtab.push(SymDesc { name: "NS", sym: Symbol::u16(2) });
    symtab.push(SymDesc { name: "CNAME", sym: Symbol::u16(5) });
    symtab.push(SymDesc { name: "SOA", sym: Symbol::u16(6) });
    symtab.push(SymDesc { name: "PTR", sym: Symbol::u16(12) });
    symtab.push(SymDesc { name: "MX", sym: Symbol::u16(15) });
    symtab.push(SymDesc { name: "TXT", sym: Symbol::u16(16) });
    symtab.push(SymDesc { name: "AAAA", sym: Symbol::u16(28) });
    symtab.push(SymDesc { name: "SRV", sym: Symbol::u16(33) });
    symtab.push(SymDesc { name: "OPT", sym: Symbol::u16(41) });
    symtab.push(SymDesc { name: "AXFR", sym: Symbol::u16(252) });
    symtab.push(SymDesc { name: "ALL", sym: Symbol::u16(255) });
    let r = Module { name: "rtype", symtab };
    proof {
        let m = rtype_module_model();
        assert(r.symtab@.len() == m.len());
        assert forall|i: int|
            0 <= i < r.symtab@.len() implies (#[trigger] r.symtab@[i]).name@ == m[i].0
            && crate::sym::kind_of(r.symtab@[i].sym) == m[i].1 by {
        }
        crate::libapi::lemma_table_model(r.symtab@, m);
    }
    r
}

/// The resolution model of this table.
pub open spec fn class_module_model() -> Seq<(Seq<char>, crate::sym::SymKind)> {
    seq![
        ("IN"@, crate::sym::SymKind::ValU16(1)),
        ("CS"@, crate::sym::SymKind::ValU16(2)),
        ("CH"@, crate::sym::SymKind::ValU16(3)),
        ("HS"@, crate::sym::SymKind::ValU16(4)),
        ("ANY"@, crate::sym::SymKind::ValU16(255)),
    ]
}

pub fn class_module() -> (r: Module)
    ensures
        forall|n: Seq<char>|
            crate::libapi::lookup_matches(
                #[trigger] crate::libapi::table_lookup(r.symtab@, n),
                crate::libapi::model_lookup(class_module_model(), n),
            ),
{
    let mut symtab: Vec<SymDesc> = Vec::new();
    symtab.push(SymDesc { name: "IN", sym: Symbol::u16(1) });
    symtab.push(SymDesc { name: "CS", sym: Symbol::u16(2) });
    symtab.push(SymDesc { name: "CH", sym: Symbol::u16(3) });
    symtab.push(SymDesc { name: "HS", sym: Symbol::u16(4) });
    symtab.push(SymDesc { name: "ANY", sym: Symbol::u16(255) });
    let r = Module { name: "class", symtab };
    proof {
        let m = class_module_model();
        assert(r.symtab@.len() == m.len());
        assert forall|i: int|
            0 <= i < r.symtab@.len() implies (#[trigger] r.symtab@[i]).name@ == m[i].0
            && crate::sym::kind_of(r.symtab@[i].sym) == m[i].1 by {
        }
        crate::libapi::lemma_table_model(r.symtab@, m);
    }
    r
}

/// The resolution model of this table.
pub open spec fn module_def_model() -> Seq<(Seq<char>, crate::sym::SymKind)> {
    seq![
        ("opcode"@, crate::sym::SymKind::Module(crate::stdlib::ModuleId::DnsOpcode)),
        ("rcode"@, crate::sym::SymKind::Module(crate::stdlib::ModuleId::DnsRcode)),
        ("rtype"@, crate::sym::SymKind::Module(crate::stdlib::ModuleId::DnsRtype)),
        ("qtype"@, crate::sym::SymKind::Module(crate::stdlib::ModuleId::DnsRtype)),
        ("class"@, crate::sym::SymKind::Module(crate::stdlib::ModuleId::DnsClass)),
        ("flags"@, crate::sym::SymKind::Func(crate::stdlib::FuncId::DnsFlagsFn)),
        ("hdr"@, crate::sym::SymKind::Func(crate::stdlib::FuncId::DnsHdr)),
        ("name"@, crate::sym::SymKind::Func(crate::stdlib::FuncId::DnsNameFn)),
        ("pointer"@, crate::sym::SymKind::Func(crate::stdlib::FuncId::DnsPointer)),
        ("question"@, crate::sym::SymKind::Func(crate::stdlib::FuncId::DnsQuestion)),
        ("answer"@, crate::sym::SymKind::Func(crate::stdlib::FuncId::DnsAnswer)),
        ("host"@, crate::sym::SymKind::Func(crate::stdlib::FuncId::DnsHost)),
    ]
}

pub fn module_def() -> (r: Module)
    ensures
        forall|n: Seq<char>|
            crate::libapi::lookup_matches(
                #[trigger] crate::libapi::table_lookup(r.symtab@, n),
                crate::libapi::model_lookup(module_def_model(), n),
            ),
{
    let mut symtab: Vec<SymDesc> = Vec::new();
    symtab.push(SymDesc { name: "opcode", sym: Symbol::Module(ModuleId::DnsOpcode) });
    symtab.push(SymDesc { name: "rcode", sym: Symbol::Module(ModuleId::DnsRcode) });
    symtab.push(SymDesc { name: "rtype", sym: Symbol::Module(ModuleId::DnsRtype) });
    symtab.push(SymDesc { name: "qtype", sym: Symbol::Module(ModuleId::DnsRtype) });
    symtab.push(SymDesc { name: "class", sym: Symbol::Module(ModuleId::DnsClass) });
    symtab.push(SymDesc { name: "flags", sym: Symbol::Func(FuncId::DnsFlagsFn) });
    symtab.push(SymDesc { name: "hdr", sym: Symbol::Func(FuncId::DnsHdr) });
    symtab.push(SymDesc { name: "name", sym: Symbol::Func(FuncId::DnsNameFn) });
    symtab.push(SymDesc { name: "pointer", sym: Symbol::Func(FuncId::DnsPointer) });
    symtab.push(SymDesc { name: "question", sym: Symbol::Func(FuncId::DnsQuestion) });
    symtab.push(SymDesc { name: "answer", sym: Symbol::Func(FuncId::DnsAnswer) });
    symtab.push(SymDesc { name: "host", sym: Symbol::Func(FuncId::DnsHost) });
    let r = Module { name: "dns", symtab };
    proof {
        let m = module_def_model();
        assert(r.symtab@.len() == m.len());
        assert forall|i: int|
            0 <= i < r.symtab@.len() implies (#[trigger] r.symtab@[i]).name@ == m[i].0
            && crate::sym::kind_of(r.symtab@[i].sym) == m[i].1 by {
        }
        crate::libapi::lemma_table_model(r.symtab@, m);
    }
    r
}

} // verus!
