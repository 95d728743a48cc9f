use vstd::prelude::*;
use crate::ezpkt::{
    Erspan1Flow, Erspan2Flow, GreFlow, IcmpFlow, IpFrag, TcpFlow, UdpFlow, VxlanFlow,
};
use crate::pkt::packet::Packet;
use crate::stdlib::io::BufIo;
use crate::stdlib::{class_def, ClassId};
use crate::sym::Symbol;

verus! {

/// A runtime-polymorphic flow object: one case per stateful session
/// kind the library offers.
#[derive(Debug)]
pub enum ObjRef {
    Tcp(TcpFlow),
    Udp(UdpFlow),
    Icmp(IcmpFlow),
    Gre(GreFlow),
    Vxlan(VxlanFlow),
    Erspan1(Erspan1Flow),
    Erspan2(Erspan2Flow),
    IpFrag(IpFrag),
    BufIo(BufIo),
}

/// Object equality: same kind, equal state.
pub open spec fn obj_eq_spec(a: ObjRef, b: ObjRef) -> bool {
    match (a, b) {
        (ObjRef::Tcp(x), ObjRef::Tcp(y)) => x.cl == y.cl && x.sv == y.sv && x.cl_seq == y.cl_seq
            && x.sv_seq == y.sv_seq && x.raw == y.raw && crate::ezpkt::tcp4::pkts_eq_spec(
            x.pkts@,
            y.pkts@,
        ),
        (ObjRef::Udp(x), ObjRef::Udp(y)) => x == y,
        (ObjRef::Icmp(x), ObjRef::Icmp(y)) => x == y,
        (ObjRef::Gre(x), ObjRef::Gre(y)) => x == y,
        (ObjRef::Vxlan(x), ObjRef::Vxlan(y)) => x == y,
        (ObjRef::Erspan1(x), ObjRef::Erspan1(y)) => x == y,
        (ObjRef::Erspan2(x), ObjRef::Erspan2(y)) => x == y,
        (ObjRef::IpFrag(x), ObjRef::IpFrag(y)) => x.hdr == y.hdr && x.payload@ == y.payload@,
        (ObjRef::BufIo(x), ObjRef::BufIo(y)) => x.buf@ == y.buf@ && x.taken == y.taken,
        _ => false,
    }
}

impl PartialEq for ObjRef {
    fn eq(&self, other: &Self) -> (r: bool) {
        match (self, other) {
            (ObjRef::Tcp(x), ObjRef::Tcp(y)) => x == y,
            (ObjRef::Udp(x), ObjRef::Udp(y)) => x == y,
            (ObjRef::Icmp(x), ObjRef::Icmp(y)) => x == y,
            (ObjRef::Gre(x), ObjRef::Gre(y)) => x == y,
            (ObjRef::Vxlan(x), ObjRef::Vxlan(y)) => x == y,
            (ObjRef::Erspan1(x), ObjRef::Erspan1(y)) => x == y,
            (ObjRef::Erspan2(x), ObjRef::Erspan2(y)) => x == y,
            (ObjRef::IpFrag(x), ObjRef::IpFrag(y)) => x == y,
            (ObjRef::BufIo(x), ObjRef::BufIo(y)) => x == y,
            _ => false,
        }
    }
}

impl vstd::std_specs::cmp::PartialEqSpecImpl for ObjRef {
    open spec fn obeys_eq_spec() -> bool {
        true
    }

    open spec fn eq_spec(&self, other: &ObjRef) -> bool {
        obj_eq_spec(*self, *other)
    }
}

impl Eq for ObjRef {}

/// Clone a packet list, keeping each packet's bytes.
pub fn clone_packets(ps: &Vec<Packet>) -> (r: Vec<Packet>)
    ensures
        crate::ezpkt::tcp4::pkts_eq_spec(r@, ps@),
{
    let mut r: Vec<Packet> = Vec::new();
    let mut i: usize = 0;
    while i < ps.len()
        invariant
            0 <= i <= ps@.len(),
            r@.len() == i,
            forall|j: int|
                0 <= j < i ==> (#[trigger] r@[j]).buf@ == ps@[j].buf@ && r@[j].headroom
                    == ps@[j].headroom,
        decreases ps@.len() - i,
    {
        let p = (&ps[i]).clone();
        r.push(p);
        i += 1;
    }
    r
}

impl Clone for ObjRef {
    fn clone(&self) -> (r: Self)
        ensures
            obj_eq_spec(r, *self),
    {
        match self {
            ObjRef::Tcp(x) => ObjRef::Tcp(
                TcpFlow {
                    cl: x.cl,
                    sv: x.sv,
                    cl_seq: x.cl_seq,
                    sv_seq: x.sv_seq,
                    raw: x.raw,
                    pkts: clone_packets(&x.pkts),
                },
            ),
            ObjRef::Udp(x) => ObjRef::Udp(*x),
            ObjRef::Icmp(x) => ObjRef::Icmp(*x),
            ObjRef::Gre(x) => ObjRef::Gre(*x),
            ObjRef::Vxlan(x) => ObjRef::Vxlan(*x),
            ObjRef::Erspan1(x) => ObjRef::Erspan1(*x),
            ObjRef::Erspan2(x) => ObjRef::Erspan2(*x),
            ObjRef::IpFrag(x) => ObjRef::IpFrag(
                IpFrag { hdr: x.hdr, payload: crate::strbuf::clone_bytes(&x.payload) },
            ),
            ObjRef::BufIo(x) => ObjRef::BufIo(
                BufIo { buf: crate::strbuf::clone_bytes(&x.buf), taken: x.taken },
            ),
        }
    }
}

impl ObjRef {
    /// The class this object dispatches through.
    pub open spec fn spec_class_id(&self) -> ClassId {
        match self {
            ObjRef::Tcp(_) => ClassId::TcpFlow,
            ObjRef::Udp(_) => ClassId::UdpFlow,
            ObjRef::Icmp(_) => ClassId::Icmp,
            ObjRef::Gre(_) => ClassId::Gre,
            ObjRef::Vxlan(_) => ClassId::Vxlan,
            ObjRef::Erspan1(_) => ClassId::Erspan1,
            ObjRef::Erspan2(_) => ClassId::Erspan2,
            ObjRef::IpFrag(_) => ClassId::IpFrag,
            ObjRef::BufIo(_) => ClassId::BufIo,
        }
    }

    pub fn class_id(&self) -> (r: ClassId)
        ensures
            r == self.spec_class_id(),
    {
        match self {
            ObjRef::Tcp(_) => ClassId::TcpFlow,
            ObjRef::Udp(_) => ClassId::UdpFlow,
            ObjRef::Icmp(_) => ClassId::Icmp,
            ObjRef::Gre(_) => ClassId::Gre,
            ObjRef::Vxlan(_) => ClassId::Vxlan,
            ObjRef::Erspan1(_) => ClassId::Erspan1,
            ObjRef::Erspan2(_) => ClassId::Erspan2,
            ObjRef::IpFrag(_) => ClassId::IpFrag,
            ObjRef::BufIo(_) => ClassId::BufIo,
        }
    }

    /// Resolve a method or constant on this object's class: exactly
    /// what the class's resolution model holds under the name.
    pub fn lookup_symbol(&self, name: &str) -> (r: Option<Symbol>)
        ensures
            match crate::libapi::model_lookup(
                crate::stdlib::class_model(self.spec_class_id()),
                name@,
            ) {
                Some(k) => (r matches Some(s) && crate::sym::kind_of(s) == k),
                None => r is None,
            },
    {
        class_def(self.class_id()).get(name)
    }
}

} // verus!
