#![allow(non_camel_case_types)]

use vstd::prelude::*;
use crate::pkt::{Ip4Addr, Serialize};

verus! {

pub const ETHERTYPE_VLAN: u16 = 0x8100;
pub const ETHERTYPE_FABRICPATH: u16 = 0x8903;
pub const ETHERTYPE_IPV4: u16 = 0x0800;
pub const ETHERTYPE_IPV6: u16 = 0x86dd;
pub const ETHERTYPE_PPTP: u16 = 0x880b;
pub const ETHERTYPE_GRETAP: u16 = 0x6558;
pub const ETHERTYPE_ERSPAN_1_2: u16 = 0x88be;
pub const ETHERTYPE_ERSPAN_3: u16 = 0x22eb;

/// A 48-bit hardware address.
#[derive(Debug, Copy, Clone)]
pub struct eth_addr {
    pub octets: [u8; 6],
}

impl PartialEq for eth_addr {
    fn eq(&self, other: &Self) -> (r: bool) {
        let r = self.octets[0] == other.octets[0] && self.octets[1] == other.octets[1]
            && self.octets[2] == other.octets[2] && self.octets[3] == other.octets[3]
            && self.octets[4] == other.octets[4] && self.octets[5] == other.octets[5];
        proof {
            if r {
                assert(self.octets@ =~= other.octets@);
            }
        }
        r
    }
}

impl vstd::std_specs::cmp::PartialEqSpecImpl for eth_addr {
    open spec fn obeys_eq_spec() -> bool {
        true
    }

    open spec fn eq_spec(&self, other: &eth_addr) -> bool {
        self.octets@ == other.octets@
    }
}

impl Eq for eth_addr {}

/// The wire image of a frame header whose addresses are derived from
/// the given IPv4 endpoints.
pub open spec fn eth_pair_wire(src: Ip4Addr, dst: Ip4Addr) -> Seq<u8> {
    seq![0x00u8, 0x02u8] + crate::pkt::spec_be32(dst.bits) + seq![0x00u8, 0x02u8]
        + crate::pkt::spec_be32(src.bits) + crate::pkt::spec_be16(ETHERTYPE_IPV4)
}

/// The broadcast hardware address: all-ones.
pub open spec fn spec_broadcast() -> Seq<u8> {
    seq![0xffu8, 0xffu8, 0xffu8, 0xffu8, 0xffu8, 0xffu8]
}

impl eth_addr {
    pub fn new(octets: [u8; 6]) -> (r: eth_addr)
        ensures
            r.octets@ == octets@,
    {
        eth_addr { octets }
    }

    /// A locally-administered address carrying the IPv4 address in its
    /// last four octets.
    pub fn from_ip(addr: Ip4Addr) -> (r: eth_addr)
        ensures
            r.wire() == seq![0x00u8, 0x02u8] + crate::pkt::spec_be32(addr.bits),
    {
        let b = addr.bits;
        let r = eth_addr {
            octets: [
                0x00,
                0x02,
                (b / 0x1000000) as u8,
                ((b / 0x10000) % 256) as u8,
                ((b / 256) % 256) as u8,
                (b % 256) as u8,
            ],
        };
        assert(r.octets@ =~= seq![0x00u8, 0x02u8] + crate::pkt::spec_be32(addr.bits));
        r
    }

    pub fn broadcast() -> (r: eth_addr)
        ensures
            r.wire() == spec_broadcast(),
    {
        let r = eth_addr { octets: [0xff, 0xff, 0xff, 0xff, 0xff, 0xff] };
        assert(r.octets@ =~= spec_broadcast());
        r
    }
}

impl Default for eth_addr {
    fn default() -> (r: Self)
        ensures
            r.wire() == Seq::new(6, |i: int| 0u8),
    {
        let r = eth_addr { octets: [0, 0, 0, 0, 0, 0] };
        assert(r.octets@ =~= Seq::new(6, |i: int| 0u8));
        r
    }
}

impl Serialize for eth_addr {
    open spec fn wire(&self) -> Seq<u8> {
        self.octets@
    }

    fn write_bytes(&self) -> (r: Vec<u8>)
        ensures
            r@ == self.wire(),
    {
        let mut v: Vec<u8> = Vec::new();
        v.push(self.octets[0]);
        v.push(self.octets[1]);
        v.push(self.octets[2]);
        v.push(self.octets[3]);
        v.push(self.octets[4]);
        v.push(self.octets[5]);
        assert(v@ =~= self.octets@);
        v
    }
}

/// An Ethernet II frame header: destination, source, ethertype.
#[derive(Debug, Copy, Clone)]
pub struct eth_hdr {
    pub dst: eth_addr,
    pub src: eth_addr,
    pub proto: u16,
}

impl PartialEq for eth_hdr {
    fn eq(&self, other: &Self) -> (r: bool) {
        self.dst == other.dst && self.src == other.src && self.proto == other.proto
    }
}

impl vstd::std_specs::cmp::PartialEqSpecImpl for eth_hdr {
    open spec fn obeys_eq_spec() -> bool {
        true
    }

    open spec fn eq_spec(&self, other: &eth_hdr) -> bool {
        self.dst.octets@ == other.dst.octets@ && self.src.octets@ == other.src.octets@
            && self.proto == other.proto
    }
}

impl Eq for eth_hdr {}

impl eth_hdr {
    pub open spec fn size_of() -> usize {
        14
    }

    pub fn new(src: eth_addr, dst: eth_addr, proto: u16) -> (r: eth_hdr)
        ensures
            r.dst == dst,
            r.src == src,
            r.proto == proto,
    {
        eth_hdr { dst, src, proto }
    }

    pub fn with_proto(proto: u16) -> (r: eth_hdr)
        ensures
            r.dst.wire() == Seq::new(6, |i: int| 0u8),
            r.src.wire() == Seq::new(6, |i: int| 0u8),
            r.proto == proto,
    {
        eth_hdr { dst: eth_addr::default(), src: eth_addr::default(), proto }
    }

    pub fn dst_from_ip(&mut self, addr: Ip4Addr)
        ensures
            final(self).dst.wire() == seq![0x00u8, 0x02u8] + crate::pkt::spec_be32(addr.bits),
            final(self).src == old(self).src,
            final(self).proto == old(self).proto,
    {
        self.dst = eth_addr::from_ip(addr);
    }

    pub fn src_from_ip(&mut self, addr: Ip4Addr)
        ensures
            final(self).src.wire() == seq![0x00u8, 0x02u8] + crate::pkt::spec_be32(addr.bits),
            final(self).dst == old(self).dst,
            final(self).proto == old(self).proto,
    {
        self.src = eth_addr::from_ip(addr);
    }

    pub fn set_proto(&mut self, proto: u16)
        ensures
            final(self).proto == proto,
            final(self).dst == old(self).dst,
            final(self).src == old(self).src,
    {
        self.proto = proto;
    }

    pub fn set_broadcast(&mut self)
        ensures
            final(self).dst.wire() == spec_broadcast(),
            final(self).src == old(self).src,
            final(self).proto == old(self).proto,
    {
        self.dst = eth_addr::broadcast();
    }
}

impl Default for eth_hdr {
    fn default() -> (r: Self)
        ensures
            r.dst.wire() == Seq::new(6, |i: int| 0u8),
            r.src.wire() == Seq::new(6, |i: int| 0u8),
            r.proto == 0,
    {
        eth_hdr { dst: eth_addr::default(), src: eth_addr::default(), proto: 0 }
    }
}

impl Serialize for eth_hdr {
    open spec fn wire(&self) -> Seq<u8> {
        self.dst.wire() + self.src.wire() + crate::pkt::spec_be16(self.proto)
    }

    fn write_bytes(&self) -> (r: Vec<u8>)
        ensures
            r@ == self.wire(),
    {
        let mut v = self.dst.write_bytes();
        let src = self.src.write_bytes();
        crate::pkt::put_bytes(&mut v, src.as_slice());
        crate::pkt::put_be16(&mut v, self.proto);
        assert(v@ =~= self.wire());
        v
    }
}

} // verus!
