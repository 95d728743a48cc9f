use vstd::prelude::*;
use crate::pkt::eth::{eth_hdr, eth_addr, ETHERTYPE_IPV4};
use crate::pkt::ipv4::{ip_hdr, IP_MF};
use crate::pkt::packet::{lemma_splice_parts, Hdr, Packet};
use crate::pkt::{spec_be32, Serialize};

verus! {

/// The Ethernet header of a raw IP datagram; both hardware addresses
/// are derived from the template's source address.
pub open spec fn ip_dgram_eth(saddr: u32) -> Seq<u8> {
    seq![0x00u8, 0x02u8] + spec_be32(saddr) + seq![0x00u8, 0x02u8] + spec_be32(saddr)
        + crate::pkt::spec_be16(ETHERTYPE_IPV4)
}

/// The fragment word of a fragment at `off` 8-byte units: the offset
/// is merged over the template's flag bits, then MF is set or cleared.
pub open spec fn frag_word(template: u16, off: u16, mf: bool) -> u16 {
    let merged = (off | (template & 0xe000)) as u16;
    if mf {
        (merged | IP_MF) as u16
    } else {
        (merged & !IP_MF) as u16
    }
}

/// The IPv4 header of a fragment: the template with the fragment word
/// and total length set and the checksum recomputed.
pub open spec fn frag_ip(template: ip_hdr, off: u16, mf: bool, n: int) -> ip_hdr {
    (ip_hdr {
        tot_len: (20 + n) as u16,
        frag_off: frag_word(template.frag_off, off, mf),
        ..template
    }).recalc()
}

/// The complete on-wire bytes of a fragment datagram.
pub open spec fn frag_packet_content(template: ip_hdr, off: u16, mf: bool, content: Seq<u8>) -> Seq<
    u8,
> {
    ip_dgram_eth(template.saddr) + frag_ip(template, off, mf, content.len() as int).wire() + content
}

/// Helper for creating plain IP datagrams around an opaque payload.
#[derive(Debug)]
pub struct IpDgram {
    pub pkt: Packet,
    pub eth: eth_hdr,
    pub ip: ip_hdr,
}

impl IpDgram {
    pub open spec fn payload(&self) -> Seq<u8> {
        self.pkt.buf@.skip(50)
    }

    pub open spec fn wf(&self) -> bool {
        &&& self.pkt.wf()
        &&& self.pkt.headroom == 16
        &&& 50 <= self.pkt.buf@.len()
        &&& self.pkt.buf@.subrange(16, 30) == self.eth.wire()
        &&& self.pkt.buf@.subrange(30, 50) == self.ip.wire()
        &&& self.ip.tot_len == 20 + self.payload().len()
    }

    /// A datagram holding the template header and the given payload;
    /// the total length is set to cover the payload.
    pub fn new(iph: ip_hdr, payload: &[u8]) -> (r: IpDgram)
        requires
            payload@.len() <= 0xffff - 20,
        ensures
            r.wf(),
            r.eth.wire() == ip_dgram_eth(iph.saddr),
            r.ip == (ip_hdr { tot_len: (20 + payload@.len()) as u16, ..iph }),
            r.payload() == payload@,
    {
        let mut pkt = Packet::with_capacity(34 + payload.len());
        let e = eth_hdr::new(
            eth_addr::from_ip(iph.get_saddr()),
            eth_addr::from_ip(iph.get_saddr()),
            ETHERTYPE_IPV4,
        );
        proof {
            assert(e.wire().len() == 14);
            assert(e.wire() =~= ip_dgram_eth(iph.saddr));
        }
        pkt.push(e);
        let mut ip = iph;
        ip.set_tot_len((payload.len() as u16) + 20);
        proof {
            assert(ip.wire().len() == 20);
        }
        pkt.push(ip);
        pkt.push_bytes(payload);
        let r = IpDgram { pkt, eth: e, ip };
        proof {
            assert(r.payload() =~= payload@);
            assert(r.pkt.buf@.subrange(16, 30) =~= e.wire());
            assert(r.pkt.buf@.subrange(30, 50) =~= ip.wire());
        }
        r
    }

    /// Set the fragment offset and more-fragments flag, and recompute
    /// the checksum.
    pub fn frag(self, frag_off: u16, mf: bool) -> (r: IpDgram)
        requires
            self.wf(),
        ensures
            r.wf(),
            r.eth == self.eth,
            r.ip == (ip_hdr {
                frag_off: frag_word(self.ip.frag_off, frag_off, mf),
                ..self.ip
            }).recalc(),
            r.payload() == self.payload(),
    {
        let mut s = self;
        s.ip.set_frag_off(frag_off);
        s.ip.set_mf(mf);
        s.ip.calc_csum();
        proof {
            assert(s.ip.wire().len() == 20);
        }
        let ghost b0 = s.pkt.buf@;
        let ip = s.ip;
        s.pkt.set(Hdr { off: 30, len: 20 }, &ip);
        proof {
            lemma_splice_parts(b0, 30, s.ip.wire());
            assert(s.payload() =~= self.payload());
            assert(s.pkt.buf@.subrange(16, 30) =~= self.eth.wire());
            assert(s.pkt.buf@.subrange(30, 50) =~= s.ip.wire());
        }
        s
    }

    /// Consume the builder, yielding the finished packet.
    pub fn into_packet(self) -> (r: Packet)
        ensures
            r == self.pkt,
    {
        self.pkt
    }
}

/// A captured datagram template plus payload, from which arbitrary
/// fragments can be cut.
#[derive(Debug)]
pub struct IpFrag {
    pub hdr: ip_hdr,
    pub payload: Vec<u8>,
}

impl PartialEq for IpFrag {
    fn eq(&self, other: &Self) -> (r: bool) {
        self.hdr == other.hdr && crate::strbuf::bytes_eq(
            self.payload.as_slice(),
            other.payload.as_slice(),
        )
    }
}

impl vstd::std_specs::cmp::PartialEqSpecImpl for IpFrag {
    open spec fn obeys_eq_spec() -> bool {
        true
    }

    open spec fn eq_spec(&self, other: &IpFrag) -> bool {
        self.hdr == other.hdr && self.payload@ == other.payload@
    }
}

impl Eq for IpFrag {}

impl IpFrag {
    pub fn new(hdr: ip_hdr, payload: Vec<u8>) -> (r: IpFrag)
        ensures
            r.hdr == hdr,
            r.payload@ == payload@,
    {
        IpFrag { hdr, payload }
    }

    /// The byte range a fragment request covers, clipped to the end of
    /// the payload. Offset and length are in 8-byte units.
    pub open spec fn frag_range(&self, off: u16, len: u16) -> (int, int) {
        let byte_off = off * 8;
        let byte_end = byte_off + len * 8;
        (
            byte_off as int,
            if byte_end > self.payload@.len() {
                self.payload@.len() as int
            } else {
                byte_end as int
            },
        )
    }

    /// Cut one fragment. `off` and `len` are in 8-byte units; the
    /// range is clipped to the payload, and MF is set exactly when the
    /// fragment stops short of the end.
    pub fn fragment(&self, off: u16, len: u16) -> (r: Packet)
        requires
            off * 8 <= self.payload@.len(),
            self.payload@.len() <= 0xffff - 20,
        ensures
            r.wf(),
            r.headroom == 16,
            r.content() == frag_packet_content(
                self.hdr,
                off,
                self.frag_range(off, len).1 != self.payload@.len(),
                self.payload@.subrange(self.frag_range(off, len).0, self.frag_range(off, len).1),
            ),
    {
        let byte_off: usize = (off as usize) * 8;
        let byte_len: usize = (len as usize) * 8;
        let byte_end: usize = byte_off + byte_len;
        let end: usize = if byte_end < self.payload.len() {
            byte_end
        } else {
            self.payload.len()
        };
        let mut content: Vec<u8> = Vec::new();
        let mut i: usize = byte_off;
        while i < end
            invariant
                byte_off <= i <= end,
                end <= self.payload@.len(),
                content@ =~= self.payload@.subrange(byte_off as int, i as int),
            decreases end - i,
        {
            content.push(self.payload[i]);
            assert(content@ =~= self.payload@.subrange(byte_off as int, i + 1));
            i += 1;
        }
        let mf = end != self.payload.len();
        let d = IpDgram::new(self.hdr, content.as_slice()).frag(off, mf);
        proof {
            let (a, b) = self.frag_range(off, len);
            assert(a == byte_off && b == end);
            assert(content@ =~= self.payload@.subrange(a, b));
            assert(d.pkt.content() =~= frag_packet_content(self.hdr, off, mf, content@));
        }
        d.into_packet()
    }

    /// The fragment from `off` (in 8-byte units) to the end of the
    /// payload; MF is clear.
    pub fn tail(&self, off: u16) -> (r: Packet)
        requires
            off * 8 <= self.payload@.len(),
            self.payload@.len() <= 0xffff - 20,
        ensures
            r.wf(),
            r.headroom == 16,
            r.content() == frag_packet_content(
                self.hdr,
                off,
                false,
                self.payload@.subrange(off * 8, self.payload@.len() as int),
            ),
    {
        let len = self.payload.len() as u16;
        let r = self.fragment(off, len);
        proof {
            let (a, b) = self.frag_range(off, len);
            assert(b == self.payload@.len());
        }
        r
    }

    /// The whole payload in one unfragmented datagram.
    pub fn datagram(&self) -> (r: Packet)
        requires
            self.payload@.len() <= 0xffff - 20,
        ensures
            r.wf(),
            r.headroom == 16,
            r.content() == frag_packet_content(self.hdr, 0, false, self.payload@),
    {
        let d = IpDgram::new(self.hdr, self.payload.as_slice()).frag(0, false);
        proof {
            assert(d.pkt.content() =~= frag_packet_content(self.hdr, 0, false, self.payload@));
        }
        d.into_packet()
    }
}

/// Adjacent fragments of one payload concatenate back to the range
/// they jointly cover; a partition of the whole payload therefore
/// reassembles it exactly.
pub proof fn lemma_fragment_roundtrip(s: Seq<u8>, a: int, b: int, c: int)
    requires
        0 <= a <= b <= c <= s.len(),
    ensures
        s.subrange(a, b) + s.subrange(b, c) == s.subrange(a, c),
{
    assert(s.subrange(a, b) + s.subrange(b, c) =~= s.subrange(a, c));
}

} // verus!
