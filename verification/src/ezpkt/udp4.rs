use vstd::prelude::*;
use crate::pkt::eth::{eth_hdr, ETHERTYPE_IPV4};
use crate::pkt::ipv4::{
    csum_partial_spec, ip_csum_fold, ip_csum_partial, ip_hdr, ip_pseudo_hdr, lemma_csum_partial_bound,
    transport_csum, udp_hdr, PROTO_UDP,
};
use crate::pkt::packet::{lemma_append_parts, lemma_splice_parts, splice, Hdr, Packet, PktSlice};
use crate::pkt::{Ip4Addr, Serialize, Sock4};

verus! {

/// The IPv4 header a UDP flow datagram carries: defaults, UDP protocol,
/// the flow's addresses, a total length covering the payload, and a
/// freshly computed checksum.
pub open spec fn udp_flow_ip(src: Sock4, dst: Sock4, payload_len: int) -> ip_hdr {
    (ip_hdr {
        saddr: src.ip.bits,
        daddr: dst.ip.bits,
        tot_len: (28 + payload_len) as u16,
        protocol: PROTO_UDP,
        ..ip_hdr::default_spec()
    }).recalc()
}

/// The UDP header a flow datagram carries before any checksum is asked
/// for.
pub open spec fn udp_flow_udp(src: Sock4, dst: Sock4, payload_len: int) -> udp_hdr {
    udp_hdr { sport: src.port, dport: dst.port, len: (8 + payload_len) as u16, csum: 0 }
}

/// The whole wire content of a one-shot UDP datagram: the Ethernet
/// header unless raw (destination all-ones when broadcast, otherwise
/// derived from the destination address), the IPv4 header with the
/// given source address published, the UDP header, then the payload.
pub open spec fn udp_packet_content(
    src: Sock4,
    dst: Sock4,
    raw: bool,
    bcast: bool,
    saddr: u32,
    payload: Seq<u8>,
) -> Seq<u8> {
    (if raw {
        Seq::<u8>::empty()
    } else {
        (if bcast {
            crate::pkt::eth::spec_broadcast()
        } else {
            seq![0x00u8, 0x02u8] + crate::pkt::spec_be32(dst.ip.bits)
        }) + (seq![0x00u8, 0x02u8] + crate::pkt::spec_be32(src.ip.bits)) + crate::pkt::spec_be16(
            ETHERTYPE_IPV4,
        )
    }) + (ip_hdr { saddr, ..udp_flow_ip(src, dst, payload.len() as int) }).wire() + udp_flow_udp(
        src,
        dst,
        payload.len() as int,
    ).wire() + payload
}

/// The UDP header of a flow datagram, with the transport checksum
/// filled in when one was asked for.
pub open spec fn udp_flow_udp_csummed(
    src: Sock4,
    dst: Sock4,
    payload: Seq<u8>,
    with_csum: bool,
) -> udp_hdr {
    let base = udp_flow_udp(src, dst, payload.len() as int);
    if with_csum {
        udp_hdr {
            csum: transport_csum(
                ip_pseudo_hdr {
                    src: src.ip.bits,
                    dst: dst.ip.bits,
                    proto: PROTO_UDP,
                    len: (8 + payload.len()) as u16,
                },
                base.wire(),
                payload,
            ),
            ..base
        }
    } else {
        base
    }
}

/// The whole wire content of one flow datagram: Ethernet addresses
/// derived from the endpoints (unless raw), the IPv4 header with the
/// requested fragment offset republished, the UDP header with an
/// optional checksum, then the payload.
pub open spec fn udp_flow_pkt_content(
    src: Sock4,
    dst: Sock4,
    raw: bool,
    frag_off: u16,
    with_csum: bool,
    payload: Seq<u8>,
) -> Seq<u8> {
    let ip0 = udp_flow_ip(src, dst, payload.len() as int);
    let ip = (ip_hdr { frag_off: (frag_off | (ip0.frag_off & 0xe000)) as u16, ..ip0 }).recalc();
    (if raw {
        Seq::<u8>::empty()
    } else {
        (seq![0x00u8, 0x02u8] + crate::pkt::spec_be32(dst.ip.bits)) + (seq![0x00u8, 0x02u8]
            + crate::pkt::spec_be32(src.ip.bits)) + crate::pkt::spec_be16(ETHERTYPE_IPV4)
    }) + ip.wire() + udp_flow_udp_csummed(src, dst, payload, with_csum).wire() + payload
}

/// Republishing a zero fragment offset leaves a flow IP header as it
/// was.
pub proof fn lemma_flow_ip_refrag_zero(src: Sock4, dst: Sock4, len: int)
    ensures
        (ip_hdr {
            frag_off: (0u16 | (udp_flow_ip(src, dst, len).frag_off & 0xe000)) as u16,
            ..udp_flow_ip(src, dst, len)
        }).recalc() == udp_flow_ip(src, dst, len),
{
    let ip0 = udp_flow_ip(src, dst, len);
    let x = ip_hdr {
        saddr: src.ip.bits,
        daddr: dst.ip.bits,
        tot_len: (28 + len) as u16,
        protocol: PROTO_UDP,
        ..ip_hdr::default_spec()
    };
    assert(ip0.zero_csum() == x.zero_csum());
    assert(ip0.zero_csum().wire() == x.zero_csum().wire());
    assert(ip0.csum == x.published_csum());
    assert(ip0.published_csum() == x.published_csum());
    assert(ip0.recalc() == ip0);
    assert(ip0.frag_off == 0);
    assert(0u16 | (0u16 & 0xe000u16) == 0u16) by (bit_vector);
}

/// Helper for creating UDP datagrams: Ethernet (unless raw), IPv4 and
/// UDP headers, then payload.
#[derive(Debug)]
pub struct UdpDgram {
    pub pkt: Packet,
    pub eth: Option<eth_hdr>,
    pub ip: ip_hdr,
    pub udp: udp_hdr,
}

impl UdpDgram {
    /// Offset of the IPv4 header inside the packet storage.
    pub open spec fn ip_off(&self) -> int {
        if self.eth is Some {
            30
        } else {
            16
        }
    }

    pub open spec fn udp_off(&self) -> int {
        self.ip_off() + 20
    }

    pub open spec fn payload_off(&self) -> int {
        self.udp_off() + 8
    }

    /// The payload appended so far.
    pub open spec fn payload(&self) -> Seq<u8> {
        self.pkt.buf@.skip(self.payload_off())
    }

    /// The packet storage is laid out as headroom, then the headers.
    pub open spec fn layout_wf(&self) -> bool {
        &&& self.pkt.wf()
        &&& self.pkt.headroom == 16
        &&& self.payload_off() <= self.pkt.buf@.len()
    }

    /// The stored bytes mirror the typed header values.
    pub open spec fn bytes_wf(&self) -> bool {
        &&& (self.eth is Some ==> self.pkt.buf@.subrange(16, 30) == self.eth.unwrap().wire())
        &&& self.pkt.buf@.subrange(self.ip_off(), self.ip_off() + 20) == self.ip.wire()
        &&& self.pkt.buf@.subrange(self.udp_off(), self.udp_off() + 8) == self.udp.wire()
    }

    /// The length fields track the payload.
    pub open spec fn len_wf(&self) -> bool {
        &&& self.ip.tot_len == 28 + self.payload().len()
        &&& self.udp.len == 8 + self.payload().len()
    }

    pub open spec fn wf(&self) -> bool {
        self.layout_wf() && self.bytes_wf() && self.len_wf()
    }

    /// The logical content of the finished packet: headers then payload.
    pub open spec fn content_spec(&self) -> Seq<u8> {
        (if self.eth is Some {
            self.eth.unwrap().wire()
        } else {
            Seq::<u8>::empty()
        }) + self.ip.wire() + self.udp.wire() + self.payload()
    }

    /// A well-formed datagram's packet holds exactly its headers and
    /// payload.
    pub proof fn lemma_content(&self)
        requires
            self.wf(),
        ensures
            self.pkt.content() == self.content_spec(),
    {
        assert(self.pkt.content() =~= self.content_spec());
    }

    fn ip_off_x(&self) -> (r: usize)
        ensures
            r == self.ip_off(),
    {
        if self.eth.is_some() {
            30
        } else {
            16
        }
    }

    /// Rewrite all header bytes from the typed header values.
    fn sync(&mut self)
        requires
            old(self).layout_wf(),
        ensures
            final(self).pkt.buf@.len() == old(self).pkt.buf@.len(),
            final(self).pkt.headroom == 16,
            final(self).eth == old(self).eth,
            final(self).ip == old(self).ip,
            final(self).udp == old(self).udp,
            final(self).payload() == old(self).payload(),
            final(self).layout_wf(),
            final(self).bytes_wf(),
    {
        let ip_off = self.ip_off_x();
        proof {
            assert(self.ip.wire().len() == 20);
            assert(self.udp.wire().len() == 8);
        }
        match self.eth {
            Some(e) => {
                proof {
                    assert(e.wire().len() == 14);
                }
                self.pkt.set(Hdr { off: 16, len: 14 }, &e);
                proof {
                    lemma_splice_parts(old(self).pkt.buf@, 16, e.wire());
                }
            }
            None => {}
        }
        let ghost b1 = self.pkt.buf@;
        let ip = self.ip;
        self.pkt.set(Hdr { off: ip_off, len: 20 }, &ip);
        proof {
            lemma_splice_parts(b1, ip_off as int, self.ip.wire());
        }
        let ghost b2 = self.pkt.buf@;
        let udp = self.udp;
        self.pkt.set(Hdr { off: ip_off + 20, len: 8 }, &udp);
        proof {
            lemma_splice_parts(b2, ip_off + 20, self.udp.wire());
            let bf = self.pkt.buf@;
            assert(self.payload() =~= old(self).payload());
            assert(bf.subrange(self.ip_off(), self.ip_off() + 20) =~= self.ip.wire());
            assert(bf.subrange(self.udp_off(), self.udp_off() + 8) =~= self.udp.wire());
            if self.eth is Some {
                assert(bf.subrange(16, 30) =~= self.eth.unwrap().wire());
            }
        }
    }

    /// A fresh datagram skeleton; `payload_sz` only sizes the
    /// allocation. `raw` omits the Ethernet header.
    pub fn with_capacity(payload_sz: usize, raw: bool) -> (r: UdpDgram)
        requires
            payload_sz + 64 <= usize::MAX,
        ensures
            r.wf(),
            (r.eth is Some) == !raw,
            !raw ==> r.eth.unwrap().dst.wire() == Seq::new(6, |i: int| 0u8)
                && r.eth.unwrap().src.wire() == Seq::new(6, |i: int| 0u8) && r.eth.unwrap().proto
                == ETHERTYPE_IPV4,
            r.ip == (ip_hdr { tot_len: 28, protocol: PROTO_UDP, ..ip_hdr::default_spec() }).recalc(),
            r.udp == (udp_hdr { sport: 0, dport: 0, len: 8, csum: 0 }),
            r.payload() == Seq::<u8>::empty(),
    {
        let mut pkt = Packet::with_capacity(42 + payload_sz);
        let eth: Option<eth_hdr> = if raw {
            None
        } else {
            let e = eth_hdr::with_proto(ETHERTYPE_IPV4);
            proof {
                assert(e.wire().len() == 14);
            }
            pkt.push(e);
            Some(e)
        };
        let mut iph = ip_hdr::default();
        iph.set_protocol(PROTO_UDP);
        iph.set_tot_len(28);
        iph.calc_csum();
        proof {
            assert(iph.wire().len() == 20);
        }
        pkt.push(iph);
        let udph = udp_hdr::default();
        proof {
            assert(udph.wire().len() == 8);
        }
        pkt.push(udph);
        let r = UdpDgram { pkt, eth, ip: iph, udp: udph };
        proof {
            let b = r.pkt.buf@;
            assert(r.payload() =~= Seq::<u8>::empty());
            assert(b.subrange(r.ip_off(), r.ip_off() + 20) =~= iph.wire());
            assert(b.subrange(r.udp_off(), r.udp_off() + 8) =~= udph.wire());
            if !raw {
                assert(b.subrange(16, 30) =~= r.eth.unwrap().wire());
            }
        }
        r
    }

    pub fn new() -> (r: UdpDgram)
        ensures
            r.wf(),
            r.eth is Some,
            r.ip == (ip_hdr { tot_len: 28, protocol: PROTO_UDP, ..ip_hdr::default_spec() }).recalc(),
            r.udp == (udp_hdr { sport: 0, dport: 0, len: 8, csum: 0 }),
            r.payload() == Seq::<u8>::empty(),
    {
        Self::with_capacity(0, false)
    }

    pub fn raw() -> (r: UdpDgram)
        ensures
            r.wf(),
            r.eth is None,
            r.ip == (ip_hdr { tot_len: 28, protocol: PROTO_UDP, ..ip_hdr::default_spec() }).recalc(),
            r.udp == (udp_hdr { sport: 0, dport: 0, len: 8, csum: 0 }),
            r.payload() == Seq::<u8>::empty(),
    {
        Self::with_capacity(0, true)
    }

    pub fn of_type(raw: bool) -> (r: UdpDgram)
        ensures
            r.wf(),
            (r.eth is Some) == !raw,
            !raw ==> r.eth.unwrap().dst.wire() == Seq::new(6, |i: int| 0u8)
                && r.eth.unwrap().src.wire() == Seq::new(6, |i: int| 0u8) && r.eth.unwrap().proto
                == ETHERTYPE_IPV4,
            r.ip == (ip_hdr { tot_len: 28, protocol: PROTO_UDP, ..ip_hdr::default_spec() }).recalc(),
            r.udp == (udp_hdr { sport: 0, dport: 0, len: 8, csum: 0 }),
            r.payload() == Seq::<u8>::empty(),
    {
        Self::with_capacity(0, raw)
    }

    /// Set only the IPv4 source address.
    pub fn srcip(self, src: Ip4Addr) -> (r: UdpDgram)
        requires
            self.wf(),
        ensures
            r.wf(),
            r.eth == self.eth,
            r.ip == (ip_hdr { saddr: src.bits, ..self.ip }),
            r.udp == self.udp,
            r.payload() == self.payload(),
    {
        let mut s = self;
        s.ip.set_saddr(src);
        s.sync();
        s
    }

    /// Set the IPv4 fragment offset, in 8-byte units, and refresh the
    /// IP checksum.
    pub fn frag_off(self, frag_off: u16) -> (r: UdpDgram)
        requires
            self.wf(),
        ensures
            r.wf(),
            r.eth == self.eth,
            r.ip == (ip_hdr {
                frag_off: (frag_off | (self.ip.frag_off & 0xe000)) as u16,
                ..self.ip
            }).recalc(),
            r.udp == self.udp,
            r.payload() == self.payload(),
    {
        let mut s = self;
        s.ip.set_frag_off(frag_off);
        s.ip.calc_csum();
        s.sync();
        s
    }

    /// Set the source: Ethernet address (when present), IPv4 source
    /// address, UDP source port.
    pub fn src(self, src: Sock4) -> (r: UdpDgram)
        requires
            self.wf(),
        ensures
            r.wf(),
            (r.eth is Some) == (self.eth is Some),
            self.eth is Some ==> r.eth.unwrap().src.wire() == seq![0x00u8, 0x02u8]
                + crate::pkt::spec_be32(src.ip.bits) && r.eth.unwrap().dst == self.eth.unwrap().dst
                && r.eth.unwrap().proto == self.eth.unwrap().proto,
            r.ip == (ip_hdr { saddr: src.ip.bits, ..self.ip }),
            r.udp == (udp_hdr { sport: src.port, ..self.udp }),
            r.payload() == self.payload(),
    {
        let mut s = self;
        match &mut s.eth {
            Some(e) => {
                e.src_from_ip(src.ip);
            }
            None => {}
        }
        s.ip.set_saddr(src.ip);
        s.udp.set_sport(src.port);
        s.sync();
        s
    }

    /// Set the destination: Ethernet address (when present), IPv4
    /// destination address, UDP destination port.
    pub fn dst(self, dst: Sock4) -> (r: UdpDgram)
        requires
            self.wf(),
        ensures
            r.wf(),
            (r.eth is Some) == (self.eth is Some),
            self.eth is Some ==> r.eth.unwrap().dst.wire() == seq![0x00u8, 0x02u8]
                + crate::pkt::spec_be32(dst.ip.bits) && r.eth.unwrap().src == self.eth.unwrap().src
                && r.eth.unwrap().proto == self.eth.unwrap().proto,
            r.ip == (ip_hdr { daddr: dst.ip.bits, ..self.ip }),
            r.udp == (udp_hdr { dport: dst.port, ..self.udp }),
            r.payload() == self.payload(),
    {
        let mut s = self;
        match &mut s.eth {
            Some(e) => {
                e.dst_from_ip(dst.ip);
            }
            None => {}
        }
        s.ip.set_daddr(dst.ip);
        s.udp.set_dport(dst.port);
        s.sync();
        s
    }

    /// Address the Ethernet frame to the broadcast address.
    pub fn broadcast(self) -> (r: UdpDgram)
        requires
            self.wf(),
        ensures
            r.wf(),
            (r.eth is Some) == (self.eth is Some),
            self.eth is Some ==> r.eth.unwrap().dst.wire()
                == crate::pkt::eth::spec_broadcast() && r.eth.unwrap().src
                == self.eth.unwrap().src && r.eth.unwrap().proto == self.eth.unwrap().proto,
            r.ip == self.ip,
            r.udp == self.udp,
            r.payload() == self.payload(),
    {
        let mut s = self;
        match &mut s.eth {
            Some(e) => {
                e.set_broadcast();
            }
            None => {}
        }
        s.sync();
        s
    }

    /// Append payload bytes, growing the IP total length (with a fresh
    /// checksum) and the UDP length.
    pub fn push(self, bytes: &[u8]) -> (r: UdpDgram)
        requires
            self.wf(),
            self.ip.tot_len + bytes@.len() <= 0xffff,
        ensures
            r.wf(),
            r.eth == self.eth,
            r.ip == (ip_hdr {
                tot_len: (self.ip.tot_len + bytes@.len()) as u16,
                ..self.ip
            }).recalc(),
            r.udp == (udp_hdr { len: (self.udp.len + bytes@.len()) as u16, ..self.udp }),
            r.payload() == self.payload() + bytes@,
    {
        let mut s = self;
        proof {
            lemma_append_parts(s.pkt.buf@, bytes@);
        }
        s.pkt.push_bytes(bytes);
        proof {
            assert(s.payload() =~= self.payload() + bytes@);
        }
        let n = bytes.len() as u16;
        s.ip.add_tot_len(n);
        s.ip.calc_csum();
        s.udp.add_len(n);
        s.sync();
        s
    }

    /// The length the transport checksum covers: UDP header plus
    /// payload.
    fn csum_len(&self) -> (r: u16)
        requires
            self.wf(),
        ensures
            r == 8 + self.payload().len(),
    {
        self.udp.get_len()
    }

    /// Compute and store the UDP checksum over pseudo-header, UDP
    /// header and payload.
    pub fn csum(self) -> (r: UdpDgram)
        requires
            self.wf(),
        ensures
            r.wf(),
            r.eth == self.eth,
            r.ip == self.ip,
            r.udp == (udp_hdr {
                csum: transport_csum(
                    ip_pseudo_hdr {
                        src: self.ip.saddr,
                        dst: self.ip.daddr,
                        proto: self.ip.protocol,
                        len: (8 + self.payload().len()) as u16,
                    },
                    self.udp.wire(),
                    self.payload(),
                ),
                ..self.udp
            }),
            r.payload() == self.payload(),
    {
        let mut s = self;
        let len = s.csum_len();
        let ph = s.ip.get_pseudo_hdr(len);
        let ph_part = ph.csum_partial();
        let hdr_bytes = s.udp.write_bytes();
        proof {
            assert(s.udp.wire().len() == 8);
            assert(s.payload().len() <= 0xffff);
            lemma_csum_partial_bound(ph.wire());
            lemma_csum_partial_bound(s.udp.wire());
            lemma_csum_partial_bound(s.payload());
            assert(ph.wire().len() == 12);
            assert((s.payload().len() + 1) / 2 <= 32768);
            assert(csum_partial_spec(s.payload()) <= 32768 * 0xffff);
        }
        let hdr_part = ip_csum_partial(hdr_bytes.as_slice());
        let payload_off = s.ip_off_x() + 28;
        let payload_len = s.pkt.len_from(payload_off);
        let payload_bytes = s.pkt.to_vec_from(
            PktSlice { off: payload_off, len: payload_len },
        );
        proof {
            assert(payload_bytes@ =~= s.payload());
        }
        let pl_part = ip_csum_partial(payload_bytes.as_slice());
        let c = ip_csum_fold(ph_part + hdr_part + pl_part);
        s.udp.set_csum(c);
        s.sync();
        s
    }

    /// The UDP header's wire bytes.
    pub fn udp_hdr_bytes(&self) -> (r: Vec<u8>)
        requires
            self.wf(),
        ensures
            r@ == self.udp.wire(),
    {
        self.udp.write_bytes()
    }

    /// The UDP header and payload as a slice handle.
    pub fn udp_dgram(&self) -> (r: PktSlice)
        requires
            self.wf(),
        ensures
            r.off == self.udp_off(),
            r.len == 8 + self.payload().len(),
    {
        let off = self.ip_off_x() + 20;
        PktSlice { off, len: self.pkt.len_from(off) }
    }

    /// The UDP header and payload, copied out.
    pub fn udp_dgram_bytes(&self) -> (r: Vec<u8>)
        requires
            self.wf(),
        ensures
            r@ == self.udp.wire() + self.payload(),
    {
        let ps = self.udp_dgram();
        let r = self.pkt.to_vec_from(ps);
        proof {
            assert(r@ =~= self.udp.wire() + self.payload());
        }
        r
    }

    /// Consume the builder, yielding the UDP header and payload.
    pub fn into_udp_dgram(self) -> (r: Vec<u8>)
        requires
            self.wf(),
        ensures
            r@ == self.udp.wire() + self.payload(),
    {
        self.udp_dgram_bytes()
    }

    /// Consume the builder, yielding the finished packet.
    pub fn into_packet(self) -> (r: Packet)
        ensures
            r == self.pkt,
    {
        self.pkt
    }
}

impl Default for UdpDgram {
    fn default() -> (r: Self)
        ensures
            r.wf(),
            r.eth is Some,
            r.payload() == Seq::<u8>::empty(),
    {
        Self::new()
    }
}

/// A stateless UDP session: each call builds one datagram between the
/// configured endpoints.
#[derive(Debug, Copy, Clone, PartialEq, Eq, Structural)]
pub struct UdpFlow {
    pub cl: Sock4,
    pub sv: Sock4,
    pub raw: bool,
}

impl UdpFlow {
    pub fn new(cl: Sock4, sv: Sock4, raw: bool) -> (r: UdpFlow)
        ensures
            r == (UdpFlow { cl, sv, raw }),
    {
        UdpFlow { cl, sv, raw }
    }

    /// A datagram from `src` to `dst` carrying `bytes`.
    fn dgram(&self, src: Sock4, dst: Sock4, bytes: &[u8]) -> (r: UdpDgram)
        requires
            bytes@.len() <= 0xffff - 28,
        ensures
            r.wf(),
            (r.eth is Some) == !self.raw,
            !self.raw ==> r.eth.unwrap().src.wire() == seq![0x00u8, 0x02u8]
                + crate::pkt::spec_be32(src.ip.bits) && r.eth.unwrap().dst.wire() == seq![
                0x00u8,
                0x02u8,
            ] + crate::pkt::spec_be32(dst.ip.bits) && r.eth.unwrap().proto == ETHERTYPE_IPV4,
            r.ip == udp_flow_ip(src, dst, bytes@.len() as int),
            r.udp == udp_flow_udp(src, dst, bytes@.len() as int),
            r.payload() == bytes@,
    {
        let d = UdpDgram::of_type(self.raw).src(src).dst(dst).push(bytes);
        proof {
            let x = (ip_hdr {
                tot_len: (28 + bytes@.len()) as u16,
                saddr: src.ip.bits,
                daddr: dst.ip.bits,
                protocol: PROTO_UDP,
                ..ip_hdr::default_spec()
            });
            assert(d.ip.zero_csum() == x.zero_csum());
            assert(d.ip == udp_flow_ip(src, dst, bytes@.len() as int));
        }
        d
    }

    /// A datagram from the client to the server.
    pub fn client_dgram(&mut self, bytes: &[u8]) -> (r: UdpDgram)
        requires
            bytes@.len() <= 0xffff - 28,
        ensures
            *final(self) == *old(self),
            r.wf(),
            (r.eth is Some) == !old(self).raw,
            !old(self).raw ==> r.eth.unwrap().src.wire() == seq![0x00u8, 0x02u8]
                + crate::pkt::spec_be32(old(self).cl.ip.bits) && r.eth.unwrap().dst.wire() == seq![
                0x00u8,
                0x02u8,
            ] + crate::pkt::spec_be32(old(self).sv.ip.bits) && r.eth.unwrap().proto
                == ETHERTYPE_IPV4,
            r.ip == udp_flow_ip(old(self).cl, old(self).sv, bytes@.len() as int),
            r.udp == udp_flow_udp(old(self).cl, old(self).sv, bytes@.len() as int),
            r.payload() == bytes@,
    {
        let cl = self.cl;
        let sv = self.sv;
        self.dgram(cl, sv, bytes)
    }

    /// A datagram from the server to the client.
    pub fn server_dgram(&mut self, bytes: &[u8]) -> (r: UdpDgram)
        requires
            bytes@.len() <= 0xffff - 28,
        ensures
            *final(self) == *old(self),
            r.wf(),
            (r.eth is Some) == !old(self).raw,
            !old(self).raw ==> r.eth.unwrap().src.wire() == seq![0x00u8, 0x02u8]
                + crate::pkt::spec_be32(old(self).sv.ip.bits) && r.eth.unwrap().dst.wire() == seq![
                0x00u8,
                0x02u8,
            ] + crate::pkt::spec_be32(old(self).cl.ip.bits) && r.eth.unwrap().proto
                == ETHERTYPE_IPV4,
            r.ip == udp_flow_ip(old(self).sv, old(self).cl, bytes@.len() as int),
            r.udp == udp_flow_udp(old(self).sv, old(self).cl, bytes@.len() as int),
            r.payload() == bytes@,
    {
        let sv = self.sv;
        let cl = self.cl;
        self.dgram(sv, cl, bytes)
    }
}

} // verus!
