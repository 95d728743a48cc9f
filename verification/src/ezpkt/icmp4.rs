use vstd::prelude::*;
use crate::pkt::eth::{eth_hdr, eth_addr, ETHERTYPE_IPV4};
use crate::pkt::ipv4::{
    csum_spec, icmp_echo_hdr, icmp_hdr, ip_csum, ip_hdr, lemma_csum_partial_bound, ICMP_ECHO,
    ICMP_ECHOREPLY, PROTO_ICMP,
};
use crate::pkt::packet::{lemma_append_parts, lemma_splice_parts, Hdr, Packet, PktSlice};
use crate::pkt::{spec_be32, Ip4Addr, Serialize};

verus! {

/// The Ethernet header of an ICMP datagram from `src` to `dst`.
pub open spec fn icmp_eth(src: Ip4Addr, dst: Ip4Addr) -> Seq<u8> {
    seq![0x00u8, 0x02u8] + spec_be32(dst.bits) + seq![0x00u8, 0x02u8] + spec_be32(src.bits)
        + crate::pkt::spec_be16(ETHERTYPE_IPV4)
}

/// The IPv4 header of an ICMP datagram: the checksum is computed for
/// the bare header before the payload grows the total length.
pub open spec fn icmp_ip(src: Ip4Addr, dst: Ip4Addr, n: int) -> ip_hdr {
    let base = ip_hdr {
        saddr: src.bits,
        daddr: dst.bits,
        tot_len: 28,
        protocol: PROTO_ICMP,
        ..ip_hdr::default_spec()
    };
    ip_hdr { tot_len: (28 + n) as u16, csum: base.published_csum(), ..base }
}

/// The ICMP header of an echo datagram: its checksum covers the ICMP
/// header, the echo header and the payload.
pub open spec fn icmp_echo_icmp(typ: u8, id: u16, seq: u16, payload: Seq<u8>) -> icmp_hdr {
    icmp_hdr {
        typ,
        code: 0,
        csum: csum_spec(
            (icmp_hdr { typ, code: 0, csum: 0 }).wire() + (icmp_echo_hdr { id, seq }).wire()
                + payload,
        ),
    }
}

/// The complete on-wire bytes of an echo datagram.
pub open spec fn icmp_packet_content(
    raw: bool,
    src: Ip4Addr,
    dst: Ip4Addr,
    typ: u8,
    id: u16,
    seq: u16,
    payload: Seq<u8>,
) -> Seq<u8> {
    (if raw {
        Seq::<u8>::empty()
    } else {
        icmp_eth(src, dst)
    }) + icmp_ip(src, dst, payload.len() as int).wire() + icmp_echo_icmp(
        typ,
        id,
        seq,
        payload,
    ).wire() + (icmp_echo_hdr { id, seq }).wire() + payload
}

/// Helper for creating ICMP datagrams: Ethernet (unless raw), IPv4,
/// ICMP and echo headers, then payload.
#[derive(Debug)]
pub struct IcmpDgram {
    pub pkt: Packet,
    pub eth: Option<eth_hdr>,
    pub ip: ip_hdr,
    pub icmp: icmp_hdr,
    pub echo: icmp_echo_hdr,
}

impl IcmpDgram {
    pub open spec fn ip_off(&self) -> int {
        if self.eth is Some {
            30
        } else {
            16
        }
    }

    pub open spec fn icmp_off(&self) -> int {
        self.ip_off() + 20
    }

    pub open spec fn echo_off(&self) -> int {
        self.icmp_off() + 4
    }

    pub open spec fn payload_off(&self) -> int {
        self.echo_off() + 4
    }

    pub open spec fn payload(&self) -> Seq<u8> {
        self.pkt.buf@.skip(self.payload_off())
    }

    pub open spec fn layout_wf(&self) -> bool {
        &&& self.pkt.wf()
        &&& self.pkt.headroom == 16
        &&& self.payload_off() <= self.pkt.buf@.len()
    }

    pub open spec fn bytes_wf(&self) -> bool {
        &&& (self.eth is Some ==> self.pkt.buf@.subrange(16, 30) == self.eth.unwrap().wire())
        &&& self.pkt.buf@.subrange(self.ip_off(), self.ip_off() + 20) == self.ip.wire()
        &&& self.pkt.buf@.subrange(self.icmp_off(), self.icmp_off() + 4) == self.icmp.wire()
        &&& self.pkt.buf@.subrange(self.echo_off(), self.echo_off() + 4) == self.echo.wire()
    }

    pub open spec fn len_wf(&self) -> bool {
        self.ip.tot_len == 28 + self.payload().len()
    }

    pub open spec fn wf(&self) -> bool {
        self.layout_wf() && self.bytes_wf() && self.len_wf()
    }

    /// The logical content of the finished packet.
    pub open spec fn content_spec(&self) -> Seq<u8> {
        (if self.eth is Some {
            self.eth.unwrap().wire()
        } else {
            Seq::<u8>::empty()
        }) + self.ip.wire() + self.icmp.wire() + self.echo.wire() + self.payload()
    }

    pub proof fn lemma_content(&self)
        requires
            self.wf(),
        ensures
            self.pkt.content() == self.content_spec(),
    {
        assert(self.pkt.content() =~= self.content_spec());
    }

    fn ip_off_x(&self) -> (r: usize)
        ensures
            r == self.ip_off(),
    {
        if self.eth.is_some() {
            30
        } else {
            16
        }
    }

    /// Rewrite all header bytes from the typed header values.
    fn sync(&mut self)
        requires
            old(self).layout_wf(),
        ensures
            final(self).pkt.buf@.len() == old(self).pkt.buf@.len(),
            final(self).eth == old(self).eth,
            final(self).ip == old(self).ip,
            final(self).icmp == old(self).icmp,
            final(self).echo == old(self).echo,
            final(self).payload() == old(self).payload(),
            final(self).layout_wf(),
            final(self).bytes_wf(),
    {
        let ip_off = self.ip_off_x();
        proof {
            assert(self.ip.wire().len() == 20);
            assert(self.icmp.wire().len() == 4);
            assert(self.echo.wire().len() == 4);
        }
        match self.eth {
            Some(e) => {
                proof {
                    assert(e.wire().len() == 14);
                }
                self.pkt.set(Hdr { off: 16, len: 14 }, &e);
                proof {
                    lemma_splice_parts(old(self).pkt.buf@, 16, e.wire());
                }
            }
            None => {}
        }
        let ghost b1 = self.pkt.buf@;
        let ip = self.ip;
        self.pkt.set(Hdr { off: ip_off, len: 20 }, &ip);
        proof {
            lemma_splice_parts(b1, ip_off as int, self.ip.wire());
        }
        let ghost b2 = self.pkt.buf@;
        let icmp = self.icmp;
        self.pkt.set(Hdr { off: ip_off + 20, len: 4 }, &icmp);
        proof {
            lemma_splice_parts(b2, ip_off + 20, self.icmp.wire());
        }
        let ghost b3 = self.pkt.buf@;
        let echo = self.echo;
        self.pkt.set(Hdr { off: ip_off + 24, len: 4 }, &echo);
        proof {
            lemma_splice_parts(b3, ip_off + 24, self.echo.wire());
            let bf = self.pkt.buf@;
            assert(self.payload() =~= old(self).payload());
            assert(bf.subrange(self.ip_off(), self.ip_off() + 20) =~= self.ip.wire());
            assert(bf.subrange(self.icmp_off(), self.icmp_off() + 4) =~= self.icmp.wire());
            assert(bf.subrange(self.echo_off(), self.echo_off() + 4) =~= self.echo.wire());
            if self.eth is Some {
                assert(bf.subrange(16, 30) =~= self.eth.unwrap().wire());
            }
        }
    }

    /// A fresh echo datagram skeleton from `src` to `dst`.
    fn new(src: Ip4Addr, dst: Ip4Addr, raw: bool) -> (r: IcmpDgram)
        ensures
            r.wf(),
            (r.eth is Some) == !raw,
            !raw ==> r.eth.unwrap().wire() == icmp_eth(src, dst),
            r.ip == icmp_ip(src, dst, 0),
            r.icmp == (icmp_hdr { typ: 0, code: 0, csum: 0 }),
            r.echo == (icmp_echo_hdr { id: 0, seq: 0 }),
            r.payload() == Seq::<u8>::empty(),
    {
        let mut pkt = Packet::with_capacity(42);
        let eth: Option<eth_hdr> = if raw {
            None
        } else {
            let e = eth_hdr::new(
                eth_addr::from_ip(src),
                eth_addr::from_ip(dst),
                ETHERTYPE_IPV4,
            );
            proof {
                assert(e.wire().len() == 14);
                assert(e.wire() =~= icmp_eth(src, dst));
            }
            pkt.push(e);
            Some(e)
        };
        let mut iph = ip_hdr::default();
        iph.set_protocol(PROTO_ICMP);
        iph.set_tot_len(28);
        iph.set_saddr(src);
        iph.set_daddr(dst);
        iph.calc_csum();
        proof {
            assert(iph.wire().len() == 20);
        }
        pkt.push(iph);
        let icmp = icmp_hdr::default();
        proof {
            assert(icmp.wire().len() == 4);
        }
        pkt.push(icmp);
        let echo = icmp_echo_hdr::default();
        proof {
            assert(echo.wire().len() == 4);
        }
        pkt.push(echo);
        let r = IcmpDgram { pkt, eth, ip: iph, icmp, echo };
        proof {
            let b = r.pkt.buf@;
            assert(r.payload() =~= Seq::<u8>::empty());
            assert(b.subrange(r.ip_off(), r.ip_off() + 20) =~= iph.wire());
            assert(b.subrange(r.icmp_off(), r.icmp_off() + 4) =~= icmp.wire());
            assert(b.subrange(r.echo_off(), r.echo_off() + 4) =~= echo.wire());
            if !raw {
                assert(b.subrange(16, 30) =~= r.eth.unwrap().wire());
            }
            let base = ip_hdr {
                saddr: src.bits,
                daddr: dst.bits,
                tot_len: 28,
                protocol: PROTO_ICMP,
                ..ip_hdr::default_spec()
            };
            assert(iph.zero_csum() == base.zero_csum());
            assert(iph == icmp_ip(src, dst, 0));
        }
        r
    }

    /// Append payload bytes; the IP total length grows but its checksum
    /// is left as computed for the bare header.
    fn push(self, bytes: &[u8]) -> (r: IcmpDgram)
        requires
            self.wf(),
            self.ip.tot_len + bytes@.len() <= 0xffff,
        ensures
            r == (IcmpDgram {
                pkt: r.pkt,
                ip: ip_hdr { tot_len: (self.ip.tot_len + bytes@.len()) as u16, ..self.ip },
                ..self
            }),
            r.wf(),
            r.payload() == self.payload() + bytes@,
    {
        let mut s = self;
        proof {
            lemma_append_parts(s.pkt.buf@, bytes@);
        }
        s.pkt.push_bytes(bytes);
        proof {
            assert(s.payload() =~= self.payload() + bytes@);
        }
        let n = bytes.len() as u16;
        s.ip.add_tot_len(n);
        s.sync();
        s
    }

    /// Fill in an echo request: type, id, sequence, payload, checksum.
    fn ping(self, id: u16, seq: u16, bytes: &[u8]) -> (r: IcmpDgram)
        requires
            self.wf(),
            self.ip.tot_len + bytes@.len() <= 0xffff,
            self.icmp == (icmp_hdr { typ: 0, code: 0, csum: 0 }),
        ensures
            r == (IcmpDgram {
                pkt: r.pkt,
                ip: ip_hdr { tot_len: (self.ip.tot_len + bytes@.len()) as u16, ..self.ip },
                icmp: icmp_echo_icmp(ICMP_ECHO, id, seq, self.payload() + bytes@),
                echo: icmp_echo_hdr { id, seq },
                ..self
            }),
            r.wf(),
            r.payload() == self.payload() + bytes@,
    {
        self.echo_fill(ICMP_ECHO, id, seq, bytes)
    }

    /// Fill in an echo reply.
    fn pong(self, id: u16, seq: u16, bytes: &[u8]) -> (r: IcmpDgram)
        requires
            self.wf(),
            self.ip.tot_len + bytes@.len() <= 0xffff,
            self.icmp == (icmp_hdr { typ: 0, code: 0, csum: 0 }),
        ensures
            r == (IcmpDgram {
                pkt: r.pkt,
                ip: ip_hdr { tot_len: (self.ip.tot_len + bytes@.len()) as u16, ..self.ip },
                icmp: icmp_echo_icmp(ICMP_ECHOREPLY, id, seq, self.payload() + bytes@),
                echo: icmp_echo_hdr { id, seq },
                ..self
            }),
            r.wf(),
            r.payload() == self.payload() + bytes@,
    {
        self.echo_fill(ICMP_ECHOREPLY, id, seq, bytes)
    }

    fn echo_fill(self, typ: u8, id: u16, seq: u16, bytes: &[u8]) -> (r: IcmpDgram)
        requires
            self.wf(),
            self.ip.tot_len + bytes@.len() <= 0xffff,
            self.icmp == (icmp_hdr { typ: 0, code: 0, csum: 0 }),
        ensures
            r == (IcmpDgram {
                pkt: r.pkt,
                ip: ip_hdr { tot_len: (self.ip.tot_len + bytes@.len()) as u16, ..self.ip },
                icmp: icmp_echo_icmp(typ, id, seq, self.payload() + bytes@),
                echo: icmp_echo_hdr { id, seq },
                ..self
            }),
            r.wf(),
            r.payload() == self.payload() + bytes@,
    {
        let mut s = self.push(bytes);
        s.icmp.set_typ(typ);
        s.echo.set_id(id);
        s.echo.set_seq(seq);
        s.sync();
        // checksum the ICMP header, echo header and payload
        let icmp_off = s.ip_off_x() + 20;
        let total = s.pkt.len_from(icmp_off);
        let covered = s.pkt.to_vec_from(PktSlice { off: icmp_off, len: total });
        proof {
            assert(covered@ =~= s.icmp.wire() + s.echo.wire() + s.payload());
            assert(s.payload().len() <= 0xffff);
        }
        let c = ip_csum(covered.as_slice());
        s.icmp.set_csum(c);
        s.sync();
        proof {
            assert(s.icmp == icmp_echo_icmp(typ, id, seq, s.payload()));
        }
        s
    }

    /// Consume the builder, yielding the finished packet.
    pub fn into_packet(self) -> (r: Packet)
        ensures
            r == self.pkt,
    {
        self.pkt
    }
}

/// An ICMP echo session: a fixed identifier and one sequence counter
/// per direction, each advancing with every request or reply.
#[derive(Debug, Copy, Clone, PartialEq, Eq, Structural)]
pub struct IcmpFlow {
    pub cl: Ip4Addr,
    pub sv: Ip4Addr,
    pub raw: bool,
    pub id: u16,
    pub ping_seq: u16,
    pub pong_seq: u16,
}

impl IcmpFlow {
    /// The identifier every datagram of a flow carries.
    pub open spec fn default_id() -> u16 {
        0x1234
    }

    pub fn new(cl: Ip4Addr, sv: Ip4Addr, raw: bool) -> (r: IcmpFlow)
        ensures
            r == (IcmpFlow { cl, sv, raw, id: 0x1234, ping_seq: 0, pong_seq: 0 }),
    {
        IcmpFlow { cl, sv, raw, id: 0x1234, ping_seq: 0, pong_seq: 0 }
    }

    /// An echo request from the client; the request counter advances.
    pub fn echo(&mut self, bytes: &[u8]) -> (r: Packet)
        requires
            bytes@.len() <= 0xffff - 28,
        ensures
            *final(self) == (IcmpFlow {
                ping_seq: ((old(self).ping_seq + 1) % 0x10000) as u16,
                ..*old(self)
            }),
            r.headroom == 16,
            r.wf(),
            r.content() == icmp_packet_content(
                old(self).raw,
                old(self).cl,
                old(self).sv,
                ICMP_ECHO,
                old(self).id,
                old(self).ping_seq,
                bytes@,
            ),
    {
        let d = IcmpDgram::new(self.cl, self.sv, self.raw).ping(self.id, self.ping_seq, bytes);
        proof {
            d.lemma_content();
        }
        self.ping_seq = self.ping_seq.wrapping_add(1);
        d.into_packet()
    }

    /// An echo reply from the server; the reply counter advances.
    pub fn echo_reply(&mut self, bytes: &[u8]) -> (r: Packet)
        requires
            bytes@.len() <= 0xffff - 28,
        ensures
            *final(self) == (IcmpFlow {
                pong_seq: ((old(self).pong_seq + 1) % 0x10000) as u16,
                ..*old(self)
            }),
            r.headroom == 16,
            r.wf(),
            r.content() == icmp_packet_content(
                old(self).raw,
                old(self).sv,
                old(self).cl,
                ICMP_ECHOREPLY,
                old(self).id,
                old(self).pong_seq,
                bytes@,
            ),
    {
        let d = IcmpDgram::new(self.sv, self.cl, self.raw).pong(self.id, self.pong_seq, bytes);
        proof {
            d.lemma_content();
        }
        self.pong_seq = self.pong_seq.wrapping_add(1);
        d.into_packet()
    }
}

} // verus!
