use vstd::prelude::*;
use crate::pkt::eth::{eth_hdr, eth_addr, ETHERTYPE_IPV4};
use crate::pkt::ipv4::{
    csum_partial_spec, ip_csum_fold, ip_csum_partial, ip_hdr, ip_pseudo_hdr, lemma_csum_partial_bound,
    transport_csum, tcp_hdr, PROTO_TCP, TCP_ACK, TCP_FIN, TCP_PSH, TCP_RST, TCP_SYN,
};
use crate::pkt::packet::{lemma_append_parts, lemma_splice_parts, Hdr, Packet, PktSlice};
use crate::pkt::{spec_be32, Serialize, Sock4};

verus! {

/// Per-direction connection state: the next sequence number this side
/// will send, and the next it expects to receive.
#[derive(Debug, Copy, Clone, PartialEq, Eq, Structural)]
pub struct TcpState {
    pub snd_nxt: u32,
    pub rcv_nxt: u32,
}

/// Sequence numbers advance modulo 2^32.
pub open spec fn seq_add(a: u32, b: int) -> u32 {
    ((a + b) % 0x100000000) as u32
}

/// The Ethernet header of a flow segment from `src` to `dst`.
pub open spec fn tcp_seg_eth(src: Sock4, dst: Sock4) -> Seq<u8> {
    seq![0x00u8, 0x02u8] + spec_be32(dst.ip.bits) + seq![0x00u8, 0x02u8] + spec_be32(src.ip.bits)
        + crate::pkt::spec_be16(ETHERTYPE_IPV4)
}

/// The IPv4 header of a flow segment carrying `n` payload bytes, with
/// a fragment offset in 8-byte units.
pub open spec fn tcp_seg_ip_frag(src: Sock4, dst: Sock4, n: int, frag_off: u16) -> ip_hdr {
    (ip_hdr {
        saddr: src.ip.bits,
        daddr: dst.ip.bits,
        tot_len: (40 + n) as u16,
        frag_off,
        protocol: PROTO_TCP,
        ..ip_hdr::default_spec()
    }).recalc()
}

/// The IPv4 header of an unfragmented flow segment.
pub open spec fn tcp_seg_ip(src: Sock4, dst: Sock4, n: int) -> ip_hdr {
    tcp_seg_ip_frag(src, dst, n, 0)
}

/// A TCP header before its checksum is filled in.
pub open spec fn tcp_seg_tcp0(src: Sock4, dst: Sock4, seq: u32, ack: u32, flags: u8) -> tcp_hdr {
    tcp_hdr {
        sport: src.port,
        dport: dst.port,
        seq,
        ack,
        doff: 0x50,
        flags,
        win: 0xffff,
        csum: 0,
        urp: 0,
    }
}

/// The same header with the transport checksum stored.
pub open spec fn tcp_seg_tcp(
    src: Sock4,
    dst: Sock4,
    seq: u32,
    ack: u32,
    flags: u8,
    payload: Seq<u8>,
) -> tcp_hdr {
    let t0 = tcp_seg_tcp0(src, dst, seq, ack, flags);
    tcp_hdr {
        csum: transport_csum(
            ip_pseudo_hdr {
                src: src.ip.bits,
                dst: dst.ip.bits,
                proto: PROTO_TCP,
                len: (20 + payload.len()) as u16,
            },
            t0.wire(),
            payload,
        ),
        ..t0
    }
}

/// The complete on-wire bytes of a flow segment with a fragment
/// offset.
pub open spec fn tcp_packet_content_frag(
    raw: bool,
    src: Sock4,
    dst: Sock4,
    seq: u32,
    ack: u32,
    flags: u8,
    frag_off: u16,
    payload: Seq<u8>,
) -> Seq<u8> {
    (if raw {
        Seq::<u8>::empty()
    } else {
        tcp_seg_eth(src, dst)
    }) + tcp_seg_ip_frag(src, dst, payload.len() as int, frag_off).wire() + tcp_seg_tcp(
        src,
        dst,
        seq,
        ack,
        flags,
        payload,
    ).wire() + payload
}

/// The complete on-wire bytes of an unfragmented flow segment.
pub open spec fn tcp_packet_content(
    raw: bool,
    src: Sock4,
    dst: Sock4,
    seq: u32,
    ack: u32,
    flags: u8,
    payload: Seq<u8>,
) -> Seq<u8> {
    tcp_packet_content_frag(raw, src, dst, seq, ack, flags, 0, payload)
}

/// Sequence accounting: over the handshake, a data message and a
/// close - each side's counter having advanced by what each emitted
/// segment consumed - the client ends exactly `bytes + 1 SYN + 1 FIN`
/// past where it began, and the server `1 SYN + 1 FIN`, modulo 2^32.
pub proof fn lemma_tcp_seq_accounting(cl0: u32, sv0: u32, bytes: int)
    requires
        0 <= bytes < 0x100000000,
    ensures
        seq_add(seq_add(seq_add(cl0, 1), bytes), 1) == seq_add(cl0, bytes + 2),
        seq_add(seq_add(sv0, 1), 1) == seq_add(sv0, 2),
{
    let a1 = seq_add(cl0, 1);
    let a2 = seq_add(a1, bytes);
    vstd::arithmetic::div_mod::lemma_add_mod_noop(cl0 + 1, bytes, 0x100000000);
    vstd::arithmetic::div_mod::lemma_mod_twice(cl0 + 1, 0x100000000);
    vstd::arithmetic::div_mod::lemma_add_mod_noop(cl0 + 1 + bytes, 1, 0x100000000);
    vstd::arithmetic::div_mod::lemma_mod_twice(cl0 + 1 + bytes, 0x100000000);
    vstd::arithmetic::div_mod::lemma_add_mod_noop(sv0 + 1, 1, 0x100000000);
    vstd::arithmetic::div_mod::lemma_mod_twice(sv0 + 1, 0x100000000);
}

/// Helper for creating TCP segments: Ethernet (unless raw), IPv4 and
/// TCP headers, then payload. `data_len` counts real payload bytes and
/// `extra_seq` the sequence numbers consumed by SYN and FIN flags.
#[derive(Debug)]
pub struct TcpSeg {
    pub pkt: Packet,
    pub eth: Option<eth_hdr>,
    pub ip: ip_hdr,
    pub tcp: tcp_hdr,
    pub st: TcpState,
    pub data_len: u32,
    pub extra_seq: u32,
}

impl TcpSeg {
    pub open spec fn ip_off(&self) -> int {
        if self.eth is Some {
            30
        } else {
            16
        }
    }

    pub open spec fn tcp_off(&self) -> int {
        self.ip_off() + 20
    }

    pub open spec fn payload_off(&self) -> int {
        self.tcp_off() + 20
    }

    pub open spec fn payload(&self) -> Seq<u8> {
        self.pkt.buf@.skip(self.payload_off())
    }

    pub open spec fn layout_wf(&self) -> bool {
        &&& self.pkt.wf()
        &&& self.pkt.headroom == 16
        &&& self.payload_off() <= self.pkt.buf@.len()
    }

    pub open spec fn bytes_wf(&self) -> bool {
        &&& (self.eth is Some ==> self.pkt.buf@.subrange(16, 30) == self.eth.unwrap().wire())
        &&& self.pkt.buf@.subrange(self.ip_off(), self.ip_off() + 20) == self.ip.wire()
        &&& self.pkt.buf@.subrange(self.tcp_off(), self.tcp_off() + 20) == self.tcp.wire()
    }

    pub open spec fn len_wf(&self) -> bool {
        &&& self.ip.tot_len == 40 + self.payload().len()
        &&& self.data_len == self.payload().len()
    }

    pub open spec fn wf(&self) -> bool {
        self.layout_wf() && self.bytes_wf() && self.len_wf()
    }

    /// The logical content of the finished packet: headers then payload.
    pub open spec fn content_spec(&self) -> Seq<u8> {
        (if self.eth is Some {
            self.eth.unwrap().wire()
        } else {
            Seq::<u8>::empty()
        }) + self.ip.wire() + self.tcp.wire() + self.payload()
    }

    /// A well-formed segment's packet holds exactly its headers and
    /// payload.
    pub proof fn lemma_content(&self)
        requires
            self.wf(),
        ensures
            self.pkt.content() == self.content_spec(),
    {
        assert(self.pkt.content() =~= self.content_spec());
    }

    fn ip_off_x(&self) -> (r: usize)
        ensures
            r == self.ip_off(),
    {
        if self.eth.is_some() {
            30
        } else {
            16
        }
    }

    /// Rewrite all header bytes from the typed header values.
    fn sync(&mut self)
        requires
            old(self).layout_wf(),
        ensures
            final(self).pkt.buf@.len() == old(self).pkt.buf@.len(),
            final(self).eth == old(self).eth,
            final(self).ip == old(self).ip,
            final(self).tcp == old(self).tcp,
            final(self).st == old(self).st,
            final(self).data_len == old(self).data_len,
            final(self).extra_seq == old(self).extra_seq,
            final(self).payload() == old(self).payload(),
            final(self).layout_wf(),
            final(self).bytes_wf(),
    {
        let ip_off = self.ip_off_x();
        proof {
            assert(self.ip.wire().len() == 20);
            assert(self.tcp.wire().len() == 20);
        }
        match self.eth {
            Some(e) => {
                proof {
                    assert(e.wire().len() == 14);
                }
                self.pkt.set(Hdr { off: 16, len: 14 }, &e);
                proof {
                    lemma_splice_parts(old(self).pkt.buf@, 16, e.wire());
                }
            }
            None => {}
        }
        let ghost b1 = self.pkt.buf@;
        let ip = self.ip;
        self.pkt.set(Hdr { off: ip_off, len: 20 }, &ip);
        proof {
            lemma_splice_parts(b1, ip_off as int, self.ip.wire());
        }
        let ghost b2 = self.pkt.buf@;
        let tcp = self.tcp;
        self.pkt.set(Hdr { off: ip_off + 20, len: 20 }, &tcp);
        proof {
            lemma_splice_parts(b2, ip_off + 20, self.tcp.wire());
            let bf = self.pkt.buf@;
            assert(self.payload() =~= old(self).payload());
            assert(bf.subrange(self.ip_off(), self.ip_off() + 20) =~= self.ip.wire());
            assert(bf.subrange(self.tcp_off(), self.tcp_off() + 20) =~= self.tcp.wire());
            if self.eth is Some {
                assert(bf.subrange(16, 30) =~= self.eth.unwrap().wire());
            }
        }
    }

    /// A fresh empty segment from `src` to `dst`, with the sender's
    /// current state.
    fn new(src: Sock4, dst: Sock4, st: TcpState, raw: bool) -> (r: TcpSeg)
        ensures
            r.wf(),
            (r.eth is Some) == !raw,
            !raw ==> r.eth.unwrap().wire() == tcp_seg_eth(src, dst),
            r.ip == tcp_seg_ip(src, dst, 0),
            r.tcp == tcp_seg_tcp0(src, dst, st.snd_nxt, 0, 0),
            r.st == st,
            r.data_len == 0,
            r.extra_seq == 0,
            r.payload() == Seq::<u8>::empty(),
    {
        let mut pkt = Packet::with_capacity(54);
        let eth: Option<eth_hdr> = if raw {
            None
        } else {
            let e = eth_hdr::new(
                eth_addr::from_ip(src.ip),
                eth_addr::from_ip(dst.ip),
                ETHERTYPE_IPV4,
            );
            proof {
                assert(e.wire().len() == 14);
                assert(e.wire() =~= tcp_seg_eth(src, dst));
            }
            pkt.push(e);
            Some(e)
        };
        let mut iph = ip_hdr::default();
        iph.set_protocol(PROTO_TCP);
        iph.set_tot_len(40);
        iph.set_saddr(src.ip);
        iph.set_daddr(dst.ip);
        iph.calc_csum();
        proof {
            assert(iph.wire().len() == 20);
        }
        pkt.push(iph);
        let mut tcph = tcp_hdr::new(src.port, dst.port);
        tcph.set_seq(st.snd_nxt);
        proof {
            assert(tcph.wire().len() == 20);
        }
        pkt.push(tcph);
        let r = TcpSeg { pkt, eth, ip: iph, tcp: tcph, st, data_len: 0, extra_seq: 0 };
        proof {
            let b = r.pkt.buf@;
            assert(r.payload() =~= Seq::<u8>::empty());
            assert(b.subrange(r.ip_off(), r.ip_off() + 20) =~= iph.wire());
            assert(b.subrange(r.tcp_off(), r.tcp_off() + 20) =~= tcph.wire());
            if !raw {
                assert(b.subrange(16, 30) =~= r.eth.unwrap().wire());
            }
            let x = ip_hdr {
                saddr: src.ip.bits,
                daddr: dst.ip.bits,
                tot_len: 40,
                protocol: PROTO_TCP,
                ..ip_hdr::default_spec()
            };
            assert(iph.zero_csum() == x.zero_csum());
            assert(iph == tcp_seg_ip(src, dst, 0));
        }
        r
    }

    /// Raise SYN; it consumes one sequence number.
    fn syn(self) -> (r: TcpSeg)
        requires
            self.wf(),
            self.extra_seq < 0xffffffff,
        ensures
            r == (TcpSeg {
                pkt: r.pkt,
                tcp: tcp_hdr { flags: (self.tcp.flags | TCP_SYN) as u8, ..self.tcp },
                extra_seq: (self.extra_seq + 1) as u32,
                ..self
            }),
            r.wf(),
            r.payload() == self.payload(),
    {
        let mut s = self;
        s.tcp.set_syn();
        s.extra_seq = s.extra_seq + 1;
        s.sync();
        s
    }

    /// Raise SYN and acknowledge the peer; SYN consumes one sequence
    /// number.
    fn syn_ack(self) -> (r: TcpSeg)
        requires
            self.wf(),
            self.extra_seq < 0xffffffff,
        ensures
            r == (TcpSeg {
                pkt: r.pkt,
                tcp: tcp_hdr {
                    ack: self.st.rcv_nxt,
                    flags: (self.tcp.flags | TCP_SYN | TCP_ACK) as u8,
                    ..self.tcp
                },
                extra_seq: (self.extra_seq + 1) as u32,
                ..self
            }),
            r.wf(),
            r.payload() == self.payload(),
    {
        let mut s = self;
        s.tcp.set_syn();
        let rcv = s.st.rcv_nxt;
        s.tcp.set_ack(rcv);
        s.extra_seq = s.extra_seq + 1;
        s.sync();
        s
    }

    /// Acknowledge the peer's next expected sequence number.
    fn ack(self) -> (r: TcpSeg)
        requires
            self.wf(),
        ensures
            r == (TcpSeg {
                pkt: r.pkt,
                tcp: tcp_hdr {
                    ack: self.st.rcv_nxt,
                    flags: (self.tcp.flags | TCP_ACK) as u8,
                    ..self.tcp
                },
                ..self
            }),
            r.wf(),
            r.payload() == self.payload(),
    {
        let mut s = self;
        let rcv = s.st.rcv_nxt;
        s.tcp.set_ack(rcv);
        s.sync();
        s
    }

    /// Raise PSH and acknowledge.
    fn push(self) -> (r: TcpSeg)
        requires
            self.wf(),
        ensures
            r == (TcpSeg {
                pkt: r.pkt,
                tcp: tcp_hdr {
                    ack: self.st.rcv_nxt,
                    flags: (self.tcp.flags | TCP_PSH | TCP_ACK) as u8,
                    ..self.tcp
                },
                ..self
            }),
            r.wf(),
            r.payload() == self.payload(),
    {
        let mut s = self;
        s.tcp.set_push();
        let rcv = s.st.rcv_nxt;
        s.tcp.set_ack(rcv);
        s.sync();
        s
    }

    /// Raise RST.
    fn rst(self) -> (r: TcpSeg)
        requires
            self.wf(),
        ensures
            r == (TcpSeg {
                pkt: r.pkt,
                tcp: tcp_hdr { flags: (self.tcp.flags | TCP_RST) as u8, ..self.tcp },
                ..self
            }),
            r.wf(),
            r.payload() == self.payload(),
    {
        let mut s = self;
        s.tcp.set_rst();
        s.sync();
        s
    }

    /// Raise FIN; it consumes one sequence number.
    fn fin(self) -> (r: TcpSeg)
        requires
            self.wf(),
            self.extra_seq < 0xffffffff,
        ensures
            r == (TcpSeg {
                pkt: r.pkt,
                tcp: tcp_hdr { flags: (self.tcp.flags | TCP_FIN) as u8, ..self.tcp },
                extra_seq: (self.extra_seq + 1) as u32,
                ..self
            }),
            r.wf(),
            r.payload() == self.payload(),
    {
        let mut s = self;
        s.tcp.set_fin();
        s.extra_seq = s.extra_seq + 1;
        s.sync();
        s
    }

    /// FIN plus ACK.
    fn fin_ack(self) -> (r: TcpSeg)
        requires
            self.wf(),
            self.extra_seq < 0xffffffff,
        ensures
            r == (TcpSeg {
                pkt: r.pkt,
                tcp: tcp_hdr {
                    ack: self.st.rcv_nxt,
                    flags: (self.tcp.flags | TCP_FIN | TCP_ACK) as u8,
                    ..self.tcp
                },
                extra_seq: (self.extra_seq + 1) as u32,
                ..self
            }),
            r.wf(),
            r.payload() == self.payload(),
    {
        self.fin().ack()
    }

    /// Append payload bytes and grow the IP total length.
    fn append_data(self, bytes: &[u8]) -> (r: TcpSeg)
        requires
            self.wf(),
            self.ip.tot_len + bytes@.len() <= 0xffff,
        ensures
            r == (TcpSeg {
                pkt: r.pkt,
                ip: (ip_hdr {
                    tot_len: (self.ip.tot_len + bytes@.len()) as u16,
                    ..self.ip
                }).recalc(),
                data_len: (self.data_len + bytes@.len()) as u32,
                ..self
            }),
            r.wf(),
            r.payload() == self.payload() + bytes@,
    {
        let mut s = self;
        proof {
            lemma_append_parts(s.pkt.buf@, bytes@);
        }
        s.pkt.push_bytes(bytes);
        proof {
            assert(s.payload() =~= self.payload() + bytes@);
        }
        let n = bytes.len() as u16;
        s.data_len = s.data_len + (n as u32);
        s.ip.add_tot_len(n);
        s.ip.calc_csum();
        s.sync();
        s
    }

    /// PSH|ACK with payload.
    fn push_bytes(self, bytes: &[u8]) -> (r: TcpSeg)
        requires
            self.wf(),
            self.ip.tot_len + bytes@.len() <= 0xffff,
        ensures
            r == (TcpSeg {
                pkt: r.pkt,
                ip: (ip_hdr {
                    tot_len: (self.ip.tot_len + bytes@.len()) as u16,
                    ..self.ip
                }).recalc(),
                tcp: tcp_hdr {
                    ack: self.st.rcv_nxt,
                    flags: (self.tcp.flags | TCP_PSH | TCP_ACK) as u8,
                    ..self.tcp
                },
                data_len: (self.data_len + bytes@.len()) as u32,
                ..self
            }),
            r.wf(),
            r.payload() == self.payload() + bytes@,
    {
        self.push().append_data(bytes)
    }

    /// Set the IPv4 fragment offset and refresh the IP checksum.
    fn frag_off(self, frag_off: u16) -> (r: TcpSeg)
        requires
            self.wf(),
        ensures
            r == (TcpSeg {
                pkt: r.pkt,
                ip: (ip_hdr {
                    frag_off: (frag_off | (self.ip.frag_off & 0xe000)) as u16,
                    ..self.ip
                }).recalc(),
                ..self
            }),
            r.wf(),
            r.payload() == self.payload(),
    {
        let mut s = self;
        s.ip.set_frag_off(frag_off);
        s.ip.calc_csum();
        s.sync();
        s
    }

    /// The length the transport checksum covers: TCP header plus data.
    fn csum_len(&self) -> (r: u16)
        requires
            self.wf(),
        ensures
            r == 20 + self.payload().len(),
    {
        proof {
            assert(self.data_len <= 0xffff - 40);
        }
        (self.data_len as u16) + 20
    }

    /// Compute and store the TCP checksum over pseudo-header, TCP
    /// header and payload.
    fn tcp_csum(self) -> (r: TcpSeg)
        requires
            self.wf(),
        ensures
            r == (TcpSeg {
                pkt: r.pkt,
                tcp: tcp_hdr {
                    csum: transport_csum(
                        ip_pseudo_hdr {
                            src: self.ip.saddr,
                            dst: self.ip.daddr,
                            proto: self.ip.protocol,
                            len: (20 + self.payload().len()) as u16,
                        },
                        self.tcp.wire(),
                        self.payload(),
                    ),
                    ..self.tcp
                },
                ..self
            }),
            r.wf(),
            r.payload() == self.payload(),
    {
        let mut s = self;
        let len = s.csum_len();
        let ph = s.ip.get_pseudo_hdr(len);
        let ph_part = ph.csum_partial();
        let hdr_bytes = s.tcp.write_bytes();
        proof {
            assert(s.tcp.wire().len() == 20);
            assert(s.payload().len() <= 0xffff);
            lemma_csum_partial_bound(ph.wire());
            lemma_csum_partial_bound(s.tcp.wire());
            lemma_csum_partial_bound(s.payload());
            assert(ph.wire().len() == 12);
            assert((s.payload().len() + 1) / 2 <= 32768);
            assert(csum_partial_spec(s.payload()) <= 32768 * 0xffff);
        }
        let hdr_part = ip_csum_partial(hdr_bytes.as_slice());
        let payload_off = s.ip_off_x() + 40;
        let payload_len = s.pkt.len_from(payload_off);
        let payload_bytes = s.pkt.to_vec_from(PktSlice { off: payload_off, len: payload_len });
        proof {
            assert(payload_bytes@ =~= s.payload());
        }
        let pl_part = ip_csum_partial(payload_bytes.as_slice());
        let c = ip_csum_fold(ph_part + hdr_part + pl_part);
        s.tcp.set_csum(c);
        s.sync();
        s
    }

    /// The sequence numbers this segment consumes: data plus SYN/FIN.
    fn seq_consumed(&self) -> (r: u32)
        requires
            self.data_len + self.extra_seq <= u32::MAX,
        ensures
            r == self.data_len + self.extra_seq,
    {
        self.data_len + self.extra_seq
    }

    /// The TCP header's wire bytes.
    pub fn tcp_hdr_bytes(&self) -> (r: Vec<u8>)
        requires
            self.wf(),
        ensures
            r@ == self.tcp.wire(),
    {
        self.tcp.write_bytes()
    }

    /// The TCP header and payload as a slice handle.
    pub fn tcp_segment(&self) -> (r: PktSlice)
        requires
            self.wf(),
        ensures
            r.off == self.tcp_off(),
            r.len == 20 + self.payload().len(),
    {
        let off = self.ip_off_x() + 20;
        PktSlice { off, len: self.pkt.len_from(off) }
    }

    /// The TCP header and payload, copied out.
    pub fn tcp_segment_bytes(&self) -> (r: Vec<u8>)
        requires
            self.wf(),
        ensures
            r@ == self.tcp.wire() + self.payload(),
    {
        let ps = self.tcp_segment();
        let r = self.pkt.to_vec_from(ps);
        proof {
            assert(r@ =~= self.tcp.wire() + self.payload());
        }
        r
    }

    /// Consume the builder, yielding the TCP header and payload.
    pub fn into_tcpseg(self) -> (r: Vec<u8>)
        requires
            self.wf(),
        ensures
            r@ == self.tcp.wire() + self.payload(),
    {
        self.tcp_segment_bytes()
    }

    /// Consume the builder, yielding the finished packet.
    pub fn into_packet(self) -> (r: Packet)
        ensures
            r == self.pkt,
    {
        self.pkt
    }
}

/// The content a transmitted segment ends up with once its checksum is
/// filled in.
pub open spec fn tx_content(seg: TcpSeg) -> Seq<u8> {
    (if seg.eth is Some {
        seg.eth.unwrap().wire()
    } else {
        Seq::<u8>::empty()
    }) + seg.ip.wire() + (tcp_hdr {
        csum: transport_csum(
            ip_pseudo_hdr {
                src: seg.ip.saddr,
                dst: seg.ip.daddr,
                proto: seg.ip.protocol,
                len: (20 + seg.payload().len()) as u16,
            },
            seg.tcp.wire(),
            seg.payload(),
        ),
        ..seg.tcp
    }).wire() + seg.payload()
}

/// A TCP session between a client and a server. `cl_seq` and `sv_seq`
/// are the next sequence number each side will send; every emitted
/// segment advances its sender by the payload bytes plus one for each
/// of SYN and FIN, modulo 2^32.
#[derive(Debug)]
pub struct TcpFlow {
    pub cl: Sock4,
    pub sv: Sock4,
    pub cl_seq: u32,
    pub sv_seq: u32,
    pub raw: bool,
    pub pkts: Vec<Packet>,
}

/// Two packet lists hold the same bytes, packet for packet.
pub open spec fn pkts_eq_spec(a: Seq<Packet>, b: Seq<Packet>) -> bool {
    a.len() == b.len() && (forall|j: int|
        0 <= j < a.len() ==> (#[trigger] a[j]).buf@ == b[j].buf@ && a[j].headroom
            == b[j].headroom)
}

/// Compare two packet lists element by element.
pub fn packets_eq(a: &Vec<Packet>, b: &Vec<Packet>) -> (r: bool)
    ensures
        r == pkts_eq_spec(a@, b@),
{
    if a.len() != b.len() {
        return false;
    }
    let mut i: usize = 0;
    while i < a.len()
        invariant
            0 <= i <= a@.len(),
            a@.len() == b@.len(),
            forall|j: int|
                0 <= j < i ==> (#[trigger] a@[j]).buf@ == b@[j].buf@ && a@[j].headroom
                    == b@[j].headroom,
        decreases a@.len() - i,
    {
        let same = a[i] == b[i];
        if !same {
            return false;
        }
        i += 1;
    }
    true
}

impl PartialEq for TcpFlow {
    fn eq(&self, other: &Self) -> (r: bool) {
        self.cl == other.cl && self.sv == other.sv && self.cl_seq == other.cl_seq && self.sv_seq
            == other.sv_seq && self.raw == other.raw && packets_eq(&self.pkts, &other.pkts)
    }
}

impl vstd::std_specs::cmp::PartialEqSpecImpl for TcpFlow {
    open spec fn obeys_eq_spec() -> bool {
        true
    }

    open spec fn eq_spec(&self, other: &TcpFlow) -> bool {
        self.cl == other.cl && self.sv == other.sv && self.cl_seq == other.cl_seq && self.sv_seq
            == other.sv_seq && self.raw == other.raw && pkts_eq_spec(self.pkts@, other.pkts@)
    }
}

impl Eq for TcpFlow {}

/// What a three-way handshake call leaves behind: both sequence
/// numbers advanced past the SYNs, and the transmit queue drained into
/// the result ahead of the SYN, SYN|ACK and ACK segments.
pub open spec fn tcp_open_result(pre: TcpFlow, post: TcpFlow, out: Seq<Packet>) -> bool {
    &&& post == (TcpFlow {
        cl_seq: seq_add(pre.cl_seq, 1),
        sv_seq: seq_add(pre.sv_seq, 1),
        pkts: post.pkts,
        ..pre
    })
    &&& post.pkts@.len() == 0
    &&& out.len() == pre.pkts@.len() + 3
    &&& out.subrange(0, pre.pkts@.len() as int) == pre.pkts@
    &&& out[pre.pkts@.len() as int].content() == tcp_packet_content(
        pre.raw,
        pre.cl,
        pre.sv,
        pre.cl_seq,
        0,
        TCP_SYN,
        Seq::<u8>::empty(),
    )
    &&& out[pre.pkts@.len() as int + 1].content() == tcp_packet_content(
        pre.raw,
        pre.sv,
        pre.cl,
        pre.sv_seq,
        seq_add(pre.cl_seq, 1),
        0x12,
        Seq::<u8>::empty(),
    )
    &&& out[pre.pkts@.len() as int + 2].content() == tcp_packet_content(
        pre.raw,
        pre.cl,
        pre.sv,
        seq_add(pre.cl_seq, 1),
        seq_add(pre.sv_seq, 1),
        TCP_ACK,
        Seq::<u8>::empty(),
    )
}

impl TcpFlow {
    pub fn new(cl: Sock4, sv: Sock4, cl_seq: u32, sv_seq: u32, raw: bool) -> (r: TcpFlow)
        ensures
            r.cl == cl,
            r.sv == sv,
            r.cl_seq == cl_seq,
            r.sv_seq == sv_seq,
            r.raw == raw,
            r.pkts@ == Seq::<Packet>::empty(),
    {
        let pkts: Vec<Packet> = Vec::new();
        proof {
            assert(pkts@ =~= Seq::<Packet>::empty());
        }
        TcpFlow { cl, sv, cl_seq, sv_seq, raw, pkts }
    }

    fn cl_state(&self) -> (r: TcpState)
        ensures
            r == (TcpState { snd_nxt: self.cl_seq, rcv_nxt: self.sv_seq }),
    {
        TcpState { snd_nxt: self.cl_seq, rcv_nxt: self.sv_seq }
    }

    fn sv_state(&self) -> (r: TcpState)
        ensures
            r == (TcpState { snd_nxt: self.sv_seq, rcv_nxt: self.cl_seq }),
    {
        TcpState { snd_nxt: self.sv_seq, rcv_nxt: self.cl_seq }
    }

    fn cl(&self) -> (r: TcpSeg)
        ensures
            r.wf(),
            (r.eth is Some) == !self.raw,
            !self.raw ==> r.eth.unwrap().wire() == tcp_seg_eth(self.cl, self.sv),
            r.ip == tcp_seg_ip(self.cl, self.sv, 0),
            r.tcp == tcp_seg_tcp0(self.cl, self.sv, self.cl_seq, 0, 0),
            r.st == (TcpState { snd_nxt: self.cl_seq, rcv_nxt: self.sv_seq }),
            r.data_len == 0,
            r.extra_seq == 0,
            r.payload() == Seq::<u8>::empty(),
    {
        TcpSeg::new(self.cl, self.sv, self.cl_state(), self.raw)
    }

    fn sv(&self) -> (r: TcpSeg)
        ensures
            r.wf(),
            (r.eth is Some) == !self.raw,
            !self.raw ==> r.eth.unwrap().wire() == tcp_seg_eth(self.sv, self.cl),
            r.ip == tcp_seg_ip(self.sv, self.cl, 0),
            r.tcp == tcp_seg_tcp0(self.sv, self.cl, self.sv_seq, 0, 0),
            r.st == (TcpState { snd_nxt: self.sv_seq, rcv_nxt: self.cl_seq }),
            r.data_len == 0,
            r.extra_seq == 0,
            r.payload() == Seq::<u8>::empty(),
    {
        TcpSeg::new(self.sv, self.cl, self.sv_state(), self.raw)
    }

    fn cl_update(&mut self, bytes: u32)
        ensures
            *final(self) == (TcpFlow { cl_seq: seq_add(old(self).cl_seq, bytes as int), ..*old(self) }),
    {
        self.cl_seq = self.cl_seq.wrapping_add(bytes);
    }

    fn sv_update(&mut self, bytes: u32)
        ensures
            *final(self) == (TcpFlow { sv_seq: seq_add(old(self).sv_seq, bytes as int), ..*old(self) }),
    {
        self.sv_seq = self.sv_seq.wrapping_add(bytes);
    }

    /// Checksum a finished segment, advance the client's sequence
    /// number by what it consumed, and queue the packet.
    fn cl_tx(&mut self, seg: TcpSeg)
        requires
            seg.wf(),
            seg.data_len + seg.extra_seq <= u32::MAX,
        ensures
            *final(self) == (TcpFlow {
                cl_seq: seq_add(old(self).cl_seq, seg.data_len + seg.extra_seq),
                pkts: final(self).pkts,
                ..*old(self)
            }),
            final(self).pkts@.len() == old(self).pkts@.len() + 1,
            final(self).pkts@.subrange(0, old(self).pkts@.len() as int) == old(self).pkts@,
            final(self).pkts@.last().content() == tx_content(seg),
            final(self).pkts@.last().headroom == 16,
    {
        let n = seg.seq_consumed();
        self.cl_update(n);
        let done = seg.tcp_csum();
        proof {
            done.lemma_content();
            assert(done.content_spec() == tx_content(seg));
        }
        let p = done.into_packet();
        let ghost pk0 = self.pkts@;
        self.pkts.push(p);
        proof {
            assert(self.pkts@.subrange(0, pk0.len() as int) =~= pk0);
        }
    }

    /// Checksum a finished segment, advance the server's sequence
    /// number by what it consumed, and queue the packet.
    fn sv_tx(&mut self, seg: TcpSeg)
        requires
            seg.wf(),
            seg.data_len + seg.extra_seq <= u32::MAX,
        ensures
            *final(self) == (TcpFlow {
                sv_seq: seq_add(old(self).sv_seq, seg.data_len + seg.extra_seq),
                pkts: final(self).pkts,
                ..*old(self)
            }),
            final(self).pkts@.len() == old(self).pkts@.len() + 1,
            final(self).pkts@.subrange(0, old(self).pkts@.len() as int) == old(self).pkts@,
            final(self).pkts@.last().content() == tx_content(seg),
            final(self).pkts@.last().headroom == 16,
    {
        let n = seg.seq_consumed();
        self.sv_update(n);
        let done = seg.tcp_csum();
        proof {
            done.lemma_content();
            assert(done.content_spec() == tx_content(seg));
        }
        let p = done.into_packet();
        let ghost pk0 = self.pkts@;
        self.pkts.push(p);
        proof {
            assert(self.pkts@.subrange(0, pk0.len() as int) =~= pk0);
        }
    }

    /// Drain the queued packets.
    fn take_pkts(&mut self) -> (r: Vec<Packet>)
        ensures
            r@ == old(self).pkts@,
            *final(self) == (TcpFlow { pkts: final(self).pkts, ..*old(self) }),
            final(self).pkts@.len() == 0,
    {
        let mut r: Vec<Packet> = Vec::new();
        core::mem::swap(&mut r, &mut self.pkts);
        r
    }

    /// Replace each sequence number with its override, if present, and
    /// return the previous values for a later `pop_state`.
    pub fn push_state(&mut self, cl_seq: Option<u32>, sv_seq: Option<u32>) -> (r: (
        Option<u32>,
        Option<u32>,
    ))
        ensures
            r.0 == (if cl_seq is Some {
                Some(old(self).cl_seq)
            } else {
                None::<u32>
            }),
            r.1 == (if sv_seq is Some {
                Some(old(self).sv_seq)
            } else {
                None::<u32>
            }),
            *final(self) == (TcpFlow {
                cl_seq: (if cl_seq is Some {
                    cl_seq.unwrap()
                } else {
                    old(self).cl_seq
                }),
                sv_seq: (if sv_seq is Some {
                    sv_seq.unwrap()
                } else {
                    old(self).sv_seq
                }),
                ..*old(self)
            }),
    {
        let ret = (
            if cl_seq.is_some() {
                Some(self.cl_seq)
            } else {
                None
            },
            if sv_seq.is_some() {
                Some(self.sv_seq)
            } else {
                None
            },
        );
        self.cl_seq = match cl_seq {
            Some(v) => v,
            None => self.cl_seq,
        };
        self.sv_seq = match sv_seq {
            Some(v) => v,
            None => self.sv_seq,
        };
        ret
    }

    /// Restore sequence numbers saved by `push_state`.
    pub fn pop_state(&mut self, st: (Option<u32>, Option<u32>))
        ensures
            *final(self) == (TcpFlow {
                cl_seq: (if st.0 is Some {
                    st.0.unwrap()
                } else {
                    old(self).cl_seq
                }),
                sv_seq: (if st.1 is Some {
                    st.1.unwrap()
                } else {
                    old(self).sv_seq
                }),
                ..*old(self)
            }),
    {
        let (cl_seq, sv_seq) = st;
        self.cl_seq = match cl_seq {
            Some(v) => v,
            None => self.cl_seq,
        };
        self.sv_seq = match sv_seq {
            Some(v) => v,
            None => self.sv_seq,
        };
    }

    /// Advance the client's sequence number without emitting a packet,
    /// simulating a missed segment.
    pub fn client_hole(&mut self, bytes: u32)
        ensures
            *final(self) == (TcpFlow { cl_seq: seq_add(old(self).cl_seq, bytes as int), ..*old(self) }),
    {
        self.cl_update(bytes);
    }

    /// Advance the server's sequence number without emitting a packet,
    /// simulating a missed segment.
    pub fn server_hole(&mut self, bytes: u32)
        ensures
            *final(self) == (TcpFlow { sv_seq: seq_add(old(self).sv_seq, bytes as int), ..*old(self) }),
    {
        self.sv_update(bytes);
    }

    /// A PSH|ACK data segment from the client, with a fragment offset.
    fn cl_seg(&self, bytes: &[u8], frag_off: u16) -> (r: TcpSeg)
        requires
            bytes@.len() <= 0xffff - 40,
        ensures
            r.wf(),
            (r.eth is Some) == !self.raw,
            !self.raw ==> r.eth.unwrap().wire() == tcp_seg_eth(self.cl, self.sv),
            r.ip == tcp_seg_ip_frag(self.cl, self.sv, bytes@.len() as int, frag_off),
            r.tcp == tcp_seg_tcp0(self.cl, self.sv, self.cl_seq, self.sv_seq, 0x18),
            r.data_len == bytes@.len(),
            r.extra_seq == 0,
            r.payload() == bytes@,
    {
        let r = self.cl().frag_off(frag_off).push_bytes(bytes);
        proof {
            assert(frag_off | (0u16 & 0xe000u16) == frag_off) by (bit_vector);
            assert(0u8 | 0x08u8 | 0x10u8 == 0x18u8) by (bit_vector);
            let x = ip_hdr {
                tot_len: (40 + bytes@.len()) as u16,
                frag_off,
                saddr: self.cl.ip.bits,
                daddr: self.sv.ip.bits,
                protocol: PROTO_TCP,
                ..ip_hdr::default_spec()
            };
            assert(r.ip.zero_csum() == x.zero_csum());
            assert(r.ip == tcp_seg_ip_frag(self.cl, self.sv, bytes@.len() as int, frag_off));
        }
        r
    }

    /// A PSH|ACK data segment from the server, with a fragment offset.
    fn sv_seg(&self, bytes: &[u8], frag_off: u16) -> (r: TcpSeg)
        requires
            bytes@.len() <= 0xffff - 40,
        ensures
            r.wf(),
            (r.eth is Some) == !self.raw,
            !self.raw ==> r.eth.unwrap().wire() == tcp_seg_eth(self.sv, self.cl),
            r.ip == tcp_seg_ip_frag(self.sv, self.cl, bytes@.len() as int, frag_off),
            r.tcp == tcp_seg_tcp0(self.sv, self.cl, self.sv_seq, self.cl_seq, 0x18),
            r.data_len == bytes@.len(),
            r.extra_seq == 0,
            r.payload() == bytes@,
    {
        let r = self.sv().frag_off(frag_off).push_bytes(bytes);
        proof {
            assert(frag_off | (0u16 & 0xe000u16) == frag_off) by (bit_vector);
            assert(0u8 | 0x08u8 | 0x10u8 == 0x18u8) by (bit_vector);
            let x = ip_hdr {
                tot_len: (40 + bytes@.len()) as u16,
                frag_off,
                saddr: self.sv.ip.bits,
                daddr: self.cl.ip.bits,
                protocol: PROTO_TCP,
                ..ip_hdr::default_spec()
            };
            assert(r.ip.zero_csum() == x.zero_csum());
            assert(r.ip == tcp_seg_ip_frag(self.sv, self.cl, bytes@.len() as int, frag_off));
        }
        r
    }

    /// A data segment from the client; the client's sequence number
    /// advances by the payload length.
    pub fn client_data_segment(&mut self, bytes: &[u8]) -> (r: TcpSeg)
        requires
            bytes@.len() <= 0xffff - 40,
        ensures
            *final(self) == (TcpFlow {
                cl_seq: seq_add(old(self).cl_seq, bytes@.len() as int),
                ..*old(self)
            }),
            r.wf(),
            (r.eth is Some) == !old(self).raw,
            r.ip == tcp_seg_ip(old(self).cl, old(self).sv, bytes@.len() as int),
            r.tcp == tcp_seg_tcp(
                old(self).cl,
                old(self).sv,
                old(self).cl_seq,
                old(self).sv_seq,
                0x18,
                bytes@,
            ),
            r.payload() == bytes@,
    {
        let seg = self.cl_seg(bytes, 0);
        let n = seg.seq_consumed();
        self.cl_update(n);
        let r = seg.tcp_csum();
        proof {
            assert(0u16 | (0u16 & 0xe000u16) == 0u16) by (bit_vector);
        }
        r
    }

    /// A data segment from the server; the server's sequence number
    /// advances by the payload length.
    pub fn server_data_segment(&mut self, bytes: &[u8]) -> (r: TcpSeg)
        requires
            bytes@.len() <= 0xffff - 40,
        ensures
            *final(self) == (TcpFlow {
                sv_seq: seq_add(old(self).sv_seq, bytes@.len() as int),
                ..*old(self)
            }),
            r.wf(),
            (r.eth is Some) == !old(self).raw,
            r.ip == tcp_seg_ip(old(self).sv, old(self).cl, bytes@.len() as int),
            r.tcp == tcp_seg_tcp(
                old(self).sv,
                old(self).cl,
                old(self).sv_seq,
                old(self).cl_seq,
                0x18,
                bytes@,
            ),
            r.payload() == bytes@,
    {
        let seg = self.sv_seg(bytes, 0);
        let n = seg.seq_consumed();
        self.sv_update(n);
        let r = seg.tcp_csum();
        proof {
            assert(0u16 | (0u16 & 0xe000u16) == 0u16) by (bit_vector);
        }
        r
    }

    /// A bare ACK from the client; consumes no sequence number.
    pub fn client_ack(&self) -> (r: TcpSeg)
        ensures
            r.wf(),
            (r.eth is Some) == !self.raw,
            r.ip == tcp_seg_ip(self.cl, self.sv, 0),
            r.tcp == tcp_seg_tcp(
                self.cl,
                self.sv,
                self.cl_seq,
                self.sv_seq,
                TCP_ACK,
                Seq::<u8>::empty(),
            ),
            r.payload() == Seq::<u8>::empty(),
    {
        let r = self.cl().ack().tcp_csum();
        proof {
            assert(0u8 | 0x10u8 == 0x10u8) by (bit_vector);
        }
        r
    }

    /// A bare ACK from the server; consumes no sequence number.
    pub fn server_ack(&self) -> (r: TcpSeg)
        ensures
            r.wf(),
            (r.eth is Some) == !self.raw,
            r.ip == tcp_seg_ip(self.sv, self.cl, 0),
            r.tcp == tcp_seg_tcp(
                self.sv,
                self.cl,
                self.sv_seq,
                self.cl_seq,
                TCP_ACK,
                Seq::<u8>::empty(),
            ),
            r.payload() == Seq::<u8>::empty(),
    {
        let r = self.sv().ack().tcp_csum();
        proof {
            assert(0u8 | 0x10u8 == 0x10u8) by (bit_vector);
        }
        r
    }

    /// A RST segment from the client; consumes no sequence number.
    pub fn client_reset(&mut self) -> (r: TcpSeg)
        ensures
            *final(self) == *old(self),
            r.wf(),
            (r.eth is Some) == !old(self).raw,
            r.ip == tcp_seg_ip(old(self).cl, old(self).sv, 0),
            r.tcp == tcp_seg_tcp(
                old(self).cl,
                old(self).sv,
                old(self).cl_seq,
                0,
                TCP_RST,
                Seq::<u8>::empty(),
            ),
            r.payload() == Seq::<u8>::empty(),
    {
        let r = self.cl().rst().tcp_csum();
        proof {
            assert(0u8 | 0x04u8 == 0x04u8) by (bit_vector);
        }
        r
    }

    /// A RST segment from the server; consumes no sequence number.
    pub fn server_reset(&mut self) -> (r: TcpSeg)
        ensures
            *final(self) == *old(self),
            r.wf(),
            (r.eth is Some) == !old(self).raw,
            r.ip == tcp_seg_ip(old(self).sv, old(self).cl, 0),
            r.tcp == tcp_seg_tcp(
                old(self).sv,
                old(self).cl,
                old(self).sv_seq,
                0,
                TCP_RST,
                Seq::<u8>::empty(),
            ),
            r.payload() == Seq::<u8>::empty(),
    {
        let r = self.sv().rst().tcp_csum();
        proof {
            assert(0u8 | 0x04u8 == 0x04u8) by (bit_vector);
        }
        r
    }

    /// The TCP header of a PSH|ACK segment from the client, as bytes;
    /// the client's sequence number advances by `dlen`, the length of
    /// data to be sent out of band.
    pub fn client_hdr(&mut self, dlen: u32) -> (r: Vec<u8>)
        ensures
            *final(self) == (TcpFlow {
                cl_seq: seq_add(old(self).cl_seq, dlen as int),
                ..*old(self)
            }),
            r@ == tcp_seg_tcp0(
                old(self).cl,
                old(self).sv,
                old(self).cl_seq,
                old(self).sv_seq,
                0x18,
            ).wire(),
    {
        let seg = self.cl().push();
        let hdr = seg.tcp_hdr_bytes();
        let n = seg.seq_consumed();
        proof {
            assert(0u8 | 0x08u8 | 0x10u8 == 0x18u8) by (bit_vector);
        }
        self.cl_update(n.wrapping_add(dlen));
        proof {
            assert(seq_add(old(self).cl_seq, vstd::wrapping::u32_specs::wrapping_add(0, dlen) as int)
                == seq_add(old(self).cl_seq, dlen as int));
        }
        hdr
    }

    /// The TCP header of a PSH|ACK segment from the server, as bytes;
    /// the server's sequence number advances by `dlen`.
    pub fn server_hdr(&mut self, dlen: u32) -> (r: Vec<u8>)
        ensures
            *final(self) == (TcpFlow {
                sv_seq: seq_add(old(self).sv_seq, dlen as int),
                ..*old(self)
            }),
            r@ == tcp_seg_tcp0(
                old(self).sv,
                old(self).cl,
                old(self).sv_seq,
                old(self).cl_seq,
                0x18,
            ).wire(),
    {
        let seg = self.sv().push();
        let hdr = seg.tcp_hdr_bytes();
        let n = seg.seq_consumed();
        proof {
            assert(0u8 | 0x08u8 | 0x10u8 == 0x18u8) by (bit_vector);
        }
        self.sv_update(n.wrapping_add(dlen));
        proof {
            assert(seq_add(old(self).sv_seq, vstd::wrapping::u32_specs::wrapping_add(0, dlen) as int)
                == seq_add(old(self).sv_seq, dlen as int));
        }
        hdr
    }

    /// The three-way handshake: SYN, SYN|ACK, ACK. Each SYN consumes
    /// one sequence number on its side.
    #[verifier::rlimit(50)]
    pub fn open(&mut self) -> (r: Vec<Packet>)
        ensures
            *final(self) == (TcpFlow {
                cl_seq: seq_add(old(self).cl_seq, 1),
                sv_seq: seq_add(old(self).sv_seq, 1),
                pkts: final(self).pkts,
                ..*old(self)
            }),
            final(self).pkts@.len() == 0,
            r@.len() == old(self).pkts@.len() + 3,
            r@.subrange(0, old(self).pkts@.len() as int) == old(self).pkts@,
            r@[old(self).pkts@.len() as int].content() == tcp_packet_content(
                old(self).raw,
                old(self).cl,
                old(self).sv,
                old(self).cl_seq,
                0,
                TCP_SYN,
                Seq::<u8>::empty(),
            ),
            r@[old(self).pkts@.len() as int + 1].content() == tcp_packet_content(
                old(self).raw,
                old(self).sv,
                old(self).cl,
                old(self).sv_seq,
                seq_add(old(self).cl_seq, 1),
                0x12,
                Seq::<u8>::empty(),
            ),
            r@[old(self).pkts@.len() as int + 2].content() == tcp_packet_content(
                old(self).raw,
                old(self).cl,
                old(self).sv,
                seq_add(old(self).cl_seq, 1),
                seq_add(old(self).sv_seq, 1),
                TCP_ACK,
                Seq::<u8>::empty(),
            ),
    {
        proof {
            assert(0u8 | 0x02u8 == 0x02u8) by (bit_vector);
            assert(0u8 | 0x02u8 | 0x10u8 == 0x12u8) by (bit_vector);
            assert(0u8 | 0x10u8 == 0x10u8) by (bit_vector);
        }
        let s1 = self.cl().syn();
        self.cl_tx(s1);
        let s2 = self.sv().syn_ack();
        self.sv_tx(s2);
        let s3 = self.cl().ack();
        self.cl_tx(s3);
        self.take_pkts()
    }

    /// Orderly teardown started by the client: FIN|ACK, FIN|ACK, ACK.
    #[verifier::rlimit(50)]
    pub fn client_close(&mut self) -> (r: Vec<Packet>)
        ensures
            *final(self) == (TcpFlow {
                cl_seq: seq_add(old(self).cl_seq, 1),
                sv_seq: seq_add(old(self).sv_seq, 1),
                pkts: final(self).pkts,
                ..*old(self)
            }),
            final(self).pkts@.len() == 0,
            r@.len() == old(self).pkts@.len() + 3,
            r@.subrange(0, old(self).pkts@.len() as int) == old(self).pkts@,
            r@[old(self).pkts@.len() as int].content() == tcp_packet_content(
                old(self).raw,
                old(self).cl,
                old(self).sv,
                old(self).cl_seq,
                old(self).sv_seq,
                0x11,
                Seq::<u8>::empty(),
            ),
            r@[old(self).pkts@.len() as int + 1].content() == tcp_packet_content(
                old(self).raw,
                old(self).sv,
                old(self).cl,
                old(self).sv_seq,
                seq_add(old(self).cl_seq, 1),
                0x11,
                Seq::<u8>::empty(),
            ),
            r@[old(self).pkts@.len() as int + 2].content() == tcp_packet_content(
                old(self).raw,
                old(self).cl,
                old(self).sv,
                seq_add(old(self).cl_seq, 1),
                seq_add(old(self).sv_seq, 1),
                TCP_ACK,
                Seq::<u8>::empty(),
            ),
    {
        proof {
            assert(0u8 | 0x01u8 | 0x10u8 == 0x11u8) by (bit_vector);
            assert(0u8 | 0x10u8 == 0x10u8) by (bit_vector);
        }
        let s1 = self.cl().fin_ack();
        self.cl_tx(s1);
        let s2 = self.sv().fin_ack();
        self.sv_tx(s2);
        let s3 = self.cl().ack();
        self.cl_tx(s3);
        self.take_pkts()
    }

    /// Orderly teardown started by the server: FIN|ACK, FIN|ACK, ACK.
    #[verifier::rlimit(50)]
    pub fn server_close(&mut self) -> (r: Vec<Packet>)
        ensures
            *final(self) == (TcpFlow {
                cl_seq: seq_add(old(self).cl_seq, 1),
                sv_seq: seq_add(old(self).sv_seq, 1),
                pkts: final(self).pkts,
                ..*old(self)
            }),
            final(self).pkts@.len() == 0,
            r@.len() == old(self).pkts@.len() + 3,
            r@.subrange(0, old(self).pkts@.len() as int) == old(self).pkts@,
            r@[old(self).pkts@.len() as int].content() == tcp_packet_content(
                old(self).raw,
                old(self).sv,
                old(self).cl,
                old(self).sv_seq,
                old(self).cl_seq,
                0x11,
                Seq::<u8>::empty(),
            ),
            r@[old(self).pkts@.len() as int + 1].content() == tcp_packet_content(
                old(self).raw,
                old(self).cl,
                old(self).sv,
                old(self).cl_seq,
                seq_add(old(self).sv_seq, 1),
                0x11,
                Seq::<u8>::empty(),
            ),
            r@[old(self).pkts@.len() as int + 2].content() == tcp_packet_content(
                old(self).raw,
                old(self).sv,
                old(self).cl,
                seq_add(old(self).sv_seq, 1),
                seq_add(old(self).cl_seq, 1),
                TCP_ACK,
                Seq::<u8>::empty(),
            ),
    {
        proof {
            assert(0u8 | 0x01u8 | 0x10u8 == 0x11u8) by (bit_vector);
            assert(0u8 | 0x10u8 == 0x10u8) by (bit_vector);
        }
        let s1 = self.sv().fin_ack();
        self.sv_tx(s1);
        let s2 = self.cl().fin_ack();
        self.cl_tx(s2);
        let s3 = self.sv().ack();
        self.sv_tx(s3);
        self.take_pkts()
    }

    /// A data message from the client, optionally answered by a bare
    /// ACK from the server.
    pub fn client_message(&mut self, bytes: &[u8], send_ack: bool, frag_off: u16) -> (r: Vec<
        Packet,
    >)
        requires
            bytes@.len() <= 0xffff - 40,
        ensures
            *final(self) == (TcpFlow {
                cl_seq: seq_add(old(self).cl_seq, bytes@.len() as int),
                pkts: final(self).pkts,
                ..*old(self)
            }),
            final(self).pkts@.len() == 0,
            r@.len() == old(self).pkts@.len() + (if send_ack {
                2int
            } else {
                1int
            }),
            r@.subrange(0, old(self).pkts@.len() as int) == old(self).pkts@,
            r@[old(self).pkts@.len() as int].content() == tcp_packet_content_frag(
                old(self).raw,
                old(self).cl,
                old(self).sv,
                old(self).cl_seq,
                old(self).sv_seq,
                0x18,
                frag_off,
                bytes@,
            ),
            send_ack ==> r@[old(self).pkts@.len() as int + 1].content() == tcp_packet_content(
                old(self).raw,
                old(self).sv,
                old(self).cl,
                old(self).sv_seq,
                seq_add(old(self).cl_seq, bytes@.len() as int),
                TCP_ACK,
                Seq::<u8>::empty(),
            ),
    {
        proof {
            assert(0u8 | 0x10u8 == 0x10u8) by (bit_vector);
        }
        let s1 = self.cl_seg(bytes, frag_off);
        self.cl_tx(s1);
        if send_ack {
            let s2 = self.sv().ack();
            self.sv_tx(s2);
        }
        self.take_pkts()
    }

    /// A data message from the server, optionally answered by a bare
    /// ACK from the client.
    pub fn server_message(&mut self, bytes: &[u8], send_ack: bool, frag_off: u16) -> (r: Vec<
        Packet,
    >)
        requires
            bytes@.len() <= 0xffff - 40,
        ensures
            *final(self) == (TcpFlow {
                sv_seq: seq_add(old(self).sv_seq, bytes@.len() as int),
                pkts: final(self).pkts,
                ..*old(self)
            }),
            final(self).pkts@.len() == 0,
            r@.len() == old(self).pkts@.len() + (if send_ack {
                2int
            } else {
                1int
            }),
            r@.subrange(0, old(self).pkts@.len() as int) == old(self).pkts@,
            r@[old(self).pkts@.len() as int].content() == tcp_packet_content_frag(
                old(self).raw,
                old(self).sv,
                old(self).cl,
                old(self).sv_seq,
                old(self).cl_seq,
                0x18,
                frag_off,
                bytes@,
            ),
            send_ack ==> r@[old(self).pkts@.len() as int + 1].content() == tcp_packet_content(
                old(self).raw,
                old(self).cl,
                old(self).sv,
                old(self).cl_seq,
                seq_add(old(self).sv_seq, bytes@.len() as int),
                TCP_ACK,
                Seq::<u8>::empty(),
            ),
    {
        proof {
            assert(0u8 | 0x10u8 == 0x10u8) by (bit_vector);
        }
        let s1 = self.sv_seg(bytes, frag_off);
        self.sv_tx(s1);
        if send_ack {
            let s2 = self.cl().ack();
            self.cl_tx(s2);
        }
        self.take_pkts()
    }
}

} // verus!
