use vstd::prelude::*;
use crate::pkt::eth::{eth_hdr, eth_addr, ETHERTYPE_IPV4};
use crate::pkt::gre::{gre_flags_word, gre_hdr, gre_hdr_seq, GreFlags, GRE_S};
use crate::pkt::ipv4::{ip_hdr, PROTO_GRE};
use crate::pkt::packet::{lemma_append_parts, lemma_splice_parts, Hdr, Packet};
use crate::pkt::{spec_be32, Ip4Addr, Serialize};

verus! {

/// The sequence-present bit of a packed flags word is exactly the
/// abstract `s` flag.
pub proof fn lemma_gre_flags_s(f: GreFlags)
    ensures
        ((gre_flags_word(f) & GRE_S) != 0) == f.s,
{
    let v = f.v as u16;
    let recur = f.recur as u16;
    let fl = f.flags as u16;
    let c: u16 = if f.c { 0x8000 } else { 0 };
    let r: u16 = if f.r { 0x4000 } else { 0 };
    let k: u16 = if f.k { 0x2000 } else { 0 };
    let s: u16 = if f.s { 0x1000 } else { 0 };
    let sr: u16 = if f.sr { 0x0800 } else { 0 };
    let a: u16 = if f.a { 0x0080 } else { 0 };
    assert(((((v & 7) | ((recur & 0x7) << 8) | ((fl & 0xf) << 3) | c | r | k | s | sr | a) as u16)
        & 0x1000u16 != 0) == (s == 0x1000)) by (bit_vector)
        requires
            c == 0 || c == 0x8000,
            r == 0 || r == 0x4000,
            k == 0 || k == 0x2000,
            s == 0 || s == 0x1000,
            sr == 0 || sr == 0x0800,
            a == 0 || a == 0x0080,
    ;
}

/// The Ethernet header of a GRE frame from `src` to `dst`.
pub open spec fn gre_eth(src: Ip4Addr, dst: Ip4Addr) -> Seq<u8> {
    seq![0x00u8, 0x02u8] + spec_be32(dst.bits) + seq![0x00u8, 0x02u8] + spec_be32(src.bits)
        + crate::pkt::spec_be16(ETHERTYPE_IPV4)
}

/// The IPv4 header of a finished GRE frame: checksummed for the full
/// length. `s` is the size of the optional sequence extension.
pub open spec fn gre_ip(src: Ip4Addr, dst: Ip4Addr, s: int, n: int) -> ip_hdr {
    (ip_hdr {
        saddr: src.bits,
        daddr: dst.bits,
        tot_len: (24 + s + n) as u16,
        protocol: PROTO_GRE,
        ..ip_hdr::default_spec()
    }).recalc()
}

/// The complete on-wire bytes of an encapsulated GRE frame.
pub open spec fn gre_packet_content(
    raw: bool,
    src: Ip4Addr,
    dst: Ip4Addr,
    flags: GreFlags,
    proto: u16,
    seq: Option<u32>,
    payload: Seq<u8>,
) -> Seq<u8> {
    (if raw {
        Seq::<u8>::empty()
    } else {
        gre_eth(src, dst)
    }) + gre_ip(
        src,
        dst,
        if flags.s {
            4
        } else {
            0
        },
        payload.len() as int,
    ).wire() + (gre_hdr { flags: gre_flags_word(flags), proto }).wire() + (if flags.s {
        spec_be32(
            match seq {
                Some(v) => v,
                None => 0,
            },
        )
    } else {
        Seq::<u8>::empty()
    }) + payload
}

/// Helper for creating GRE frames: Ethernet (unless raw), IPv4 and GRE
/// headers, an optional sequence word, then encapsulated bytes.
#[derive(Debug)]
pub struct GreFrame {
    pub pkt: Packet,
    pub eth: Option<eth_hdr>,
    pub ip: ip_hdr,
    pub gre: gre_hdr,
    pub seq_hdr: Option<gre_hdr_seq>,
}

impl GreFrame {
    pub open spec fn ip_off(&self) -> int {
        if self.eth is Some {
            30
        } else {
            16
        }
    }

    pub open spec fn gre_off(&self) -> int {
        self.ip_off() + 20
    }

    pub open spec fn seq_len(&self) -> int {
        if self.seq_hdr is Some {
            4
        } else {
            0
        }
    }

    pub open spec fn payload_off(&self) -> int {
        self.gre_off() + 4 + self.seq_len()
    }

    /// Everything encapsulated after the GRE header and its extension.
    pub open spec fn payload(&self) -> Seq<u8> {
        self.pkt.buf@.skip(self.payload_off())
    }

    pub open spec fn layout_wf(&self) -> bool {
        &&& self.pkt.wf()
        &&& self.pkt.headroom == 16
        &&& self.payload_off() <= self.pkt.buf@.len()
    }

    pub open spec fn bytes_wf(&self) -> bool {
        &&& (self.eth is Some ==> self.pkt.buf@.subrange(16, 30) == self.eth.unwrap().wire())
        &&& self.pkt.buf@.subrange(self.ip_off(), self.ip_off() + 20) == self.ip.wire()
        &&& self.pkt.buf@.subrange(self.gre_off(), self.gre_off() + 4) == self.gre.wire()
        &&& (self.seq_hdr is Some ==> self.pkt.buf@.subrange(self.gre_off() + 4, self.gre_off() + 8)
            == self.seq_hdr.unwrap().wire())
    }

    pub open spec fn len_wf(&self) -> bool {
        self.ip.tot_len == 24 + self.seq_len() + self.payload().len()
    }

    pub open spec fn wf(&self) -> bool {
        self.layout_wf() && self.bytes_wf() && self.len_wf()
    }

    /// The logical content of the finished packet.
    pub open spec fn content_spec(&self) -> Seq<u8> {
        (if self.eth is Some {
            self.eth.unwrap().wire()
        } else {
            Seq::<u8>::empty()
        }) + self.ip.wire() + self.gre.wire() + (if self.seq_hdr is Some {
            self.seq_hdr.unwrap().wire()
        } else {
            Seq::<u8>::empty()
        }) + self.payload()
    }

    pub proof fn lemma_content(&self)
        requires
            self.wf(),
        ensures
            self.pkt.content() == self.content_spec(),
    {
        assert(self.pkt.content() =~= self.content_spec());
    }

    fn ip_off_x(&self) -> (r: usize)
        ensures
            r == self.ip_off(),
    {
        if self.eth.is_some() {
            30
        } else {
            16
        }
    }

    /// Rewrite all header bytes from the typed header values.
    fn sync(&mut self)
        requires
            old(self).layout_wf(),
        ensures
            final(self).pkt.buf@.len() == old(self).pkt.buf@.len(),
            final(self).eth == old(self).eth,
            final(self).ip == old(self).ip,
            final(self).gre == old(self).gre,
            final(self).seq_hdr == old(self).seq_hdr,
            final(self).payload() == old(self).payload(),
            final(self).layout_wf(),
            final(self).bytes_wf(),
    {
        let ip_off = self.ip_off_x();
        proof {
            assert(self.ip.wire().len() == 20);
            assert(self.gre.wire().len() == 4);
        }
        match self.eth {
            Some(e) => {
                proof {
                    assert(e.wire().len() == 14);
                }
                self.pkt.set(Hdr { off: 16, len: 14 }, &e);
                proof {
                    lemma_splice_parts(old(self).pkt.buf@, 16, e.wire());
                }
            }
            None => {}
        }
        let ghost b1 = self.pkt.buf@;
        let ip = self.ip;
        self.pkt.set(Hdr { off: ip_off, len: 20 }, &ip);
        proof {
            lemma_splice_parts(b1, ip_off as int, self.ip.wire());
        }
        let ghost b2 = self.pkt.buf@;
        let gre = self.gre;
        self.pkt.set(Hdr { off: ip_off + 20, len: 4 }, &gre);
        proof {
            lemma_splice_parts(b2, ip_off + 20, self.gre.wire());
        }
        match self.seq_hdr {
            Some(sh) => {
                proof {
                    assert(sh.wire().len() == 4);
                }
                let ghost b3 = self.pkt.buf@;
                self.pkt.set(Hdr { off: ip_off + 24, len: 4 }, &sh);
                proof {
                    lemma_splice_parts(b3, ip_off + 24, sh.wire());
                }
            }
            None => {}
        }
        proof {
            let bf = self.pkt.buf@;
            assert(self.payload() =~= old(self).payload());
            assert(bf.subrange(self.ip_off(), self.ip_off() + 20) =~= self.ip.wire());
            assert(bf.subrange(self.gre_off(), self.gre_off() + 4) =~= self.gre.wire());
            if self.eth is Some {
                assert(bf.subrange(16, 30) =~= self.eth.unwrap().wire());
            }
            if self.seq_hdr is Some {
                assert(bf.subrange(self.gre_off() + 4, self.gre_off() + 8)
                    =~= self.seq_hdr.unwrap().wire());
            }
        }
    }

    /// A fresh GRE frame; the sequence extension is reserved exactly
    /// when the flags request sequencing. The IP checksum is computed
    /// for the sequence-less header and refreshed on the next append.
    pub fn new(src: Ip4Addr, dst: Ip4Addr, flags: GreFlags, proto: u16, raw: bool, extra: usize)
        -> (r: GreFrame)
        requires
            extra + 70 <= usize::MAX,
        ensures
            r.wf(),
            (r.eth is Some) == !raw,
            !raw ==> r.eth.unwrap().wire() == gre_eth(src, dst),
            r.ip == (ip_hdr {
                tot_len: (24 + r.seq_len()) as u16,
                csum: (ip_hdr {
                    saddr: src.bits,
                    daddr: dst.bits,
                    tot_len: 24,
                    protocol: PROTO_GRE,
                    ..ip_hdr::default_spec()
                }).published_csum(),
                saddr: src.bits,
                daddr: dst.bits,
                protocol: PROTO_GRE,
                ..ip_hdr::default_spec()
            }),
            r.gre == (gre_hdr { flags: gre_flags_word(flags), proto }),
            (r.seq_hdr is Some) == flags.s,
            r.seq_hdr is Some ==> r.seq_hdr.unwrap() == (gre_hdr_seq { seq: 0 }),
            r.payload() == Seq::<u8>::empty(),
    {
        let mut pkt = Packet::with_capacity(54 + extra);
        let eth: Option<eth_hdr> = if raw {
            None
        } else {
            let e = eth_hdr::new(
                eth_addr::from_ip(src),
                eth_addr::from_ip(dst),
                ETHERTYPE_IPV4,
            );
            proof {
                assert(e.wire().len() == 14);
                assert(e.wire() =~= gre_eth(src, dst));
            }
            pkt.push(e);
            Some(e)
        };
        let mut iph = ip_hdr::default();
        iph.set_protocol(PROTO_GRE);
        iph.set_tot_len(24);
        iph.set_saddr(src);
        iph.set_daddr(dst);
        iph.calc_csum();
        proof {
            assert(iph.wire().len() == 20);
        }
        pkt.push(iph);
        let greh = gre_hdr::new(flags, proto);
        proof {
            assert(greh.wire().len() == 4);
        }
        pkt.push(greh);
        let seq_hdr: Option<gre_hdr_seq> = if greh.get_seq() {
            let sh = gre_hdr_seq { seq: 0 };
            proof {
                assert(sh.wire().len() == 4);
            }
            pkt.push(sh);
            iph.add_tot_len(4);
            Some(sh)
        } else {
            None
        };
        proof {
            lemma_gre_flags_s(flags);
        }
        let mut r = GreFrame { pkt, eth, ip: iph, gre: greh, seq_hdr };
        proof {
            assert(r.payload() =~= Seq::<u8>::empty());
            assert(r.pkt.buf@.subrange(r.gre_off(), r.gre_off() + 4) =~= greh.wire());
            if r.seq_hdr is Some {
                assert(r.pkt.buf@.subrange(r.gre_off() + 4, r.gre_off() + 8)
                    =~= r.seq_hdr.unwrap().wire());
            }
            if !raw {
                assert(r.pkt.buf@.subrange(16, 30) =~= r.eth.unwrap().wire());
            }
            let base = ip_hdr {
                saddr: src.bits,
                daddr: dst.bits,
                tot_len: 24,
                protocol: PROTO_GRE,
                ..ip_hdr::default_spec()
            };
            assert((ip_hdr { tot_len: 24, ..iph }).zero_csum() == base.zero_csum());
        }
        r.sync();
        r
    }

    fn update_tot_len(&mut self, more: u16)
        requires
            old(self).layout_wf(),
            old(self).ip.tot_len + more <= 0xffff,
        ensures
            *final(self) == (GreFrame {
                pkt: final(self).pkt,
                ip: (ip_hdr {
                    tot_len: (old(self).ip.tot_len + more) as u16,
                    ..old(self).ip
                }).recalc(),
                ..*old(self)
            }),
            final(self).pkt.buf@.len() == old(self).pkt.buf@.len(),
            final(self).payload() == old(self).payload(),
            final(self).layout_wf(),
            final(self).bytes_wf(),
    {
        self.ip.add_tot_len(more);
        self.ip.calc_csum();
        self.sync();
    }

    /// Append a header record into the encapsulated region and grow
    /// the IP total length.
    pub fn push_hdr<T: Serialize>(&mut self, item: T) -> (h: Hdr)
        requires
            old(self).wf(),
            old(self).ip.tot_len + item.wire().len() <= 0xffff,
        ensures
            *final(self) == (GreFrame {
                pkt: final(self).pkt,
                ip: (ip_hdr {
                    tot_len: (old(self).ip.tot_len + item.wire().len()) as u16,
                    ..old(self).ip
                }).recalc(),
                ..*old(self)
            }),
            final(self).payload() == old(self).payload() + item.wire(),
            final(self).wf(),
            h.off == old(self).pkt.buf@.len(),
            h.len == item.wire().len(),
    {
        proof {
            lemma_append_parts(self.pkt.buf@, item.wire());
        }
        let h = self.pkt.push(item);
        proof {
            assert(self.payload() =~= old(self).payload() + item.wire());
        }
        let len = h.len() as u16;
        self.update_tot_len(len);
        h
    }

    /// Append a header record, consuming and returning the frame.
    pub fn set_hdr<T: Serialize>(self, item: T) -> (r: GreFrame)
        requires
            self.wf(),
            self.ip.tot_len + item.wire().len() <= 0xffff,
        ensures
            r == (GreFrame {
                pkt: r.pkt,
                ip: (ip_hdr {
                    tot_len: (self.ip.tot_len + item.wire().len()) as u16,
                    ..self.ip
                }).recalc(),
                ..self
            }),
            r.payload() == self.payload() + item.wire(),
            r.wf(),
    {
        let mut s = self;
        s.push_hdr(item);
        s
    }

    /// Append raw bytes and grow the IP total length.
    pub fn push(self, bytes: &[u8]) -> (r: GreFrame)
        requires
            self.wf(),
            self.ip.tot_len + bytes@.len() <= 0xffff,
        ensures
            r == (GreFrame {
                pkt: r.pkt,
                ip: (ip_hdr {
                    tot_len: (self.ip.tot_len + bytes@.len()) as u16,
                    ..self.ip
                }).recalc(),
                ..self
            }),
            r.payload() == self.payload() + bytes@,
            r.wf(),
    {
        let mut s = self;
        proof {
            lemma_append_parts(s.pkt.buf@, bytes@);
        }
        s.pkt.push_bytes(bytes);
        proof {
            assert(s.payload() =~= self.payload() + bytes@);
        }
        let n = bytes.len() as u16;
        s.update_tot_len(n);
        s
    }

    /// Write the sequence number into the reserved extension, if one
    /// is present.
    pub fn seq(self, seq: u32) -> (r: GreFrame)
        requires
            self.wf(),
        ensures
            r == (GreFrame {
                pkt: r.pkt,
                seq_hdr: if self.seq_hdr is Some {
                    Some(gre_hdr_seq { seq })
                } else {
                    None
                },
                ..self
            }),
            r.payload() == self.payload(),
            r.wf(),
    {
        let mut s = self;
        if s.seq_hdr.is_some() {
            s.seq_hdr = Some(gre_hdr_seq { seq });
        }
        s.sync();
        s
    }

    /// Consume the builder, yielding the finished packet.
    pub fn into_packet(self) -> (r: Packet)
        ensures
            r == self.pkt,
    {
        self.pkt
    }
}

/// A GRE tunnel: fixed endpoints, flags and inner ethertype, plus a
/// monotonic sequence counter used when the flags request sequencing.
#[derive(Debug, Copy, Clone, PartialEq, Eq, Structural)]
pub struct GreFlow {
    pub cl: Ip4Addr,
    pub sv: Ip4Addr,
    pub flags: GreFlags,
    pub ethertype: u16,
    pub raw: bool,
    pub seq: u32,
}

impl GreFlow {
    pub fn new(cl: Ip4Addr, sv: Ip4Addr, flags: GreFlags, ethertype: u16, raw: bool) -> (r:
        GreFlow)
        ensures
            r == (GreFlow { cl, sv, flags, ethertype, raw, seq: 0 }),
    {
        GreFlow { cl, sv, flags, ethertype, raw, seq: 0 }
    }

    fn next_seq(&mut self) -> (r: u32)
        ensures
            r == old(self).seq,
            *final(self) == (GreFlow {
                seq: ((old(self).seq + 1) % 0x100000000) as u32,
                ..*old(self)
            }),
    {
        let ret = self.seq;
        self.seq = self.seq.wrapping_add(1);
        ret
    }

    /// A fresh frame carrying the flow's current sequence number.
    fn dgram(&mut self, extra: usize) -> (r: GreFrame)
        requires
            extra + 70 <= usize::MAX,
        ensures
            *final(self) == (GreFlow {
                seq: ((old(self).seq + 1) % 0x100000000) as u32,
                ..*old(self)
            }),
            r.wf(),
            (r.eth is Some) == !old(self).raw,
            !old(self).raw ==> r.eth.unwrap().wire() == gre_eth(old(self).cl, old(self).sv),
            r.gre == (gre_hdr {
                flags: gre_flags_word(old(self).flags),
                proto: old(self).ethertype,
            }),
            (r.seq_hdr is Some) == old(self).flags.s,
            r.seq_hdr is Some ==> r.seq_hdr.unwrap() == (gre_hdr_seq { seq: old(self).seq }),
            r.ip.tot_len == 24 + r.seq_len(),
            r.ip.saddr == old(self).cl.bits,
            r.ip.daddr == old(self).sv.bits,
            r.ip.protocol == PROTO_GRE,
            r.ip.frag_off == 0,
            r.ip.ihl_version == 0x45,
            r.ip.ttl == 64,
            r.ip.tos == 0,
            r.ip.id == 0,
            r.payload() == Seq::<u8>::empty(),
    {
        let f = GreFrame::new(self.cl, self.sv, self.flags, self.ethertype, self.raw, extra);
        let n = self.next_seq();
        f.seq(n)
    }

    /// Encapsulate a payload in one GRE frame; the sequence counter
    /// advances.
    pub fn encap(&mut self, bytes: &[u8]) -> (r: Packet)
        requires
            bytes@.len() <= 0xffff - 28,
        ensures
            *final(self) == (GreFlow {
                seq: ((old(self).seq + 1) % 0x100000000) as u32,
                ..*old(self)
            }),
            r.wf(),
            r.headroom == 16,
            r.content() == gre_packet_content(
                old(self).raw,
                old(self).cl,
                old(self).sv,
                old(self).flags,
                old(self).ethertype,
                Some(old(self).seq),
                bytes@,
            ),
    {
        let d = self.dgram(bytes.len());
        let d2 = d.push(bytes);
        proof {
            d2.lemma_content();
            let base = ip_hdr {
                saddr: old(self).cl.bits,
                daddr: old(self).sv.bits,
                tot_len: (24 + d2.seq_len() + bytes@.len()) as u16,
                protocol: PROTO_GRE,
                ..ip_hdr::default_spec()
            };
            assert(d2.ip.zero_csum() == base.zero_csum());
            assert(d2.ip == gre_ip(
                old(self).cl,
                old(self).sv,
                d2.seq_len(),
                bytes@.len() as int,
            ));
        }
        d2.into_packet()
    }
}

} // verus!
