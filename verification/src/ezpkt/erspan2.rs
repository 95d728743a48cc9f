use vstd::prelude::*;
use crate::pkt::erspan2::{erspan2_flags_word, erspan2_hdr, erspan2_index_word, Erspan2};
use crate::pkt::eth::ETHERTYPE_ERSPAN_1_2;
use crate::pkt::gre::GreFlags;
use crate::pkt::packet::Packet;
use crate::pkt::{Ip4Addr, Serialize};
use crate::ezpkt::gre::{gre_packet_content, GreFrame};

verus! {

/// The GRE flag set a type II frame uses: sequencing only.
pub open spec fn erspan2_gre_flags() -> GreFlags {
    GreFlags {
        c: false,
        r: false,
        k: false,
        s: true,
        sr: false,
        a: false,
        recur: 0,
        flags: 0,
        v: 0,
    }
}

/// A type II ERSPAN frame under construction: endpoints, the unpacked
/// ERSPAN fields, and the GRE sequence number to stamp.
#[derive(Debug, Copy, Clone, PartialEq, Eq, Structural)]
pub struct Erspan2Frame {
    pub src: Ip4Addr,
    pub dst: Ip4Addr,
    pub raw: bool,
    pub erspan: Erspan2,
    pub seq: u32,
}

impl Erspan2Frame {
    pub fn new(src: Ip4Addr, dst: Ip4Addr, raw: bool) -> (r: Erspan2Frame)
        ensures
            r.src == src,
            r.dst == dst,
            r.raw == raw,
            r.erspan == (Erspan2 {
                ver: 1,
                vlan: 0,
                cos: 0,
                en: crate::pkt::erspan2::Encap::TagPreserved,
                t: false,
                sess_id: 0,
                rsvd: 0,
                index: 0,
            }),
            r.seq == 0,
    {
        Erspan2Frame { src, dst, raw, erspan: Erspan2::default(), seq: 0 }
    }

    pub fn raw(self, raw: bool) -> (r: Erspan2Frame)
        ensures
            r == (Erspan2Frame { raw, ..self }),
    {
        Erspan2Frame { raw, ..self }
    }

    pub fn src(self, src: Ip4Addr) -> (r: Erspan2Frame)
        ensures
            r == (Erspan2Frame { src, ..self }),
    {
        Erspan2Frame { src, ..self }
    }

    pub fn dst(self, dst: Ip4Addr) -> (r: Erspan2Frame)
        ensures
            r == (Erspan2Frame { dst, ..self }),
    {
        Erspan2Frame { dst, ..self }
    }

    pub fn erspan(self, erspan: Erspan2) -> (r: Erspan2Frame)
        ensures
            r == (Erspan2Frame { erspan, ..self }),
    {
        Erspan2Frame { erspan, ..self }
    }

    pub fn seq(self, seq: u32) -> (r: Erspan2Frame)
        ensures
            r == (Erspan2Frame { seq, ..self }),
    {
        Erspan2Frame { seq, ..self }
    }

    /// Encapsulate a mirrored payload: GRE with sequencing, then the
    /// packed 8-byte ERSPAN header, then the payload.
    pub fn encap(self, payload: &[u8]) -> (r: Packet)
        requires
            payload@.len() <= 0xffff - 40,
        ensures
            r.wf(),
            r.headroom == 16,
            r.content() == gre_packet_content(
                self.raw,
                self.src,
                self.dst,
                erspan2_gre_flags(),
                ETHERTYPE_ERSPAN_1_2,
                Some(self.seq),
                (erspan2_hdr {
                    flags: erspan2_flags_word(self.erspan),
                    index: erspan2_index_word(self.erspan),
                }).wire() + payload@,
            ),
    {
        let flags = GreFlags::default().seq(true);
        let f = GreFrame::new(
            self.src,
            self.dst,
            flags,
            ETHERTYPE_ERSPAN_1_2,
            self.raw,
            8 + payload.len(),
        );
        let hdr = self.erspan.build();
        proof {
            assert(hdr.wire().len() == 8);
        }
        let f2 = f.set_hdr(hdr);
        let f3 = f2.seq(self.seq).push(payload);
        proof {
            f3.lemma_content();
            let base = crate::pkt::ipv4::ip_hdr {
                saddr: self.src.bits,
                daddr: self.dst.bits,
                tot_len: (36 + payload@.len()) as u16,
                protocol: crate::pkt::ipv4::PROTO_GRE,
                ..crate::pkt::ipv4::ip_hdr::default_spec()
            };
            assert(f3.ip.zero_csum() == base.zero_csum());
            assert(f3.ip == crate::ezpkt::gre::gre_ip(
                self.src,
                self.dst,
                4,
                8 + payload@.len() as int,
            ));
            assert(f3.payload() =~= hdr.wire() + payload@);
        }
        f3.into_packet()
    }
}

/// A type II ERSPAN session: fixed endpoints and session id, plus a
/// monotonic GRE sequence counter.
#[derive(Debug, Copy, Clone, PartialEq, Eq, Structural)]
pub struct Erspan2Flow {
    pub cl: Ip4Addr,
    pub sv: Ip4Addr,
    pub raw: bool,
    pub seq: u32,
    pub session_id: u16,
}

impl Erspan2Flow {
    pub fn new(cl: Ip4Addr, sv: Ip4Addr, raw: bool) -> (r: Erspan2Flow)
        ensures
            r == (Erspan2Flow { cl, sv, raw, seq: 0, session_id: 0 }),
    {
        Erspan2Flow { cl, sv, raw, seq: 0, session_id: 0 }
    }

    fn next_seq(&mut self) -> (r: u32)
        ensures
            r == old(self).seq,
            *final(self) == (Erspan2Flow {
                seq: ((old(self).seq + 1) % 0x100000000) as u32,
                ..*old(self)
            }),
    {
        let ret = self.seq;
        self.seq = self.seq.wrapping_add(1);
        ret
    }

    /// Mirror a payload in one type II frame with the given port
    /// index; the sequence counter advances.
    pub fn encap(&mut self, bytes: &[u8], port_index: u32) -> (r: Packet)
        requires
            bytes@.len() <= 0xffff - 40,
        ensures
            *final(self) == (Erspan2Flow {
                seq: ((old(self).seq + 1) % 0x100000000) as u32,
                ..*old(self)
            }),
            r.wf(),
            r.headroom == 16,
            r.content() == gre_packet_content(
                old(self).raw,
                old(self).cl,
                old(self).sv,
                erspan2_gre_flags(),
                ETHERTYPE_ERSPAN_1_2,
                Some(old(self).seq),
                (erspan2_hdr {
                    flags: erspan2_flags_word(
                        Erspan2 {
                            sess_id: old(self).session_id,
                            index: port_index,
                            ..Erspan2 {
                                ver: 1,
                                vlan: 0,
                                cos: 0,
                                en: crate::pkt::erspan2::Encap::TagPreserved,
                                t: false,
                                sess_id: 0,
                                rsvd: 0,
                                index: 0,
                            }
                        },
                    ),
                    index: erspan2_index_word(
                        Erspan2 {
                            sess_id: old(self).session_id,
                            index: port_index,
                            ..Erspan2 {
                                ver: 1,
                                vlan: 0,
                                cos: 0,
                                en: crate::pkt::erspan2::Encap::TagPreserved,
                                t: false,
                                sess_id: 0,
                                rsvd: 0,
                                index: 0,
                            }
                        },
                    ),
                }).wire() + bytes@,
            ),
    {
        let sess = self.session_id;
        let er = Erspan2::default().session_id(sess).port_index(port_index);
        let n = self.next_seq();
        let frame = Erspan2Frame::new(self.cl, self.sv, self.raw).seq(n).erspan(er);
        frame.encap(bytes)
    }
}

} // verus!
