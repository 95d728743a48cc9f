use vstd::prelude::*;
use crate::pkt::eth::ETHERTYPE_ERSPAN_1_2;
use crate::pkt::gre::GreFlags;
use crate::pkt::packet::Packet;
use crate::pkt::Ip4Addr;
use crate::ezpkt::gre::{gre_packet_content, GreFrame};

verus! {

/// A type I ERSPAN frame: a plain GRE encapsulation with the ERSPAN
/// ethertype and no ERSPAN header.
#[derive(Debug, Copy, Clone, PartialEq, Eq, Structural)]
pub struct Erspan1Frame {
    pub src: Ip4Addr,
    pub dst: Ip4Addr,
    pub raw: bool,
}

impl Erspan1Frame {
    pub fn new(src: Ip4Addr, dst: Ip4Addr, raw: bool) -> (r: Erspan1Frame)
        ensures
            r == (Erspan1Frame { src, dst, raw }),
    {
        Erspan1Frame { src, dst, raw }
    }

    pub fn raw(self, raw: bool) -> (r: Erspan1Frame)
        ensures
            r == (Erspan1Frame { raw, ..self }),
    {
        Erspan1Frame { raw, ..self }
    }

    pub fn src(self, src: Ip4Addr) -> (r: Erspan1Frame)
        ensures
            r == (Erspan1Frame { src, ..self }),
    {
        Erspan1Frame { src, ..self }
    }

    pub fn dst(self, dst: Ip4Addr) -> (r: Erspan1Frame)
        ensures
            r == (Erspan1Frame { dst, ..self }),
    {
        Erspan1Frame { dst, ..self }
    }

    /// Encapsulate a mirrored payload.
    pub fn encap(self, payload: &[u8]) -> (r: Packet)
        requires
            payload@.len() <= 0xffff - 28,
        ensures
            r.wf(),
            r.headroom == 16,
            r.content() == gre_packet_content(
                self.raw,
                self.src,
                self.dst,
                GreFlags {
                    c: false,
                    r: false,
                    k: false,
                    s: false,
                    sr: false,
                    a: false,
                    recur: 0,
                    flags: 0,
                    v: 0,
                },
                ETHERTYPE_ERSPAN_1_2,
                None,
                payload@,
            ),
    {
        let flags = GreFlags::default();
        let f = GreFrame::new(self.src, self.dst, flags, ETHERTYPE_ERSPAN_1_2, self.raw,
            payload.len());
        let f2 = f.push(payload);
        proof {
            f2.lemma_content();
            let base = crate::pkt::ipv4::ip_hdr {
                saddr: self.src.bits,
                daddr: self.dst.bits,
                tot_len: (24 + payload@.len()) as u16,
                protocol: crate::pkt::ipv4::PROTO_GRE,
                ..crate::pkt::ipv4::ip_hdr::default_spec()
            };
            assert(f2.ip.zero_csum() == base.zero_csum());
            assert(f2.ip == crate::ezpkt::gre::gre_ip(self.src, self.dst, 0, payload@.len() as int));
        }
        f2.into_packet()
    }
}

/// A type I ERSPAN session.
#[derive(Debug, Copy, Clone, PartialEq, Eq, Structural)]
pub struct Erspan1Flow {
    pub cl: Ip4Addr,
    pub sv: Ip4Addr,
    pub raw: bool,
    pub session_id: u16,
}

impl Erspan1Flow {
    pub fn new(cl: Ip4Addr, sv: Ip4Addr, raw: bool) -> (r: Erspan1Flow)
        ensures
            r == (Erspan1Flow { cl, sv, raw, session_id: 0 }),
    {
        Erspan1Flow { cl, sv, raw, session_id: 0 }
    }

    fn dgram(&mut self) -> (r: Erspan1Frame)
        ensures
            *final(self) == *old(self),
            r == (Erspan1Frame { src: old(self).cl, dst: old(self).sv, raw: old(self).raw }),
    {
        Erspan1Frame::new(self.cl, self.sv, self.raw)
    }

    /// Mirror a payload in one type I frame.
    pub fn encap(&mut self, bytes: &[u8]) -> (r: Packet)
        requires
            bytes@.len() <= 0xffff - 28,
        ensures
            *final(self) == *old(self),
            r.wf(),
            r.headroom == 16,
            r.content() == gre_packet_content(
                old(self).raw,
                old(self).cl,
                old(self).sv,
                GreFlags {
                    c: false,
                    r: false,
                    k: false,
                    s: false,
                    sr: false,
                    a: false,
                    recur: 0,
                    flags: 0,
                    v: 0,
                },
                ETHERTYPE_ERSPAN_1_2,
                None,
                bytes@,
            ),
    {
        self.dgram().encap(bytes)
    }
}

} // verus!
