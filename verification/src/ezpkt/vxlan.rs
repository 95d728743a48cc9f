use vstd::prelude::*;
use crate::pkt::vxlan::vxlan_hdr;
use crate::pkt::packet::Packet;
use crate::pkt::{Serialize, Sock4};
use crate::pkt::eth::eth_pair_wire;
use crate::ezpkt::udp4::UdpDgram;

verus! {

/// Helper for creating VXLAN datagrams: an outer UDP datagram whose
/// payload starts with the VXLAN header.
#[derive(Debug)]
pub struct VxlanDgram {
    pub outer: UdpDgram,
}

impl VxlanDgram {
    pub open spec fn wf(&self) -> bool {
        self.outer.wf()
    }

    /// A datagram addressed from `src` to `dst` carrying the VXLAN
    /// header for `vni` and nothing else yet.
    pub fn new(src: Sock4, dst: Sock4, vni: u32, raw: bool) -> (r: VxlanDgram)
        ensures
            r.wf(),
            (r.outer.eth is Some) == !raw,
            r.outer.ip.saddr == src.ip.bits,
            r.outer.ip.daddr == dst.ip.bits,
            r.outer.udp.sport == src.port,
            r.outer.udp.dport == dst.port,
            !raw ==> r.outer.eth.unwrap().wire() == eth_pair_wire(src.ip, dst.ip),
            r.outer.ip == crate::ezpkt::udp4::udp_flow_ip(src, dst, 8),
            r.outer.udp == crate::ezpkt::udp4::udp_flow_udp(src, dst, 8),
            r.outer.payload() == (vxlan_hdr { flags: 8, reserved: [0u8, 0u8, 0u8], vni }).wire(),
    {
        let hdr = vxlan_hdr::with_vni(vni);
        let bytes = hdr.write_bytes();
        proof {
            assert(hdr.wire().len() == 8);
            assert(hdr.wire() == (vxlan_hdr { flags: 8, reserved: [0u8, 0u8, 0u8], vni }).wire());
        }
        let d = UdpDgram::with_capacity(8, raw).src(src).dst(dst).push(bytes.as_slice());
        proof {
            assert(d.payload() =~= hdr.wire());
            if !raw {
                assert(d.eth.unwrap().wire() =~= eth_pair_wire(src.ip, dst.ip));
            }
            let x = crate::pkt::ipv4::ip_hdr {
                saddr: src.ip.bits,
                daddr: dst.ip.bits,
                tot_len: 36,
                protocol: crate::pkt::ipv4::PROTO_UDP,
                ..crate::pkt::ipv4::ip_hdr::default_spec()
            };
            assert(d.ip.zero_csum() == x.zero_csum());
            assert(d.ip == crate::ezpkt::udp4::udp_flow_ip(src, dst, 8));
        }
        VxlanDgram { outer: d }
    }

    /// Append encapsulated bytes after the VXLAN header.
    pub fn push(self, bytes: &[u8]) -> (r: VxlanDgram)
        requires
            self.wf(),
            self.outer.ip.tot_len + bytes@.len() <= 0xffff,
        ensures
            r.wf(),
            r.outer.eth == self.outer.eth,
            r.outer.ip == (crate::pkt::ipv4::ip_hdr {
                tot_len: (self.outer.ip.tot_len + bytes@.len()) as u16,
                ..self.outer.ip
            }).recalc(),
            r.outer.udp == (crate::pkt::ipv4::udp_hdr {
                len: (self.outer.udp.len + bytes@.len()) as u16,
                ..self.outer.udp
            }),
            r.outer.payload() == self.outer.payload() + bytes@,
    {
        VxlanDgram { outer: self.outer.push(bytes) }
    }

    /// Consume the builder, yielding the finished packet.
    pub fn into_packet(self) -> (r: Packet)
        ensures
            r == self.outer.pkt,
    {
        self.outer.into_packet()
    }
}

/// A VXLAN tunnel: fixed endpoints and network identifier.
#[derive(Debug, Copy, Clone, PartialEq, Eq, Structural)]
pub struct VxlanFlow {
    pub cl: Sock4,
    pub sv: Sock4,
    pub vni: u32,
    pub raw: bool,
}

impl VxlanFlow {
    pub fn new(cl: Sock4, sv: Sock4, vni: u32, raw: bool) -> (r: VxlanFlow)
        ensures
            r == (VxlanFlow { cl, sv, vni, raw }),
    {
        VxlanFlow { cl, sv, vni, raw }
    }

    fn dgram(&self) -> (r: VxlanDgram)
        ensures
            r.wf(),
            (r.outer.eth is Some) == !self.raw,
            r.outer.ip.saddr == self.cl.ip.bits,
            r.outer.ip.daddr == self.sv.ip.bits,
            r.outer.udp.sport == self.cl.port,
            r.outer.udp.dport == self.sv.port,
            !self.raw ==> r.outer.eth.unwrap().wire() == eth_pair_wire(self.cl.ip, self.sv.ip),
            r.outer.ip == crate::ezpkt::udp4::udp_flow_ip(self.cl, self.sv, 8),
            r.outer.udp == crate::ezpkt::udp4::udp_flow_udp(self.cl, self.sv, 8),
            r.outer.payload() == (vxlan_hdr {
                flags: 8,
                reserved: [0u8, 0u8, 0u8],
                vni: self.vni,
            }).wire(),
    {
        VxlanDgram::new(self.cl, self.sv, self.vni, self.raw)
    }

    /// Encapsulate a payload in one VXLAN datagram.
    #[verifier::spinoff_prover]
    #[verifier::rlimit(100)]
    pub fn encap(&mut self, bytes: &[u8]) -> (r: Packet)
        requires
            bytes@.len() <= 0xffff - 36,
        ensures
            *final(self) == *old(self),
            r.wf(),
            r.headroom == 16,
            r.content() == vxlan_packet_content(
                old(self).raw,
                old(self).cl,
                old(self).sv,
                old(self).vni,
                bytes@,
            ),
    {
        let d = self.dgram().push(bytes);
        proof {
            d.outer.lemma_content();
            let goal = vxlan_packet_content(
                old(self).raw,
                old(self).cl,
                old(self).sv,
                old(self).vni,
                bytes@,
            );
            assert(d.outer.content_spec() == goal) by {
                let x = crate::pkt::ipv4::ip_hdr {
                    saddr: old(self).cl.ip.bits,
                    daddr: old(self).sv.ip.bits,
                    tot_len: (36 + bytes@.len()) as u16,
                    protocol: crate::pkt::ipv4::PROTO_UDP,
                    ..crate::pkt::ipv4::ip_hdr::default_spec()
                };
                assert(d.outer.ip.zero_csum() == x.zero_csum());
                assert(d.outer.ip == ip_of(old(self).cl, old(self).sv, bytes@.len() as int));
                assert(d.outer.udp == udp_of(old(self).cl, old(self).sv, bytes@.len() as int));
                assert(d.outer.payload() == (vxlan_hdr {
                    flags: 8,
                    reserved: [0u8, 0u8, 0u8],
                    vni: old(self).vni,
                }).wire() + bytes@);
            }
        }
        d.into_packet()
    }
}

/// The complete on-wire bytes of an encapsulated VXLAN datagram.
pub open spec fn vxlan_packet_content(
    raw: bool,
    src: Sock4,
    dst: Sock4,
    vni: u32,
    payload: Seq<u8>,
) -> Seq<u8> {
    (if raw {
        Seq::<u8>::empty()
    } else {
        eth_pair_wire(src.ip, dst.ip)
    }) + ip_of(src, dst, payload.len() as int).wire() + udp_of(
        src,
        dst,
        payload.len() as int,
    ).wire() + ((vxlan_hdr { flags: 8, reserved: [0u8, 0u8, 0u8], vni }).wire() + payload)
}

/// The outer IPv4 header of a VXLAN datagram carrying `n` bytes after
/// its 8-byte VXLAN header.
pub open spec fn ip_of(src: Sock4, dst: Sock4, n: int) -> crate::pkt::ipv4::ip_hdr {
    crate::ezpkt::udp4::udp_flow_ip(src, dst, 8 + n)
}

/// The outer UDP header of a VXLAN datagram.
pub open spec fn udp_of(src: Sock4, dst: Sock4, n: int) -> crate::pkt::ipv4::udp_hdr {
    crate::ezpkt::udp4::udp_flow_udp(src, dst, 8 + n)
}

} // verus!
