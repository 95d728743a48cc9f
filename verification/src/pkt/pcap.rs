#![allow(non_camel_case_types)]

use vstd::prelude::*;
use crate::pkt::{put_le16, put_le32, spec_le16, spec_le32, Serialize};

verus! {

/// The link type recorded in a pcap file header.
#[derive(Debug, Copy, Clone, PartialEq, Eq, Structural)]
pub enum LinkType {
    Null,
    Ethernet,
}

impl LinkType {
    pub open spec fn spec_value(self) -> u32 {
        match self {
            LinkType::Null => 0,
            LinkType::Ethernet => 1,
        }
    }

    pub fn value(self) -> (r: u32)
        ensures
            r == self.spec_value(),
    {
        match self {
            LinkType::Null => 0,
            LinkType::Ethernet => 1,
        }
    }
}

/// The 24-byte pcap file header, written in the host's little-endian
/// byte order. The magic marks nanosecond timestamps.
#[derive(Debug, Copy, Clone, PartialEq, Eq, Structural)]
pub struct pcap_hdr {
    pub magic: u32,
    pub ver_maj: u16,
    pub ver_min: u16,
    pub gmt_off: u32,
    pub sig_fig: u32,
    pub mtu: u32,
    pub linktype: u32,
}

impl Serialize for pcap_hdr {
    open spec fn wire(&self) -> Seq<u8> {
        spec_le32(self.magic) + spec_le16(self.ver_maj) + spec_le16(self.ver_min) + spec_le32(
            self.gmt_off,
        ) + spec_le32(self.sig_fig) + spec_le32(self.mtu) + spec_le32(self.linktype)
    }

    fn write_bytes(&self) -> (r: Vec<u8>)
        ensures
            r@ == self.wire(),
    {
        let mut v: Vec<u8> = Vec::new();
        put_le32(&mut v, self.magic);
        put_le16(&mut v, self.ver_maj);
        put_le16(&mut v, self.ver_min);
        put_le32(&mut v, self.gmt_off);
        put_le32(&mut v, self.sig_fig);
        put_le32(&mut v, self.mtu);
        put_le32(&mut v, self.linktype);
        assert(v@ =~= self.wire());
        v
    }
}

impl pcap_hdr {
    pub open spec fn size_of() -> usize {
        24
    }

    /// A nanosecond-precision, version 2.4, Ethernet file header.
    pub fn new() -> (r: pcap_hdr)
        ensures
            r == (pcap_hdr {
                magic: 0xa1b23c4d,
                ver_maj: 2,
                ver_min: 4,
                gmt_off: 0,
                sig_fig: 0,
                mtu: 0,
                linktype: 1,
            }),
    {
        pcap_hdr {
            magic: 0xa1b23c4d,
            ver_maj: 2,
            ver_min: 4,
            gmt_off: 0,
            sig_fig: 0,
            mtu: 0,
            linktype: LinkType::Ethernet.value(),
        }
    }
}

/// The 16-byte per-packet record header.
#[derive(Debug, Copy, Clone, PartialEq, Eq, Structural)]
pub struct pcap_pkt {
    pub sec: u32,
    pub nsec: u32,
    pub caplen: u32,
    pub len: u32,
}

impl Serialize for pcap_pkt {
    open spec fn wire(&self) -> Seq<u8> {
        spec_le32(self.sec) + spec_le32(self.nsec) + spec_le32(self.caplen) + spec_le32(self.len)
    }

    fn write_bytes(&self) -> (r: Vec<u8>)
        ensures
            r@ == self.wire(),
    {
        let mut v: Vec<u8> = Vec::new();
        put_le32(&mut v, self.sec);
        put_le32(&mut v, self.nsec);
        put_le32(&mut v, self.caplen);
        put_le32(&mut v, self.len);
        assert(v@ =~= self.wire());
        v
    }
}

impl pcap_pkt {
    pub open spec fn size_of() -> usize {
        16
    }

    /// The record header for a packet of `len` bytes at `time`
    /// nanoseconds.
    pub fn new(time: u64, len: u32) -> (r: pcap_pkt)
        ensures
            r == (pcap_pkt {
                sec: (time / 1_000_000_000) as u32,
                nsec: (time % 1_000_000_000) as u32,
                caplen: len,
                len,
            }),
    {
        pcap_pkt {
            sec: (time / 1_000_000_000) as u32,
            nsec: (time % 1_000_000_000) as u32,
            caplen: len,
            len,
        }
    }
}

} // verus!
