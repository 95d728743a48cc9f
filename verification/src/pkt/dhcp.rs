#![allow(non_camel_case_types)]

use vstd::prelude::*;
use vstd::pervasive::VecAdditionalExecFns;
use crate::pkt::{put_be16, put_be32, put_u8, spec_be16, spec_be32, Serialize};

verus! {

pub const DHCP_OP_REQUEST: u8 = 1;
pub const DHCP_OP_REPLY: u8 = 2;

pub const DHCP_MSG_DISCOVER: u8 = 1;
pub const DHCP_MSG_OFFER: u8 = 2;
pub const DHCP_MSG_REQUEST: u8 = 3;
pub const DHCP_MSG_DECLINE: u8 = 4;
pub const DHCP_MSG_ACK: u8 = 5;
pub const DHCP_MSG_NACK: u8 = 6;
pub const DHCP_MSG_RELEASE: u8 = 7;
pub const DHCP_MSG_INFORM: u8 = 8;

pub const DHCP_OPT_PADDING: u8 = 0;
pub const DHCP_OPT_SUBNET_MASK: u8 = 1;
pub const DHCP_OPT_CLIENT_HOSTNAME: u8 = 12;
pub const DHCP_OPT_VENDOR_SPECIFIC: u8 = 43;
pub const DHCP_OPT_REQUESTED_ADDRESS: u8 = 50;
pub const DHCP_OPT_ADDRESS_LEASE_TIME: u8 = 51;
pub const DHCP_OPT_MESSAGE_TYPE: u8 = 53;
pub const DHCP_OPT_SERVER_ID: u8 = 54;
pub const DHCP_OPT_PARAM_REQUEST_LIST: u8 = 55;
pub const DHCP_OPT_MAX_MESSAGE_SIZE: u8 = 57;
pub const DHCP_OPT_RENEWAL_TIME: u8 = 58;
pub const DHCP_OPT_REBINDING_TIME: u8 = 59;
pub const DHCP_OPT_VENDOR_CLASS_ID: u8 = 60;
pub const DHCP_OPT_CLIENT_ID: u8 = 61;
pub const DHCP_OPT_CLIENT_FQDN: u8 = 81;
pub const DHCP_OPT_END: u8 = 0xff;

pub const DHCP_CLIENT_PORT: u16 = 68;
pub const DHCP_SERVER_PORT: u16 = 67;
pub const DHCP_MAGIC: u32 = 0x63825363;

/// `s` clipped or zero-padded to exactly `n` bytes.
pub open spec fn fit(s: Seq<u8>, n: int) -> Seq<u8> {
    Seq::new(
        n as nat,
        |i: int|
            if i < s.len() {
                s[i]
            } else {
                0u8
            },
    )
}

/// Append `s` clipped or zero-padded to exactly `n` bytes.
pub fn put_fit(v: &mut Vec<u8>, s: &[u8], n: usize)
    ensures
        final(v)@ == old(v)@ + fit(s@, n as int),
{
    let ghost v0 = v@;
    let mut i: usize = 0;
    while i < n
        invariant
            0 <= i <= n,
            v@ =~= v0 + fit(s@, n as int).take(i as int),
        decreases n - i,
    {
        if i < s.len() {
            v.push(s[i]);
        } else {
            v.push(0);
        }
        assert(v@ =~= v0 + fit(s@, n as int).take(i + 1));
        i += 1;
    }
    assert(v@ =~= v0 + fit(s@, n as int));
}

/// A DHCP option header: code and payload length.
#[derive(Debug, Copy, Clone, Default, PartialEq, Eq, Structural)]
pub struct dhcp_opt {
    pub opt: u8,
    pub len: u8,
}

impl Serialize for dhcp_opt {
    open spec fn wire(&self) -> Seq<u8> {
        seq![self.opt, self.len]
    }

    fn write_bytes(&self) -> (r: Vec<u8>)
        ensures
            r@ == self.wire(),
    {
        let mut v: Vec<u8> = Vec::new();
        put_u8(&mut v, self.opt);
        put_u8(&mut v, self.len);
        assert(v@ =~= self.wire());
        v
    }
}

impl dhcp_opt {
    pub fn new(opt: u8, len: u8) -> (r: dhcp_opt)
        ensures
            r == (dhcp_opt { opt, len }),
    {
        dhcp_opt { opt, len }
    }

    /// An option header sized for the given payload.
    pub fn from_buf(opt: u8, data: &[u8]) -> (r: dhcp_opt)
        requires
            data@.len() <= 255,
        ensures
            r == (dhcp_opt { opt, len: data@.len() as u8 }),
    {
        dhcp_opt { opt, len: data.len() as u8 }
    }

    /// A complete option: header then payload.
    pub fn create(opt: u8, data: &[u8]) -> (r: Vec<u8>)
        requires
            data@.len() <= 255,
        ensures
            r@ == seq![opt, data@.len() as u8] + data@,
    {
        let hdr = dhcp_opt::from_buf(opt, data);
        let mut v = hdr.write_bytes();
        crate::pkt::put_bytes(&mut v, data);
        assert(v@ =~= seq![opt, data@.len() as u8] + data@);
        v
    }
}

/// The 240-byte fixed DHCP header. The three large fields are fixed
/// wire-sized buffers (16, 64 and 128 bytes); writes overlay a prefix
/// and keep whatever lay beyond it.
#[derive(Debug)]
pub struct dhcp_hdr {
    pub op: u8,
    pub htype: u8,
    pub hlen: u8,
    pub hops: u8,
    pub xid: u32,
    pub secs: u16,
    pub flags: u16,
    pub ciaddr: u32,
    pub yiaddr: u32,
    pub siaddr: u32,
    pub giaddr: u32,
    pub chaddr: Vec<u8>,
    pub sname: Vec<u8>,
    pub file: Vec<u8>,
    pub magic: u32,
}

impl Serialize for dhcp_hdr {
    open spec fn wire(&self) -> Seq<u8> {
        seq![self.op, self.htype, self.hlen, self.hops] + spec_be32(self.xid) + spec_be16(self.secs)
            + spec_be16(self.flags) + spec_be32(self.ciaddr) + spec_be32(self.yiaddr) + spec_be32(
            self.siaddr,
        ) + spec_be32(self.giaddr) + fit(self.chaddr@, 16) + fit(self.sname@, 64) + fit(
            self.file@,
            128,
        ) + spec_be32(self.magic)
    }

    fn write_bytes(&self) -> (r: Vec<u8>)
        ensures
            r@ == self.wire(),
    {
        let mut v: Vec<u8> = Vec::new();
        put_u8(&mut v, self.op);
        put_u8(&mut v, self.htype);
        put_u8(&mut v, self.hlen);
        put_u8(&mut v, self.hops);
        put_be32(&mut v, self.xid);
        put_be16(&mut v, self.secs);
        put_be16(&mut v, self.flags);
        put_be32(&mut v, self.ciaddr);
        put_be32(&mut v, self.yiaddr);
        put_be32(&mut v, self.siaddr);
        put_be32(&mut v, self.giaddr);
        put_fit(&mut v, self.chaddr.as_slice(), 16);
        put_fit(&mut v, self.sname.as_slice(), 64);
        put_fit(&mut v, self.file.as_slice(), 128);
        put_be32(&mut v, self.magic);
        assert(v@ =~= self.wire());
        v
    }
}

/// `src` written over the front of `dst`: the copied prefix is
/// `src`'s bytes, clipped to `dst`'s size; everything beyond keeps its
/// prior value.
pub open spec fn overlay(dst: Seq<u8>, src: Seq<u8>) -> Seq<u8> {
    Seq::new(
        dst.len(),
        |i: int|
            if i < src.len() {
                src[i]
            } else {
                dst[i]
            },
    )
}

/// Copy `src` over the front of `dst` in place, silently truncating an
/// over-long input.
#[verifier::loop_isolation(false)]
fn overlay_into(dst: &mut Vec<u8>, src: &[u8])
    ensures
        final(dst)@ == overlay(old(dst)@, src@),
{
    let n = if src.len() < dst.len() {
        src.len()
    } else {
        dst.len()
    };
    let mut i: usize = 0;
    while i < n
        invariant
            0 <= i <= n,
            dst@.len() == old(dst)@.len(),
            forall|j: int| 0 <= j < i ==> dst@[j] == src@[j],
            forall|j: int| i <= j < dst@.len() ==> dst@[j] == old(dst)@[j],
        decreases n - i,
    {
        dst.set(i, src[i]);
        i += 1;
    }
    assert(dst@ =~= overlay(old(dst)@, src@));
}

impl dhcp_hdr {
    pub open spec fn size_of() -> usize {
        240
    }

    /// The wire length of a header is always 240 bytes.
    pub proof fn lemma_wire_len(&self)
        ensures
            self.wire().len() == 240,
    {
    }

    /// Write the client hardware address over the front of its fixed
    /// field; over-long input is silently truncated and bytes beyond
    /// the write keep their prior values.
    pub fn set_chaddr(&mut self, chaddr: &[u8])
        ensures
            *final(self) == (dhcp_hdr { chaddr: final(self).chaddr, ..*old(self) }),
            final(self).chaddr@ == overlay(old(self).chaddr@, chaddr@),
    {
        overlay_into(&mut self.chaddr, chaddr);
    }

    /// Write the TFTP server name over the front of its fixed field;
    /// silently truncated, prior tail bytes kept.
    pub fn set_sname(&mut self, sname: &[u8])
        ensures
            *final(self) == (dhcp_hdr { sname: final(self).sname, ..*old(self) }),
            final(self).sname@ == overlay(old(self).sname@, sname@),
    {
        overlay_into(&mut self.sname, sname);
    }

    /// Write the TFTP file name over the front of its fixed field;
    /// silently truncated, prior tail bytes kept.
    pub fn set_file(&mut self, file: &[u8])
        ensures
            *final(self) == (dhcp_hdr { file: final(self).file, ..*old(self) }),
            final(self).file@ == overlay(old(self).file@, file@),
    {
        overlay_into(&mut self.file, file);
    }
}

} // verus!
