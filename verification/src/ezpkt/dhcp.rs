use vstd::prelude::*;
use crate::pkt::dhcp::{dhcp_hdr, dhcp_opt, overlay, DHCP_MAGIC};
use crate::pkt::packet::{lemma_append_parts, lemma_splice_parts, Hdr, Packet};
use crate::pkt::Serialize;

verus! {

/// A zero-filled fixed-size field.
fn zero_field(n: usize) -> (r: Vec<u8>)
    ensures
        r@ == Seq::new(n as nat, |i: int| 0u8),
{
    let mut v: Vec<u8> = Vec::new();
    let mut i: usize = 0;
    while i < n
        invariant
            0 <= i <= n,
            v@ =~= Seq::new(i as nat, |j: int| 0u8),
        decreases n - i,
    {
        v.push(0);
        assert(v@ =~= Seq::new((i + 1) as nat, |j: int| 0u8));
        i += 1;
    }
    v
}

/// Helper for creating DHCP messages: the fixed 240-byte header,
/// followed by options.
#[derive(Debug)]
pub struct Dhcp {
    pub pkt: Packet,
    pub dhcp: dhcp_hdr,
}

impl Dhcp {
    /// The options appended so far.
    pub open spec fn options(&self) -> Seq<u8> {
        self.pkt.buf@.skip(256)
    }

    pub open spec fn wf(&self) -> bool {
        &&& self.pkt.wf()
        &&& self.pkt.headroom == 16
        &&& 256 <= self.pkt.buf@.len()
        &&& self.pkt.buf@.subrange(16, 256) == self.dhcp.wire()
        &&& self.dhcp.chaddr@.len() == 16
        &&& self.dhcp.sname@.len() == 64
        &&& self.dhcp.file@.len() == 128
    }

    /// A fresh message: a zeroed header carrying the protocol magic.
    /// `capacity` only sizes the allocation for the options.
    pub fn with_capacity(capacity: usize) -> (r: Dhcp)
        requires
            capacity + 256 <= usize::MAX,
        ensures
            r.wf(),
            r.dhcp == (dhcp_hdr {
                op: 0,
                htype: 0,
                hlen: 0,
                hops: 0,
                xid: 0,
                secs: 0,
                flags: 0,
                ciaddr: 0,
                yiaddr: 0,
                siaddr: 0,
                giaddr: 0,
                chaddr: r.dhcp.chaddr,
                sname: r.dhcp.sname,
                file: r.dhcp.file,
                magic: DHCP_MAGIC,
            }),
            r.dhcp.chaddr@ == Seq::new(16, |i: int| 0u8),
            r.dhcp.sname@ == Seq::new(64, |i: int| 0u8),
            r.dhcp.file@ == Seq::new(128, |i: int| 0u8),
            r.options() == Seq::<u8>::empty(),
    {
        let mut pkt = Packet::with_capacity(240 + capacity);
        let chaddr = zero_field(16);
        let sname = zero_field(64);
        let file = zero_field(128);
        let hdr = dhcp_hdr {
            op: 0,
            htype: 0,
            hlen: 0,
            hops: 0,
            xid: 0,
            secs: 0,
            flags: 0,
            ciaddr: 0,
            yiaddr: 0,
            siaddr: 0,
            giaddr: 0,
            chaddr,
            sname,
            file,
            magic: DHCP_MAGIC,
        };
        proof {
            hdr.lemma_wire_len();
        }
        let bytes = hdr.write_bytes();
        pkt.push_bytes(bytes.as_slice());
        let r = Dhcp { pkt, dhcp: hdr };
        proof {
            assert(r.options() =~= Seq::<u8>::empty());
            assert(r.pkt.buf@.subrange(16, 256) =~= r.dhcp.wire());
        }
        r
    }

    pub fn min_capacity() -> (r: Dhcp)
        ensures
            r.wf(),
            r.dhcp.magic == DHCP_MAGIC,
            r.options() == Seq::<u8>::empty(),
    {
        Self::with_capacity(0)
    }

    /// Rewrite the header bytes from the typed header value.
    fn sync(&mut self)
        requires
            old(self).pkt.wf(),
            old(self).pkt.headroom == 16,
            256 <= old(self).pkt.buf@.len(),
            old(self).dhcp.chaddr@.len() == 16,
            old(self).dhcp.sname@.len() == 64,
            old(self).dhcp.file@.len() == 128,
        ensures
            final(self).pkt.buf@.len() == old(self).pkt.buf@.len(),
            final(self).pkt.headroom == 16,
            final(self).dhcp == old(self).dhcp,
            final(self).options() == old(self).options(),
            final(self).wf(),
    {
        proof {
            self.dhcp.lemma_wire_len();
        }
        let ghost b0 = self.pkt.buf@;
        let bytes = self.dhcp.write_bytes();
        self.pkt.write_at(16, bytes.as_slice());
        proof {
            lemma_splice_parts(b0, 16, self.dhcp.wire());
            assert(self.options() =~= old(self).options());
            assert(self.pkt.buf@.subrange(16, 256) =~= self.dhcp.wire());
        }
    }

    pub fn op(self, op: u8) -> (r: Dhcp)
        requires
            self.wf(),
        ensures
            r.wf(),
            r.dhcp == (dhcp_hdr { op, ..self.dhcp }),
            r.options() == self.options(),
    {
        let mut s = self;
        s.dhcp.op = op;
        s.sync();
        s
    }

    pub fn htype(self, htype: u8) -> (r: Dhcp)
        requires
            self.wf(),
        ensures
            r.wf(),
            r.dhcp == (dhcp_hdr { htype, ..self.dhcp }),
            r.options() == self.options(),
    {
        let mut s = self;
        s.dhcp.htype = htype;
        s.sync();
        s
    }

    pub fn hlen(self, hlen: u8) -> (r: Dhcp)
        requires
            self.wf(),
        ensures
            r.wf(),
            r.dhcp == (dhcp_hdr { hlen, ..self.dhcp }),
            r.options() == self.options(),
    {
        let mut s = self;
        s.dhcp.hlen = hlen;
        s.sync();
        s
    }

    pub fn hops(self, hops: u8) -> (r: Dhcp)
        requires
            self.wf(),
        ensures
            r.wf(),
            r.dhcp == (dhcp_hdr { hops, ..self.dhcp }),
            r.options() == self.options(),
    {
        let mut s = self;
        s.dhcp.hops = hops;
        s.sync();
        s
    }

    pub fn xid(self, xid: u32) -> (r: Dhcp)
        requires
            self.wf(),
        ensures
            r.wf(),
            r.dhcp == (dhcp_hdr { xid, ..self.dhcp }),
            r.options() == self.options(),
    {
        let mut s = self;
        s.dhcp.xid = xid;
        s.sync();
        s
    }

    pub fn secs(self, secs: u16) -> (r: Dhcp)
        requires
            self.wf(),
        ensures
            r.wf(),
            r.dhcp == (dhcp_hdr { secs, ..self.dhcp }),
            r.options() == self.options(),
    {
        let mut s = self;
        s.dhcp.secs = secs;
        s.sync();
        s
    }

    pub fn flags(self, flags: u16) -> (r: Dhcp)
        requires
            self.wf(),
        ensures
            r.wf(),
            r.dhcp == (dhcp_hdr { flags, ..self.dhcp }),
            r.options() == self.options(),
    {
        let mut s = self;
        s.dhcp.flags = flags;
        s.sync();
        s
    }

    pub fn ciaddr(self, ciaddr: u32) -> (r: Dhcp)
        requires
            self.wf(),
        ensures
            r.wf(),
            r.dhcp == (dhcp_hdr { ciaddr, ..self.dhcp }),
            r.options() == self.options(),
    {
        let mut s = self;
        s.dhcp.ciaddr = ciaddr;
        s.sync();
        s
    }

    pub fn yiaddr(self, yiaddr: u32) -> (r: Dhcp)
        requires
            self.wf(),
        ensures
            r.wf(),
            r.dhcp == (dhcp_hdr { yiaddr, ..self.dhcp }),
            r.options() == self.options(),
    {
        let mut s = self;
        s.dhcp.yiaddr = yiaddr;
        s.sync();
        s
    }

    pub fn siaddr(self, siaddr: u32) -> (r: Dhcp)
        requires
            self.wf(),
        ensures
            r.wf(),
            r.dhcp == (dhcp_hdr { siaddr, ..self.dhcp }),
            r.options() == self.options(),
    {
        let mut s = self;
        s.dhcp.siaddr = siaddr;
        s.sync();
        s
    }

    pub fn giaddr(self, giaddr: u32) -> (r: Dhcp)
        requires
            self.wf(),
        ensures
            r.wf(),
            r.dhcp == (dhcp_hdr { giaddr, ..self.dhcp }),
            r.options() == self.options(),
    {
        let mut s = self;
        s.dhcp.giaddr = giaddr;
        s.sync();
        s
    }

    /// Write the client hardware address over its fixed field,
    /// silently truncating and keeping bytes beyond the write.
    pub fn chaddr(self, chaddr: &[u8]) -> (r: Dhcp)
        requires
            self.wf(),
        ensures
            r.wf(),
            r.dhcp == (dhcp_hdr { chaddr: r.dhcp.chaddr, ..self.dhcp }),
            r.dhcp.chaddr@ == overlay(self.dhcp.chaddr@, chaddr@),
            r.options() == self.options(),
    {
        let mut s = self;
        s.dhcp.set_chaddr(chaddr);
        s.sync();
        s
    }

    /// Write the TFTP server name over its fixed field, silently
    /// truncating and keeping bytes beyond the write.
    pub fn sname(self, sname: &[u8]) -> (r: Dhcp)
        requires
            self.wf(),
        ensures
            r.wf(),
            r.dhcp == (dhcp_hdr { sname: r.dhcp.sname, ..self.dhcp }),
            r.dhcp.sname@ == overlay(self.dhcp.sname@, sname@),
            r.options() == self.options(),
    {
        let mut s = self;
        s.dhcp.set_sname(sname);
        s.sync();
        s
    }

    /// Write the TFTP file name over its fixed field, silently
    /// truncating and keeping bytes beyond the write.
    pub fn file(self, file: &[u8]) -> (r: Dhcp)
        requires
            self.wf(),
        ensures
            r.wf(),
            r.dhcp == (dhcp_hdr { file: r.dhcp.file, ..self.dhcp }),
            r.dhcp.file@ == overlay(self.dhcp.file@, file@),
            r.options() == self.options(),
    {
        let mut s = self;
        s.dhcp.set_file(file);
        s.sync();
        s
    }

    pub fn magic(self, magic: u32) -> (r: Dhcp)
        requires
            self.wf(),
        ensures
            r.wf(),
            r.dhcp == (dhcp_hdr { magic, ..self.dhcp }),
            r.options() == self.options(),
    {
        let mut s = self;
        s.dhcp.magic = magic;
        s.sync();
        s
    }

    /// Append one option: code, length, payload.
    pub fn opt(self, opt: u8, buf: &[u8]) -> (r: Dhcp)
        requires
            self.wf(),
            buf@.len() <= 255,
        ensures
            r.wf(),
            r.dhcp == self.dhcp,
            r.options() == self.options() + seq![opt, buf@.len() as u8] + buf@,
    {
        let mut s = self;
        let hdr = dhcp_opt::from_buf(opt, buf);
        proof {
            lemma_append_parts(s.pkt.buf@, hdr.wire());
        }
        s.pkt.push(hdr);
        proof {
            lemma_append_parts(s.pkt.buf@, buf@);
        }
        s.pkt.push_bytes(buf);
        proof {
            assert(s.options() =~= self.options() + seq![opt, buf@.len() as u8] + buf@);
            assert(s.pkt.buf@.subrange(16, 256) =~= s.dhcp.wire());
        }
        s
    }

    /// Consume the builder, yielding the header and options as bytes.
    pub fn into_vec(self) -> (r: Vec<u8>)
        requires
            self.wf(),
        ensures
            r@ == self.dhcp.wire() + self.options(),
    {
        proof {
            self.dhcp.lemma_wire_len();
        }
        let r = self.pkt.to_vec();
        proof {
            assert(r@ =~= self.dhcp.wire() + self.options());
        }
        r
    }
}

impl Default for Dhcp {
    fn default() -> (r: Self)
        ensures
            r.wf(),
            r.dhcp.magic == DHCP_MAGIC,
            r.options() == Seq::<u8>::empty(),
    {
        Self::with_capacity(12)
    }
}

} // verus!
