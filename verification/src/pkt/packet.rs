use vstd::prelude::*;
use vstd::pervasive::VecAdditionalExecFns;
use crate::pkt::Serialize;

verus! {

/// Replace `p.len()` bytes of `s` at `off` with `p`.
pub open spec fn splice(s: Seq<u8>, off: int, p: Seq<u8>) -> Seq<u8> {
    s.subrange(0, off) + p + s.skip(off + p.len())
}

/// Splicing changes exactly the spliced range.
pub proof fn lemma_splice_parts(s: Seq<u8>, off: int, p: Seq<u8>)
    requires
        0 <= off,
        off + p.len() <= s.len(),
    ensures
        splice(s, off, p).len() == s.len(),
        splice(s, off, p).subrange(off, off + p.len()) == p,
        forall|j: int|
            0 <= j < s.len() && !(off <= j < off + p.len()) ==> #[trigger] splice(s, off, p)[j]
                == s[j],
        forall|j: int| off <= j < off + p.len() ==> #[trigger] splice(s, off, p)[j] == p[j - off],
{
    assert(splice(s, off, p).subrange(off, off + p.len()) =~= p);
}

/// Appending at the tail leaves every index below the old length alone.
pub proof fn lemma_append_parts(s: Seq<u8>, t: Seq<u8>)
    ensures
        (s + t).len() == s.len() + t.len(),
        forall|j: int| 0 <= j < s.len() ==> #[trigger] (s + t)[j] == s[j],
        forall|j: int| 0 <= j < t.len() ==> #[trigger] (s + t)[s.len() + j] == t[j],
        (s + t).skip(s.len() as int) == t,
        (s + t).subrange(0, s.len() as int) == s,
{
    assert((s + t).skip(s.len() as int) =~= t);
    assert((s + t).subrange(0, s.len() as int) =~= s);
}

/// A typed-header handle: the offset and size of one record inside a
/// `Packet`'s byte storage. It owns no memory.
#[derive(Debug, Copy, Clone, PartialEq, Eq, Structural)]
pub struct Hdr {
    pub off: usize,
    pub len: usize,
}

/// A byte-range handle inside a `Packet`'s byte storage.
#[derive(Debug, Copy, Clone, PartialEq, Eq, Structural)]
pub struct PktSlice {
    pub off: usize,
    pub len: usize,
}

impl Hdr {
    pub fn off(&self) -> (r: usize)
        ensures
            r == self.off,
    {
        self.off
    }

    pub fn len(&self) -> (r: usize)
        ensures
            r == self.len,
    {
        self.len
    }

    pub fn is_empty(&self) -> (r: bool)
        ensures
            r == (self.len == 0),
    {
        self.len == 0
    }

    /// This header's range as a plain slice handle.
    pub fn as_slice(&self) -> (r: PktSlice)
        ensures
            r.off == self.off,
            r.len == self.len,
    {
        PktSlice { off: self.off, len: self.len }
    }

    /// `n` bytes of the packet just after this header.
    pub fn payload(&self, n: usize) -> (r: PktSlice)
        requires
            self.off + self.len + n <= usize::MAX,
        ensures
            r.off == self.off + self.len,
            r.len == n,
    {
        PktSlice { off: self.off + self.len, len: n }
    }

    /// This header plus `n` bytes: a range of `n` bytes from the start
    /// of the header.
    pub fn packet(&self, n: usize) -> (r: PktSlice)
        ensures
            r.off == self.off,
            r.len == n,
    {
        PktSlice { off: self.off, len: n }
    }

    /// Bytes from the start of this header to the end of the packet.
    pub fn len_from(&self, pkt: &Packet) -> (r: usize)
        requires
            self.off <= pkt.buf@.len(),
        ensures
            r == pkt.buf@.len() - self.off,
    {
        pkt.len_from(self.off)
    }

    /// Bytes after this header to the end of the packet.
    pub fn len_after(&self, pkt: &Packet) -> (r: usize)
        requires
            self.off + self.len <= pkt.buf@.len(),
        ensures
            r == pkt.buf@.len() - self.off - self.len,
    {
        pkt.len_from(self.off) - self.len
    }
}

impl PktSlice {
    pub fn off(&self) -> (r: usize)
        ensures
            r == self.off,
    {
        self.off
    }

    pub fn len(&self) -> (r: usize)
        ensures
            r == self.len,
    {
        self.len
    }

    pub fn is_empty(&self) -> (r: bool)
        ensures
            r == (self.len == 0),
    {
        self.len == 0
    }
}

/// A growable byte buffer with a tracked headroom prefix. The logical
/// packet content is `buf[headroom..]`; handles hold absolute offsets
/// into `buf`, which only ever grows at the tail.
#[derive(Debug)]
pub struct Packet {
    pub buf: Vec<u8>,
    pub headroom: usize,
}

impl Clone for Packet {
    fn clone(&self) -> (r: Self)
        ensures
            r.buf@ == self.buf@,
            r.headroom == self.headroom,
    {
        Packet { buf: crate::strbuf::clone_bytes(&self.buf), headroom: self.headroom }
    }
}

impl PartialEq for Packet {
    fn eq(&self, other: &Self) -> (r: bool) {
        self.headroom == other.headroom
            && crate::strbuf::bytes_eq(self.buf.as_slice(), other.buf.as_slice())
    }
}

impl vstd::std_specs::cmp::PartialEqSpecImpl for Packet {
    open spec fn obeys_eq_spec() -> bool {
        true
    }

    open spec fn eq_spec(&self, other: &Packet) -> bool {
        self.buf@ == other.buf@ && self.headroom == other.headroom
    }
}

impl Eq for Packet {}

impl Packet {
    /// Headroom of a default packet: enough for a pcap record header.
    pub open spec fn default_headroom() -> usize {
        16
    }

    /// The headroom is never larger than the stored bytes.
    pub open spec fn wf(&self) -> bool {
        self.headroom <= self.buf@.len()
    }

    /// The logical packet content: everything after the headroom.
    pub open spec fn content(&self) -> Seq<u8> {
        self.buf@.skip(self.headroom as int)
    }

    /// A fresh packet: `headroom` zero bytes and no content.
    /// `capacity` is only a size hint for the allocation.
    pub fn new(headroom: usize, capacity: usize) -> (r: Packet)
        requires
            headroom + capacity <= usize::MAX,
        ensures
            r.headroom == headroom,
            r.buf@ == Seq::new(headroom as nat, |i: int| 0u8),
            r.wf(),
            r.content() == Seq::<u8>::empty(),
    {
        let mut buf: Vec<u8> = Vec::with_capacity(headroom + capacity);
        let mut i: usize = 0;
        while i < headroom
            invariant
                0 <= i <= headroom,
                buf@ =~= Seq::new(i as nat, |j: int| 0u8),
            decreases headroom - i,
        {
            buf.push(0);
            assert(buf@ =~= Seq::new((i + 1) as nat, |j: int| 0u8));
            i += 1;
        }
        let r = Packet { buf, headroom };
        assert(r.content() =~= Seq::<u8>::empty());
        r
    }

    pub fn with_headroom(headroom: usize) -> (r: Packet)
        requires
            headroom + 64 <= usize::MAX,
        ensures
            r.headroom == headroom,
            r.buf@ == Seq::new(headroom as nat, |i: int| 0u8),
            r.wf(),
            r.content() == Seq::<u8>::empty(),
    {
        Packet::new(headroom, 64)
    }

    pub fn with_capacity(capacity: usize) -> (r: Packet)
        requires
            capacity + 16 <= usize::MAX,
        ensures
            r.headroom == Packet::default_headroom(),
            r.buf@ == Seq::new(16, |i: int| 0u8),
            r.wf(),
            r.content() == Seq::<u8>::empty(),
    {
        Packet::new(16, capacity)
    }

    pub fn headroom(&self) -> (r: usize)
        ensures
            r == self.headroom,
    {
        self.headroom
    }

    /// Length of the logical content.
    pub fn len(&self) -> (r: usize)
        requires
            self.wf(),
        ensures
            r == self.content().len(),
    {
        self.buf.len() - self.headroom
    }

    pub fn is_empty(&self) -> (r: bool)
        requires
            self.wf(),
        ensures
            r == (self.content().len() == 0),
    {
        self.len() == 0
    }

    /// Bytes from `off` to the end of the storage.
    pub fn len_from(&self, off: usize) -> (r: usize)
        requires
            off <= self.buf@.len(),
        ensures
            r == self.buf@.len() - off,
    {
        self.buf.len() - off
    }

    /// Append a record at the tail and return its handle.
    pub fn push<T: Serialize>(&mut self, item: T) -> (h: Hdr)
        ensures
            final(self).buf@ == old(self).buf@ + item.wire(),
            final(self).headroom == old(self).headroom,
            h.off == old(self).buf@.len(),
            h.len == item.wire().len(),
    {
        let bytes = item.write_bytes();
        let off = self.buf.len();
        let len = bytes.len();
        crate::pkt::put_bytes(&mut self.buf, bytes.as_slice());
        Hdr { off, len }
    }

    /// Reserve a zero-filled header of `len` bytes at the tail and
    /// return its handle; protocol fields with mandatory zero defaults
    /// rely on the fill.
    pub fn push_hdr(&mut self, len: usize) -> (h: Hdr)
        requires
            old(self).buf@.len() + len <= usize::MAX,
        ensures
            final(self).buf@ == old(self).buf@ + Seq::new(len as nat, |i: int| 0u8),
            final(self).headroom == old(self).headroom,
            h.off == old(self).buf@.len(),
            h.len == len,
    {
        let ps = self.push_slice(len);
        Hdr { off: ps.off, len: ps.len }
    }

    /// Append raw bytes at the tail and return their handle.
    pub fn push_bytes(&mut self, bytes: &[u8]) -> (ps: PktSlice)
        ensures
            final(self).buf@ == old(self).buf@ + bytes@,
            final(self).headroom == old(self).headroom,
            ps.off == old(self).buf@.len(),
            ps.len == bytes@.len(),
    {
        let off = self.buf.len();
        let len = bytes.len();
        crate::pkt::put_bytes(&mut self.buf, bytes);
        PktSlice { off, len }
    }

    /// Grow the packet by `len` zero bytes and return their handle.
    pub fn push_slice(&mut self, len: usize) -> (ps: PktSlice)
        requires
            old(self).buf@.len() + len <= usize::MAX,
        ensures
            final(self).buf@ == old(self).buf@ + Seq::new(len as nat, |i: int| 0u8),
            final(self).headroom == old(self).headroom,
            ps.off == old(self).buf@.len(),
            ps.len == len,
    {
        let off = self.buf.len();
        let mut i: usize = 0;
        while i < len
            invariant
                0 <= i <= len,
                self.buf@ =~= old(self).buf@ + Seq::new(i as nat, |j: int| 0u8),
                self.headroom == old(self).headroom,
            decreases len - i,
        {
            self.buf.push(0);
            assert(self.buf@ =~= old(self).buf@ + Seq::new((i + 1) as nat, |j: int| 0u8));
            i += 1;
        }
        PktSlice { off, len }
    }

    /// Overwrite the range of handle `h` with a record's bytes.
    pub fn set<T: Serialize>(&mut self, h: Hdr, item: &T)
        requires
            h.off + h.len <= old(self).buf@.len(),
            item.wire().len() == h.len,
        ensures
            final(self).buf@ == splice(old(self).buf@, h.off as int, item.wire()),
            final(self).headroom == old(self).headroom,
    {
        let bytes = item.write_bytes();
        self.write_at(h.off, bytes.as_slice());
    }

    /// Overwrite bytes starting at `off` with `bytes`.
    pub fn write_at(&mut self, off: usize, bytes: &[u8])
        requires
            off + bytes@.len() <= old(self).buf@.len(),
        ensures
            final(self).buf@ == splice(old(self).buf@, off as int, bytes@),
            final(self).headroom == old(self).headroom,
    {
        let n = self.buf.len();
        let mut i: usize = 0;
        while i < bytes.len()
            invariant
                0 <= i <= bytes@.len(),
                off + bytes@.len() <= self.buf@.len(),
                self.buf@.len() == old(self).buf@.len(),
                self.headroom == old(self).headroom,
                self.buf@.len() <= usize::MAX,
                forall|j: int| 0 <= j < i ==> self.buf@[off + j] == bytes@[j],
                forall|j: int|
                    0 <= j < self.buf@.len() && !(off <= j < off + i) ==> self.buf@[j] == old(
                        self,
                    ).buf@[j],
            decreases bytes@.len() - i,
        {
            self.buf.set(off + i, bytes[i]);
            i += 1;
        }
        assert(self.buf@ =~= splice(old(self).buf@, off as int, bytes@));
    }

    /// The whole logical content as a slice handle.
    pub fn as_slice(&self) -> (ps: PktSlice)
        requires
            self.wf(),
        ensures
            ps.off == self.headroom,
            ps.len == self.content().len(),
    {
        PktSlice { off: self.headroom, len: self.len() }
    }

    /// Take `len` bytes of headroom for a header to be written; the
    /// handle marks the new start of the content.
    pub fn lower_headroom(&mut self, len: usize) -> (h: Hdr)
        requires
            old(self).wf(),
            len <= old(self).headroom,
        ensures
            final(self).buf@ == old(self).buf@,
            final(self).headroom == old(self).headroom - len,
            h.off == final(self).headroom,
            h.len == len,
            final(self).wf(),
    {
        self.headroom = self.headroom - len;
        Hdr { off: self.headroom, len }
    }

    /// Prepend a record into the headroom; its bytes become the new
    /// start of the content.
    pub fn lower_headroom_for<T: Serialize>(&mut self, item: T) -> (h: Hdr)
        requires
            old(self).wf(),
            item.wire().len() <= old(self).headroom,
        ensures
            final(self).headroom == old(self).headroom - item.wire().len(),
            final(self).buf@ == splice(old(self).buf@, final(self).headroom as int, item.wire()),
            h.off == final(self).headroom,
            h.len == item.wire().len(),
            final(self).wf(),
    {
        let bytes = item.write_bytes();
        let len = bytes.len();
        self.headroom = self.headroom - len;
        self.write_at(self.headroom, bytes.as_slice());
        Hdr { off: self.headroom, len }
    }

    /// Undo the most recent prepend: the header must sit exactly at the
    /// start of the content.
    pub fn return_headroom(&mut self, h: Hdr)
        requires
            old(self).wf(),
            h.off == old(self).headroom,
            h.off + h.len <= old(self).buf@.len(),
        ensures
            final(self).buf@ == old(self).buf@,
            final(self).headroom == old(self).headroom + h.len,
            final(self).wf(),
    {
        let n = self.buf.len();
        self.headroom = self.headroom + h.len;
    }

    /// Copy the logical content out as an owned vector.
    pub fn to_vec(&self) -> (r: Vec<u8>)
        requires
            self.wf(),
        ensures
            r@ == self.content(),
    {
        let mut r: Vec<u8> = Vec::new();
        let mut i: usize = self.headroom;
        while i < self.buf.len()
            invariant
                self.headroom <= i <= self.buf@.len(),
                r@ =~= self.buf@.subrange(self.headroom as int, i as int),
            decreases self.buf@.len() - i,
        {
            r.push(self.buf[i]);
            assert(r@ =~= self.buf@.subrange(self.headroom as int, i + 1));
            i += 1;
        }
        assert(r@ =~= self.content());
        r
    }

    /// Copy the bytes of a slice handle out as an owned vector.
    pub fn to_vec_from(&self, ps: PktSlice) -> (r: Vec<u8>)
        requires
            self.wf(),
            ps.off + ps.len <= self.buf@.len(),
        ensures
            r@ == self.buf@.subrange(ps.off as int, ps.off + ps.len),
    {
        let n = self.buf.len();
        let mut r: Vec<u8> = Vec::new();
        let end = ps.off + ps.len;
        let mut i: usize = ps.off;
        while i < end
            invariant
                end == ps.off + ps.len,
                ps.off <= i <= ps.off + ps.len,
                ps.off + ps.len <= self.buf@.len(),
                r@ =~= self.buf@.subrange(ps.off as int, i as int),
            decreases ps.off + ps.len - i,
        {
            r.push(self.buf[i]);
            assert(r@ =~= self.buf@.subrange(ps.off as int, i + 1));
            i += 1;
        }
        r
    }

    /// Consume the packet, yielding the bytes of a slice handle.
    pub fn into_vec_from(self, ps: PktSlice) -> (r: Vec<u8>)
        requires
            self.wf(),
            ps.off + ps.len <= self.buf@.len(),
        ensures
            r@ == self.buf@.subrange(ps.off as int, ps.off + ps.len),
    {
        self.to_vec_from(ps)
    }

    /// Consume the packet, yielding its logical content.
    pub fn into_vec(self) -> (r: Vec<u8>)
        requires
            self.wf(),
        ensures
            r@ == self.content(),
    {
        self.to_vec()
    }

    /// The simulated time on the wire, in nanoseconds at 1 Gb/s: eight
    /// bits per byte of frame plus 24 octets of preamble, frame check
    /// and inter-packet gap.
    pub fn bit_time(&self) -> (r: u64)
        requires
            self.wf(),
            (self.content().len() + 24) * 8 <= u64::MAX,
        ensures
            r == (self.content().len() + 24) * 8,
    {
        let len: u64 = (self.len() as u64) + 24;
        len * 8
    }
}

} // verus!
