#![allow(non_camel_case_types)]

use vstd::prelude::*;
use crate::pkt::{spec_be16, spec_be32, put_be16, put_be32, put_u8, Ip4Addr, Serialize};

verus! {

pub const PROTO_ICMP: u8 = 1;
pub const PROTO_TCP: u8 = 6;
pub const PROTO_UDP: u8 = 17;
pub const PROTO_GRE: u8 = 47;

/// IPv4 fragment-word flag bits, in the same word as the fragment offset.
pub const IP_EVIL: u16 = 0x8000;
pub const IP_DF: u16 = 0x4000;
pub const IP_MF: u16 = 0x2000;

// ---------------------------------------------------------------------------
// The one's-complement Internet checksum.
// ---------------------------------------------------------------------------
/// The 32-bit pre-fold accumulator over big-endian 16-bit words; an odd
/// trailing byte counts as the high half of a final word.
pub open spec fn csum_partial_spec(b: Seq<u8>) -> int
    decreases b.len(),
{
    if b.len() >= 2 {
        (b[0] as int) * 256 + (b[1] as int) + csum_partial_spec(b.skip(2))
    } else if b.len() == 1 {
        (b[0] as int) * 256
    } else {
        0
    }
}

/// Fold a non-negative accumulator to 16 bits with end-around carry,
/// twice, then complement.
pub open spec fn csum_fold_spec(sum: int) -> u16 {
    let f1 = sum % 0x10000 + sum / 0x10000;
    let f2 = f1 % 0x10000 + f1 / 0x10000;
    (0xffff - f2 % 0x10000) as u16
}

/// The Internet checksum of a byte string.
pub open spec fn csum_spec(b: Seq<u8>) -> u16 {
    csum_fold_spec(csum_partial_spec(b))
}

/// A transport checksum: the pseudo-header's, transport header's and
/// payload's partial sums, folded together.
pub open spec fn transport_csum(ph: ip_pseudo_hdr, hdr_bytes: Seq<u8>, payload: Seq<u8>) -> u16 {
    csum_fold_spec(
        csum_partial_spec(ph.wire()) + csum_partial_spec(hdr_bytes) + csum_partial_spec(payload),
    )
}

/// The accumulator is non-negative and at most one 0xffff per word.
pub proof fn lemma_csum_partial_bound(b: Seq<u8>)
    ensures
        0 <= csum_partial_spec(b),
        csum_partial_spec(b) <= (b.len() + 1) / 2 * 0xffff,
    decreases b.len(),
{
    if b.len() >= 2 {
        lemma_csum_partial_bound(b.skip(2));
        assert(b.skip(2).len() == b.len() - 2);
        assert((b.len() + 1) / 2 * 0xffff == ((b.len() - 2 + 1) / 2 + 1) * 0xffff) by {
            assert((b.len() + 1) / 2 == (b.len() - 2 + 1) / 2 + 1);
            let k = (b.len() - 2 + 1) / 2;
            assert((k + 1) * 0xffff == k * 0xffff + 0xffff) by (nonlinear_arith);
        }
        assert((b[0] as int) * 256 + (b[1] as int) <= 0xffff);
    } else if b.len() == 1 {
        assert((b.len() + 1) / 2 * 0xffff == 0xffff);
    }
}

/// Summing is additive across a split at an even boundary.
pub proof fn lemma_csum_partial_append(s: Seq<u8>, t: Seq<u8>)
    requires
        s.len() % 2 == 0,
    ensures
        csum_partial_spec(s + t) == csum_partial_spec(s) + csum_partial_spec(t),
    decreases s.len(),
{
    if s.len() == 0 {
        assert(s + t =~= t);
    } else {
        assert((s + t).skip(2) =~= s.skip(2) + t);
        lemma_csum_partial_append(s.skip(2), t);
        assert((s + t)[0] == s[0]);
        assert((s + t)[1] == s[1]);
    }
}

/// The double fold of an accumulator: reduced to 16 bits with
/// end-around carry, before the final complement.
pub open spec fn csum_fold2(sum: int) -> int {
    let f1 = sum % 0x10000 + sum / 0x10000;
    f1 % 0x10000 + f1 / 0x10000
}

/// The double fold keeps the value's residue modulo 0xffff and lands
/// in the 16-bit range; it is zero only for zero.
pub proof fn lemma_fold2_props(sum: int)
    requires
        0 <= sum < 0x100000000,
    ensures
        0 <= csum_fold2(sum) <= 0xffff,
        (sum - csum_fold2(sum)) % 0xffff == 0,
        csum_fold2(sum) == 0 ==> sum == 0,
{
    let q1 = sum / 0x10000;
    let r1 = sum % 0x10000;
    vstd::arithmetic::div_mod::lemma_fundamental_div_mod(sum, 0x10000);
    let f1 = r1 + q1;
    assert(sum - f1 == 0xffff * q1) by (nonlinear_arith)
        requires
            sum == 0x10000 * q1 + r1,
            f1 == r1 + q1,
    ;
    let q2 = f1 / 0x10000;
    let r2 = f1 % 0x10000;
    vstd::arithmetic::div_mod::lemma_fundamental_div_mod(f1, 0x10000);
    let f2 = r2 + q2;
    assert(f1 - f2 == 0xffff * q2) by (nonlinear_arith)
        requires
            f1 == 0x10000 * q2 + r2,
            f2 == r2 + q2,
    ;
    assert(sum - f2 == 0xffff * (q1 + q2)) by (nonlinear_arith)
        requires
            sum - f1 == 0xffff * q1,
            f1 - f2 == 0xffff * q2,
    ;
    assert((0xffff * (q1 + q2)) % 0xffff == 0) by (nonlinear_arith);
    assert((sum - f2) % 0xffff == 0);
    // range: one fold brings the carry below two, the second settles it
    assert(q1 <= 0xffff);
    assert(f1 <= 0x1fffe);
    assert(q2 <= 1);
    assert(f2 <= 0xffff);
    if f2 == 0 {
        assert(r2 == 0 && q2 == 0);
        assert(f1 == 0);
        assert(r1 == 0 && q1 == 0);
        assert(sum == 0);
    }
}

/// A value folds to the complement of its double fold.
pub proof fn lemma_fold_complement(sum: int)
    requires
        0 <= sum < 0x100000000,
    ensures
        csum_fold_spec(sum) == 0xffff - csum_fold2(sum),
{
    lemma_fold2_props(sum);
}

/// Replacing a zero 16-bit slot at an even offset adds exactly that
/// word to the accumulator.
pub proof fn lemma_csum_insert(b: Seq<u8>, i: int, hi: u8, lo: u8)
    requires
        0 <= i,
        i % 2 == 0,
        i + 1 < b.len(),
        b[i] == 0,
        b[i + 1] == 0,
    ensures
        csum_partial_spec(b.update(i, hi).update(i + 1, lo)) == csum_partial_spec(b) + (
        hi as int) * 256 + (lo as int),
{
    let b2 = b.update(i, hi).update(i + 1, lo);
    assert(b =~= b.take(i) + b.subrange(i, i + 2) + b.skip(i + 2));
    assert(b2 =~= b.take(i) + b2.subrange(i, i + 2) + b.skip(i + 2)) by {
        assert(b2.take(i) =~= b.take(i));
        assert(b2.skip(i + 2) =~= b.skip(i + 2));
    }
    assert(b.take(i).len() == i);
    assert(b.take(i) + b.subrange(i, i + 2) + b.skip(i + 2) =~= b.take(i) + (b.subrange(i, i + 2)
        + b.skip(i + 2)));
    assert(b.take(i) + b2.subrange(i, i + 2) + b.skip(i + 2) =~= b.take(i) + (b2.subrange(
        i,
        i + 2,
    ) + b.skip(i + 2)));
    lemma_csum_partial_append(b.take(i), b.subrange(i, i + 2) + b.skip(i + 2));
    lemma_csum_partial_append(b.subrange(i, i + 2), b.skip(i + 2));
    lemma_csum_partial_append(b.take(i), b2.subrange(i, i + 2) + b.skip(i + 2));
    lemma_csum_partial_append(b2.subrange(i, i + 2), b.skip(i + 2));
    assert(csum_partial_spec(b.subrange(i, i + 2)) == 0) by {
        let p = b.subrange(i, i + 2);
        assert(p.len() == 2);
        assert(p[0] == 0 && p[1] == 0);
        assert(p.skip(2) =~= Seq::<u8>::empty());
        assert(csum_partial_spec(Seq::<u8>::empty()) == 0);
        assert(csum_partial_spec(p) == (p[0] as int) * 256 + (p[1] as int));
    }
    assert(csum_partial_spec(b2.subrange(i, i + 2)) == (hi as int) * 256 + (lo as int)) by {
        let p = b2.subrange(i, i + 2);
        assert(p.len() == 2);
        assert(p[0] == hi && p[1] == lo);
        assert(p.skip(2) =~= Seq::<u8>::empty());
        assert(csum_partial_spec(Seq::<u8>::empty()) == 0);
        assert(csum_partial_spec(p) == (p[0] as int) * 256 + (p[1] as int));
    }
}

/// Writing a message's own Internet checksum into its cleared checksum
/// slot makes the whole message sum to zero: checksumming verifies.
pub proof fn lemma_ip_csum_verifies(b: Seq<u8>, i: int)
    requires
        0 <= i,
        i % 2 == 0,
        i + 1 < b.len(),
        b.len() <= 0x20000,
        b[i] == 0,
        b[i + 1] == 0,
    ensures
        ({
            let c = csum_spec(b);
            csum_spec(b.update(i, (c / 256) as u8).update(i + 1, (c % 256) as u8)) == 0
        }),
{
    let p = csum_partial_spec(b);
    lemma_csum_partial_bound(b);
    assert(p <= (b.len() + 1) / 2 * 0xffff);
    assert((b.len() + 1) / 2 <= 0x10000);
    assert(p <= 0x10000 * 0xffff);
    let c = csum_spec(b);
    lemma_fold_complement(p);
    lemma_fold2_props(p);
    let f2p = csum_fold2(p);
    assert(c == 0xffff - f2p);
    let hi = (c as int / 256) as u8;
    let lo = (c as int % 256) as u8;
    lemma_csum_insert(b, i, hi, lo);
    let s = p + (hi as int) * 256 + (lo as int);
    assert((hi as int) * 256 + (lo as int) == c) by {
        vstd::arithmetic::div_mod::lemma_fundamental_div_mod(c as int, 256);
    }
    assert(s == p + c);
    assert(s < 0x100000000);
    lemma_fold2_props(s);
    let f2s = csum_fold2(s);
    // s is a positive multiple of 0xffff, so its double fold is
    // exactly 0xffff and the final complement is zero
    let d = p - f2p;
    assert(d % 0xffff == 0);
    assert(s == d + 0xffff);
    assert(s % 0xffff == 0) by {
        vstd::arithmetic::div_mod::lemma_mod_add_multiples_vanish(d, 0xffff);
    }
    assert(s > 0) by {
        if p == 0 {
            assert(csum_fold2(0) == 0);
            assert(c == 0xffff);
        }
    }
    vstd::arithmetic::div_mod::lemma_fundamental_div_mod(s, 0xffff);
    let k1 = s / 0xffff;
    assert(s == 0xffff * k1);
    assert(k1 >= 1) by (nonlinear_arith)
        requires
            s == 0xffff * k1,
            s > 0,
    ;
    assert(f2s != 0);
    vstd::arithmetic::div_mod::lemma_fundamental_div_mod(s - f2s, 0xffff);
    let k2 = (s - f2s) / 0xffff;
    assert(s - f2s == 0xffff * k2);
    assert(f2s == 0xffff * (k1 - k2)) by (nonlinear_arith)
        requires
            s == 0xffff * k1,
            s - f2s == 0xffff * k2,
    ;
    assert(f2s == 0xffff) by (nonlinear_arith)
        requires
            f2s == 0xffff * (k1 - k2),
            0 < f2s <= 0xffff,
    ;
    lemma_fold_complement(s);
}

/// A recomputed IPv4 header checksums to zero: the stored checksum is
/// exactly the one the header's own bytes verify against.
pub proof fn lemma_ip_hdr_csum_verifies(h: ip_hdr)
    ensures
        csum_spec(h.recalc().wire()) == 0,
{
    let z = h.zero_csum();
    let c = h.published_csum();
    assert(h.recalc().wire() =~= z.wire().update(10, (c as int / 256) as u8).update(
        11,
        (c as int % 256) as u8,
    )) by {
        assert((c / 256) as u8 as int == c as int / 256);
        assert((c % 256) as u8 as int == c as int % 256);
    }
    assert(z.wire().len() == 20);
    assert(z.wire()[10] == 0 && z.wire()[11] == 0);
    lemma_ip_csum_verifies(z.wire(), 10);
}

/// Fold a running 32-bit accumulator into the final 16-bit checksum.
pub fn ip_csum_fold(running: u32) -> (r: u16)
    ensures
        r == csum_fold_spec(running as int),
{
    let mut sum: u32 = running;

    assert((running & 0xffffu32) == running % 0x10000 && (running >> 16u32) == running / 0x10000)
        by (bit_vector);
    sum = (sum & 0xffffu32) + (sum >> 16);
    let ghost f1 = running as int % 0x10000 + running as int / 0x10000;
    assert(sum == f1);
    assert((sum & 0xffffu32) == sum % 0x10000 && (sum >> 16u32) == sum / 0x10000) by (bit_vector);
    sum = (sum & 0xffffu32) + (sum >> 16);
    let ghost f2 = f1 % 0x10000 + f1 / 0x10000;
    assert(sum == f2);
    assert(sum <= 0xffff) by {
        assert(f1 <= 0xffff + 0xffff);
        assert(f1 / 0x10000 <= 1);
        assert(f1 % 0x10000 <= 0xffff);
    }
    assert(!sum & 0xffffu32 == 0xffff - (sum % 0x10000) && sum % 0x10000 == sum) by (bit_vector)
        requires
            sum <= 0xffffu32,
    ;
    sum = !sum & 0xffffu32;

    sum as u16
}

/// The pre-fold accumulator of a byte slice. The length bound keeps the
/// 32-bit accumulator from overflowing.
pub fn ip_csum_partial(buf: &[u8]) -> (r: u32)
    requires
        buf@.len() <= 0x20000,
    ensures
        r == csum_partial_spec(buf@),
{
    let n = buf.len();
    let mut sum: u32 = 0;
    let mut i: usize = 0;

    proof {
        assert(buf@.take(0) =~= Seq::<u8>::empty());
    }
    while i + 1 < n
        invariant
            i % 2 == 0,
            0 <= i <= n,
            n == buf@.len() <= 0x20000,
            sum == csum_partial_spec(buf@.take(i as int)),
            sum <= (i / 2) * 0xffff,
            (i / 2) * 0xffff <= 0x10000 * 0xffff,
        decreases n - i,
    {
        let w: u32 = (buf[i] as u32) * 256 + (buf[i + 1] as u32);
        proof {
            lemma_csum_partial_append(buf@.take(i as int), buf@.subrange(i as int, i + 2));
            assert(buf@.take(i as int) + buf@.subrange(i as int, i + 2) =~= buf@.take(i + 2));
            assert(csum_partial_spec(buf@.subrange(i as int, i + 2)) == w as int) by {
                let p = buf@.subrange(i as int, i + 2);
                assert(p.len() == 2);
                assert(p[0] == buf@[i as int]);
                assert(p[1] == buf@[i + 1]);
                assert(p.skip(2) =~= Seq::<u8>::empty());
                assert(csum_partial_spec(Seq::<u8>::empty()) == 0);
                assert(csum_partial_spec(p) == (p[0] as int) * 256 + (p[1] as int));
            }
            assert(((i + 2) / 2) * 0xffff == (i / 2) * 0xffff + 0xffff) by (nonlinear_arith)
                requires
                    i % 2 == 0,
                    i >= 0,
            ;
            assert(((i + 2) / 2) * 0xffff <= 0x10000 * 0xffff) by (nonlinear_arith)
                requires
                    i + 2 <= 0x20000,
                    i % 2 == 0,
            ;
        }
        sum = sum + w;
        i = i + 2;
    }
    if i < n {
        proof {
            lemma_csum_partial_append(buf@.take(i as int), buf@.subrange(i as int, i + 1));
            assert(buf@.take(i as int) + buf@.subrange(i as int, i + 1) =~= buf@.take(i + 1));
            assert(csum_partial_spec(buf@.subrange(i as int, i + 1)) == (buf@[i as int] as int)
                * 256) by {
                let p = buf@.subrange(i as int, i + 1);
                assert(p.len() == 1);
                assert(p[0] == buf@[i as int]);
                assert(csum_partial_spec(p) == (p[0] as int) * 256);
            }
            assert(buf@.take(n as int) =~= buf@);
        }
        sum = sum + (buf[i] as u32) * 256;
    } else {
        proof {
            assert(buf@.take(i as int) =~= buf@);
        }
    }
    sum
}

/// The Internet checksum of a byte slice.
pub fn ip_csum(buf: &[u8]) -> (r: u16)
    requires
        buf@.len() <= 0x20000,
    ensures
        r == csum_spec(buf@),
{
    ip_csum_fold(ip_csum_partial(buf))
}

// ---------------------------------------------------------------------------
// IPv4 header.
// ---------------------------------------------------------------------------
/// The 20-byte IPv4 header. Multi-byte fields are kept in host order;
/// `wire` is the network-byte-order image.
#[derive(Debug, Copy, Clone, PartialEq, Eq, Structural)]
pub struct ip_hdr {
    pub ihl_version: u8,
    pub tos: u8,
    pub tot_len: u16,
    pub id: u16,
    pub frag_off: u16,
    pub ttl: u8,
    pub protocol: u8,
    pub csum: u16,
    pub saddr: u32,
    pub daddr: u32,
}

impl Serialize for ip_hdr {
    open spec fn wire(&self) -> Seq<u8> {
        seq![self.ihl_version, self.tos] + spec_be16(self.tot_len) + spec_be16(self.id)
            + spec_be16(self.frag_off) + seq![self.ttl, self.protocol] + spec_be16(self.csum)
            + spec_be32(self.saddr) + spec_be32(self.daddr)
    }

    fn write_bytes(&self) -> (r: Vec<u8>)
        ensures
            r@ == self.wire(),
    {
        let mut v: Vec<u8> = Vec::new();
        put_u8(&mut v, self.ihl_version);
        put_u8(&mut v, self.tos);
        put_be16(&mut v, self.tot_len);
        put_be16(&mut v, self.id);
        put_be16(&mut v, self.frag_off);
        put_u8(&mut v, self.ttl);
        put_u8(&mut v, self.protocol);
        put_be16(&mut v, self.csum);
        put_be32(&mut v, self.saddr);
        put_be32(&mut v, self.daddr);
        assert(v@ =~= self.wire());
        v
    }
}

impl Default for ip_hdr {
    /// Version 4, header length 5 words, TTL 64, total length equal to
    /// the header size.
    fn default() -> (r: Self)
        ensures
            r == ip_hdr::default_spec(),
    {
        ip_hdr {
            ihl_version: 0x45,
            tos: 0,
            tot_len: 20,
            id: 0,
            frag_off: 0,
            ttl: 64,
            protocol: 0,
            csum: 0,
            saddr: 0,
            daddr: 0,
        }
    }
}

impl ip_hdr {
    pub open spec fn size_of() -> usize {
        20
    }

    pub open spec fn default_spec() -> ip_hdr {
        ip_hdr {
            ihl_version: 0x45,
            tos: 0,
            tot_len: 20,
            id: 0,
            frag_off: 0,
            ttl: 64,
            protocol: 0,
            csum: 0,
            saddr: 0,
            daddr: 0,
        }
    }

    /// The header with its checksum field cleared, as checksummed.
    pub open spec fn zero_csum(self) -> ip_hdr {
        ip_hdr { csum: 0, ..self }
    }

    /// The checksum this header must carry: the Internet checksum of
    /// its own wire image with the checksum field zero.
    pub open spec fn published_csum(self) -> u16 {
        csum_spec(self.zero_csum().wire())
    }

    /// The header with its checksum recomputed, as `calc_csum` leaves it.
    pub open spec fn recalc(self) -> ip_hdr {
        ip_hdr { csum: self.published_csum(), ..self }
    }

    /// Reset version/IHL, total length and TTL to their defaults.
    pub fn init(&mut self)
        ensures
            *final(self) == (ip_hdr {
                ihl_version: 0x45,
                tot_len: 20,
                ttl: 64,
                ..*old(self)
            }),
    {
        self.ihl_version = 0x45;
        self.tot_len = 20;
        self.ttl = 64;
    }

    pub fn get_saddr(&self) -> (r: Ip4Addr)
        ensures
            r.bits == self.saddr,
    {
        Ip4Addr { bits: self.saddr }
    }

    pub fn get_daddr(&self) -> (r: Ip4Addr)
        ensures
            r.bits == self.daddr,
    {
        Ip4Addr { bits: self.daddr }
    }

    pub fn get_tot_len(&self) -> (r: u16)
        ensures
            r == self.tot_len,
    {
        self.tot_len
    }

    /// The pseudo-header used for transport checksums, carrying this
    /// header's addresses and protocol and the given transport length.
    pub fn get_pseudo_hdr(&self, len: u16) -> (r: ip_pseudo_hdr)
        ensures
            r == (ip_pseudo_hdr {
                src: self.saddr,
                dst: self.daddr,
                proto: self.protocol,
                len,
            }),
    {
        ip_pseudo_hdr { src: self.saddr, dst: self.daddr, proto: self.protocol, len }
    }

    pub fn set_tot_len(&mut self, tot_len: u16)
        ensures
            *final(self) == (ip_hdr { tot_len, ..*old(self) }),
    {
        self.tot_len = tot_len;
    }

    pub fn add_tot_len(&mut self, more: u16)
        requires
            old(self).tot_len + more <= 0xffff,
        ensures
            *final(self) == (ip_hdr { tot_len: (old(self).tot_len + more) as u16, ..*old(self) }),
    {
        self.tot_len = self.tot_len + more;
    }

    pub fn set_id(&mut self, id: u16)
        ensures
            *final(self) == (ip_hdr { id, ..*old(self) }),
    {
        self.id = id;
    }

    /// Set the fragment offset (in 8-byte units), keeping the flag bits.
    pub fn set_frag_off(&mut self, frag_off: u16)
        ensures
            *final(self) == (ip_hdr {
                frag_off: (frag_off | (old(self).frag_off & 0xe000)) as u16,
                ..*old(self)
            }),
    {
        self.frag_off = frag_off | (self.frag_off & 0xe000);
    }

    pub fn set_ttl(&mut self, ttl: u8)
        ensures
            *final(self) == (ip_hdr { ttl, ..*old(self) }),
    {
        self.ttl = ttl;
    }

    pub fn set_protocol(&mut self, protocol: u8)
        ensures
            *final(self) == (ip_hdr { protocol, ..*old(self) }),
    {
        self.protocol = protocol;
    }

    pub fn set_saddr(&mut self, addr: Ip4Addr)
        ensures
            *final(self) == (ip_hdr { saddr: addr.bits, ..*old(self) }),
    {
        self.saddr = addr.bits;
    }

    pub fn set_daddr(&mut self, addr: Ip4Addr)
        ensures
            *final(self) == (ip_hdr { daddr: addr.bits, ..*old(self) }),
    {
        self.daddr = addr.bits;
    }

    pub fn set_mf(&mut self, mf: bool)
        ensures
            *final(self) == (ip_hdr {
                frag_off: if mf {
                    (old(self).frag_off | IP_MF) as u16
                } else {
                    (old(self).frag_off & !IP_MF) as u16
                },
                ..*old(self)
            }),
    {
        if mf {
            self.frag_off = self.frag_off | IP_MF;
        } else {
            self.frag_off = self.frag_off & !IP_MF;
        }
    }

    pub fn set_df(&mut self, df: bool)
        ensures
            *final(self) == (ip_hdr {
                frag_off: if df {
                    (old(self).frag_off | IP_DF) as u16
                } else {
                    (old(self).frag_off & !IP_DF) as u16
                },
                ..*old(self)
            }),
    {
        if df {
            self.frag_off = self.frag_off | IP_DF;
        } else {
            self.frag_off = self.frag_off & !IP_DF;
        }
    }

    pub fn set_evil(&mut self, evil: bool)
        ensures
            *final(self) == (ip_hdr {
                frag_off: if evil {
                    (old(self).frag_off | IP_EVIL) as u16
                } else {
                    (old(self).frag_off & !IP_EVIL) as u16
                },
                ..*old(self)
            }),
    {
        if evil {
            self.frag_off = self.frag_off | IP_EVIL;
        } else {
            self.frag_off = self.frag_off & !IP_EVIL;
        }
    }

    pub fn set_csum(&mut self, csum: u16)
        ensures
            *final(self) == (ip_hdr { csum, ..*old(self) }),
    {
        self.csum = csum;
    }

    /// Zero the checksum field, then store the header's own Internet
    /// checksum in it.
    pub fn calc_csum(&mut self)
        ensures
            *final(self) == (ip_hdr { csum: old(self).published_csum(), ..*old(self) }),
    {
        self.csum = 0;
        let bytes = self.write_bytes();
        proof {
            assert(self.wire().len() == 20);
        }
        let c = ip_csum(bytes.as_slice());
        proof {
            assert(*self == old(self).zero_csum());
        }
        self.csum = c;
    }
}

// ---------------------------------------------------------------------------
// Field round trips: every typed field that a setter stores and a
// getter reads is carried through the wire image unchanged, for every
// value in its domain.
// ---------------------------------------------------------------------------
/// The total length written by `set_tot_len` is what `get_tot_len`
/// reads, and what the wire bytes carry.
pub proof fn lemma_ip_tot_len_roundtrip(h: ip_hdr, x: u16)
    ensures
        (ip_hdr { tot_len: x, ..h }).tot_len == x,
        crate::pkt::read_be16((ip_hdr { tot_len: x, ..h }).wire(), 2) == x,
{
    let w = (ip_hdr { tot_len: x, ..h }).wire();
    assert(w[2] == spec_be16(x)[0] && w[3] == spec_be16(x)[1]);
    crate::pkt::lemma_be16_roundtrip(x);
}

/// The source address round-trips through its wire bytes.
pub proof fn lemma_ip_saddr_roundtrip(h: ip_hdr, x: u32)
    ensures
        (ip_hdr { saddr: x, ..h }).saddr == x,
        crate::pkt::read_be32((ip_hdr { saddr: x, ..h }).wire(), 12) == x,
{
    let w = (ip_hdr { saddr: x, ..h }).wire();
    assert(w[12] == spec_be32(x)[0] && w[13] == spec_be32(x)[1] && w[14] == spec_be32(x)[2] && w[15]
        == spec_be32(x)[3]);
    crate::pkt::lemma_be32_roundtrip(x);
}

/// A TCP sequence number round-trips through its wire bytes.
pub proof fn lemma_tcp_seq_roundtrip(h: tcp_hdr, x: u32)
    ensures
        (tcp_hdr { seq: x, ..h }).seq == x,
        crate::pkt::read_be32((tcp_hdr { seq: x, ..h }).wire(), 4) == x,
{
    let w = (tcp_hdr { seq: x, ..h }).wire();
    assert(w[4] == spec_be32(x)[0] && w[5] == spec_be32(x)[1] && w[6] == spec_be32(x)[2] && w[7]
        == spec_be32(x)[3]);
    crate::pkt::lemma_be32_roundtrip(x);
}

/// A UDP length round-trips through its wire bytes.
pub proof fn lemma_udp_len_roundtrip(h: udp_hdr, x: u16)
    ensures
        (udp_hdr { len: x, ..h }).len == x,
        crate::pkt::read_be16((udp_hdr { len: x, ..h }).wire(), 4) == x,
{
    let w = (udp_hdr { len: x, ..h }).wire();
    assert(w[4] == spec_be16(x)[0] && w[5] == spec_be16(x)[1]);
    crate::pkt::lemma_be16_roundtrip(x);
}

// ---------------------------------------------------------------------------
// TCP header.
// ---------------------------------------------------------------------------
pub const TCP_FIN: u8 = 0x01;
pub const TCP_SYN: u8 = 0x02;
pub const TCP_RST: u8 = 0x04;
pub const TCP_PSH: u8 = 0x08;
pub const TCP_ACK: u8 = 0x10;
pub const TCP_URG: u8 = 0x20;
pub const TCP_ECE: u8 = 0x40;
pub const TCP_CWR: u8 = 0x80;

/// The 20-byte TCP header, host-order fields.
#[derive(Debug, Copy, Clone, PartialEq, Eq, Structural)]
pub struct tcp_hdr {
    pub sport: u16,
    pub dport: u16,
    pub seq: u32,
    pub ack: u32,
    pub doff: u8,
    pub flags: u8,
    pub win: u16,
    pub csum: u16,
    pub urp: u16,
}

impl Serialize for tcp_hdr {
    open spec fn wire(&self) -> Seq<u8> {
        spec_be16(self.sport) + spec_be16(self.dport) + spec_be32(self.seq) + spec_be32(self.ack)
            + seq![self.doff, self.flags] + spec_be16(self.win) + spec_be16(self.csum) + spec_be16(
            self.urp,
        )
    }

    fn write_bytes(&self) -> (r: Vec<u8>)
        ensures
            r@ == self.wire(),
    {
        let mut v: Vec<u8> = Vec::new();
        put_be16(&mut v, self.sport);
        put_be16(&mut v, self.dport);
        put_be32(&mut v, self.seq);
        put_be32(&mut v, self.ack);
        put_u8(&mut v, self.doff);
        put_u8(&mut v, self.flags);
        put_be16(&mut v, self.win);
        put_be16(&mut v, self.csum);
        put_be16(&mut v, self.urp);
        assert(v@ =~= self.wire());
        v
    }
}

impl Default for tcp_hdr {
    /// Data offset of five words and a wide-open window.
    fn default() -> (r: Self)
        ensures
            r == tcp_hdr::default_spec(),
    {
        tcp_hdr {
            sport: 0,
            dport: 0,
            seq: 0,
            ack: 0,
            doff: 0x50,
            flags: 0,
            win: 0xffff,
            csum: 0,
            urp: 0,
        }
    }
}

impl tcp_hdr {
    pub open spec fn size_of() -> usize {
        20
    }

    pub open spec fn default_spec() -> tcp_hdr {
        tcp_hdr {
            sport: 0,
            dport: 0,
            seq: 0,
            ack: 0,
            doff: 0x50,
            flags: 0,
            win: 0xffff,
            csum: 0,
            urp: 0,
        }
    }

    pub open spec fn zero_csum(self) -> tcp_hdr {
        tcp_hdr { csum: 0, ..self }
    }

    pub fn new(sport: u16, dport: u16) -> (r: tcp_hdr)
        ensures
            r == (tcp_hdr { sport, dport, ..tcp_hdr::default_spec() }),
    {
        tcp_hdr { sport, dport, ..Default::default() }
    }

    /// Reset the data offset and window to their defaults.
    pub fn init(&mut self)
        ensures
            *final(self) == (tcp_hdr { doff: 0x50, win: 0xffff, ..*old(self) }),
    {
        self.doff = 0x50;
        self.win = 0xffff;
    }

    pub fn set_sport(&mut self, sport: u16)
        ensures
            *final(self) == (tcp_hdr { sport, ..*old(self) }),
    {
        self.sport = sport;
    }

    pub fn set_dport(&mut self, dport: u16)
        ensures
            *final(self) == (tcp_hdr { dport, ..*old(self) }),
    {
        self.dport = dport;
    }

    pub fn set_seq(&mut self, seq: u32)
        ensures
            *final(self) == (tcp_hdr { seq, ..*old(self) }),
    {
        self.seq = seq;
    }

    /// Store the acknowledgment number and raise the ACK flag.
    pub fn set_ack(&mut self, ack: u32)
        ensures
            *final(self) == (tcp_hdr { ack, flags: (old(self).flags | TCP_ACK) as u8, ..*old(self) }),
    {
        self.ack = ack;
        self.flags = self.flags | TCP_ACK;
    }

    pub fn set_syn(&mut self)
        ensures
            *final(self) == (tcp_hdr { flags: (old(self).flags | TCP_SYN) as u8, ..*old(self) }),
    {
        self.flags = self.flags | TCP_SYN;
    }

    pub fn set_push(&mut self)
        ensures
            *final(self) == (tcp_hdr { flags: (old(self).flags | TCP_PSH) as u8, ..*old(self) }),
    {
        self.flags = self.flags | TCP_PSH;
    }

    pub fn set_fin(&mut self)
        ensures
            *final(self) == (tcp_hdr { flags: (old(self).flags | TCP_FIN) as u8, ..*old(self) }),
    {
        self.flags = self.flags | TCP_FIN;
    }

    pub fn set_rst(&mut self)
        ensures
            *final(self) == (tcp_hdr { flags: (old(self).flags | TCP_RST) as u8, ..*old(self) }),
    {
        self.flags = self.flags | TCP_RST;
    }

    pub fn set_win(&mut self, win: u16)
        ensures
            *final(self) == (tcp_hdr { win, ..*old(self) }),
    {
        self.win = win;
    }

    pub fn set_csum(&mut self, csum: u16)
        ensures
            *final(self) == (tcp_hdr { csum, ..*old(self) }),
    {
        self.csum = csum;
    }

    pub fn set_urp(&mut self, urp: u16)
        ensures
            *final(self) == (tcp_hdr { urp, ..*old(self) }),
    {
        self.urp = urp;
    }
}

// ---------------------------------------------------------------------------
// UDP header.
// ---------------------------------------------------------------------------
/// The 8-byte UDP header, host-order fields.
#[derive(Debug, Copy, Clone, PartialEq, Eq, Structural)]
pub struct udp_hdr {
    pub sport: u16,
    pub dport: u16,
    pub len: u16,
    pub csum: u16,
}

impl Serialize for udp_hdr {
    open spec fn wire(&self) -> Seq<u8> {
        spec_be16(self.sport) + spec_be16(self.dport) + spec_be16(self.len) + spec_be16(self.csum)
    }

    fn write_bytes(&self) -> (r: Vec<u8>)
        ensures
            r@ == self.wire(),
    {
        let mut v: Vec<u8> = Vec::new();
        put_be16(&mut v, self.sport);
        put_be16(&mut v, self.dport);
        put_be16(&mut v, self.len);
        put_be16(&mut v, self.csum);
        assert(v@ =~= self.wire());
        v
    }
}

impl Default for udp_hdr {
    /// Length covers the bare header.
    fn default() -> (r: Self)
        ensures
            r == (udp_hdr { sport: 0, dport: 0, len: 8, csum: 0 }),
    {
        udp_hdr { sport: 0, dport: 0, len: 8, csum: 0 }
    }
}

impl udp_hdr {
    pub open spec fn size_of() -> usize {
        8
    }

    pub open spec fn zero_csum(self) -> udp_hdr {
        udp_hdr { csum: 0, ..self }
    }

    pub fn set_sport(&mut self, sport: u16)
        ensures
            *final(self) == (udp_hdr { sport, ..*old(self) }),
    {
        self.sport = sport;
    }

    pub fn set_dport(&mut self, dport: u16)
        ensures
            *final(self) == (udp_hdr { dport, ..*old(self) }),
    {
        self.dport = dport;
    }

    pub fn set_len(&mut self, len: u16)
        ensures
            *final(self) == (udp_hdr { len, ..*old(self) }),
    {
        self.len = len;
    }

    pub fn get_len(&self) -> (r: u16)
        ensures
            r == self.len,
    {
        self.len
    }

    pub fn add_len(&mut self, more: u16)
        requires
            old(self).len + more <= 0xffff,
        ensures
            *final(self) == (udp_hdr { len: (old(self).len + more) as u16, ..*old(self) }),
    {
        self.len = self.len + more;
    }

    pub fn set_csum(&mut self, csum: u16)
        ensures
            *final(self) == (udp_hdr { csum, ..*old(self) }),
    {
        self.csum = csum;
    }
}

// ---------------------------------------------------------------------------
// ICMP headers.
// ---------------------------------------------------------------------------
pub const ICMP_ECHOREPLY: u8 = 0;
pub const ICMP_DEST_UNREACH: u8 = 3;
pub const ICMP_SOURCE_QUENCH: u8 = 4;
pub const ICMP_REDIRECT: u8 = 5;
pub const ICMP_ECHO: u8 = 8;
pub const ICMP_TIME_EXCEEDED: u8 = 11;
pub const ICMP_PARAMETERPROB: u8 = 12;
pub const ICMP_TIMESTAMP: u8 = 13;
pub const ICMP_TIMESTAMPREPLY: u8 = 14;
pub const ICMP_INFO_REQUEST: u8 = 15;
pub const ICMP_INFO_REPLY: u8 = 16;
pub const ICMP_ADDRESS: u8 = 17;
pub const ICMP_ADDRESSREPLY: u8 = 18;

pub const ICMP_NET_UNREACH: u8 = 0;
pub const ICMP_HOST_UNREACH: u8 = 1;
pub const ICMP_PROT_UNREACH: u8 = 2;
pub const ICMP_PORT_UNREACH: u8 = 3;
pub const ICMP_FRAG_NEEDED: u8 = 4;
pub const ICMP_SR_FAILED: u8 = 5;
pub const ICMP_NET_UNKNOWN: u8 = 7;
pub const ICMP_HOST_UNKNOWN: u8 = 8;
pub const ICMP_NET_ANO: u8 = 9;
pub const ICMP_HOST_ANO: u8 = 10;
pub const ICMP_NET_UNR_TOS: u8 = 11;
pub const ICMP_HOST_UNR_TOS: u8 = 12;
pub const ICMP_PKT_FILTERED: u8 = 13;
pub const ICMP_PREC_VIOLATION: u8 = 14;
pub const ICMP_PREC_CUTOFF: u8 = 15;

/// The 4-byte ICMP header.
#[derive(Debug, Copy, Clone, PartialEq, Eq, Structural)]
pub struct icmp_hdr {
    pub typ: u8,
    pub code: u8,
    pub csum: u16,
}

impl Serialize for icmp_hdr {
    open spec fn wire(&self) -> Seq<u8> {
        seq![self.typ, self.code] + spec_be16(self.csum)
    }

    fn write_bytes(&self) -> (r: Vec<u8>)
        ensures
            r@ == self.wire(),
    {
        let mut v: Vec<u8> = Vec::new();
        put_u8(&mut v, self.typ);
        put_u8(&mut v, self.code);
        put_be16(&mut v, self.csum);
        assert(v@ =~= self.wire());
        v
    }
}

impl Default for icmp_hdr {
    fn default() -> (r: Self)
        ensures
            r == (icmp_hdr { typ: 0, code: 0, csum: 0 }),
    {
        icmp_hdr { typ: 0, code: 0, csum: 0 }
    }
}

impl icmp_hdr {
    pub open spec fn size_of() -> usize {
        4
    }

    pub fn set_typ(&mut self, typ: u8)
        ensures
            *final(self) == (icmp_hdr { typ, ..*old(self) }),
    {
        self.typ = typ;
    }

    pub fn set_code(&mut self, code: u8)
        ensures
            *final(self) == (icmp_hdr { code, ..*old(self) }),
    {
        self.code = code;
    }

    pub fn set_csum(&mut self, csum: u16)
        ensures
            *final(self) == (icmp_hdr { csum, ..*old(self) }),
    {
        self.csum = csum;
    }
}

/// The 4-byte echo-request/reply extension of the ICMP header.
#[derive(Debug, Copy, Clone, PartialEq, Eq, Structural)]
pub struct icmp_echo_hdr {
    pub id: u16,
    pub seq: u16,
}

impl Serialize for icmp_echo_hdr {
    open spec fn wire(&self) -> Seq<u8> {
        spec_be16(self.id) + spec_be16(self.seq)
    }

    fn write_bytes(&self) -> (r: Vec<u8>)
        ensures
            r@ == self.wire(),
    {
        let mut v: Vec<u8> = Vec::new();
        put_be16(&mut v, self.id);
        put_be16(&mut v, self.seq);
        assert(v@ =~= self.wire());
        v
    }
}

impl Default for icmp_echo_hdr {
    fn default() -> (r: Self)
        ensures
            r == (icmp_echo_hdr { id: 0, seq: 0 }),
    {
        icmp_echo_hdr { id: 0, seq: 0 }
    }
}

impl icmp_echo_hdr {
    pub open spec fn size_of() -> usize {
        4
    }

    pub fn set_id(&mut self, id: u16)
        ensures
            *final(self) == (icmp_echo_hdr { id, ..*old(self) }),
    {
        self.id = id;
    }

    pub fn set_seq(&mut self, seq: u16)
        ensures
            *final(self) == (icmp_echo_hdr { seq, ..*old(self) }),
    {
        self.seq = seq;
    }
}

// ---------------------------------------------------------------------------
// Transport pseudo-header.
// ---------------------------------------------------------------------------
/// The 12-byte pseudo-header summed into TCP and UDP checksums.
#[derive(Debug, Copy, Clone, PartialEq, Eq, Structural)]
pub struct ip_pseudo_hdr {
    pub src: u32,
    pub dst: u32,
    pub proto: u8,
    pub len: u16,
}

impl Serialize for ip_pseudo_hdr {
    open spec fn wire(&self) -> Seq<u8> {
        spec_be32(self.src) + spec_be32(self.dst) + seq![0u8, self.proto] + spec_be16(self.len)
    }

    fn write_bytes(&self) -> (r: Vec<u8>)
        ensures
            r@ == self.wire(),
    {
        let mut v: Vec<u8> = Vec::new();
        put_be32(&mut v, self.src);
        put_be32(&mut v, self.dst);
        put_u8(&mut v, 0);
        put_u8(&mut v, self.proto);
        put_be16(&mut v, self.len);
        assert(v@ =~= self.wire());
        v
    }
}

impl ip_pseudo_hdr {
    pub open spec fn size_of() -> usize {
        12
    }

    pub fn new(src: Ip4Addr, dst: Ip4Addr, proto: u8, len: u16) -> (r: ip_pseudo_hdr)
        ensures
            r == (ip_pseudo_hdr { src: src.bits, dst: dst.bits, proto, len }),
    {
        ip_pseudo_hdr { src: src.bits, dst: dst.bits, proto, len }
    }

    pub fn tcp(src: Ip4Addr, dst: Ip4Addr, len: u16) -> (r: ip_pseudo_hdr)
        ensures
            r == (ip_pseudo_hdr { src: src.bits, dst: dst.bits, proto: PROTO_TCP, len }),
    {
        Self::new(src, dst, PROTO_TCP, len)
    }

    pub fn udp(src: Ip4Addr, dst: Ip4Addr, len: u16) -> (r: ip_pseudo_hdr)
        ensures
            r == (ip_pseudo_hdr { src: src.bits, dst: dst.bits, proto: PROTO_UDP, len }),
    {
        Self::new(src, dst, PROTO_UDP, len)
    }

    /// This pseudo-header's contribution to a transport checksum.
    pub fn csum_partial(self) -> (r: u32)
        ensures
            r == csum_partial_spec(self.wire()),
    {
        let bytes = self.write_bytes();
        proof {
            assert(self.wire().len() == 12);
        }
        ip_csum_partial(bytes.as_slice())
    }
}

} // verus!
