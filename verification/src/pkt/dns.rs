#![allow(non_camel_case_types)]

use vstd::prelude::*;
use crate::pkt::{put_be16, spec_be16, Serialize};

verus! {

pub const DNS_OPCODE_QUERY: u8 = 0;
pub const DNS_OPCODE_IQUERY: u8 = 1;
pub const DNS_OPCODE_STATUS: u8 = 2;
pub const DNS_OPCODE_NOTIFY: u8 = 4;
pub const DNS_OPCODE_UPDATE: u8 = 5;
pub const DNS_OPCODE_DSO: u8 = 6;

pub const DNS_RCODE_NOERROR: u8 = 0;
pub const DNS_RCODE_FORMERR: u8 = 1;
pub const DNS_RCODE_SERVFAIL: u8 = 2;
pub const DNS_RCODE_NXDOMAIN: u8 = 3;
pub const DNS_RCODE_NOTIMP: u8 = 4;
pub const DNS_RCODE_REFUSED: u8 = 5;
pub const DNS_RCODE_YXDOMAIN: u8 = 6;
pub const DNS_RCODE_YXRRSET: u8 = 7;
pub const DNS_RCODE_NXRRSET: u8 = 8;
pub const DNS_RCODE_NOTAUTH: u8 = 9;
pub const DNS_RCODE_NOTZONE: u8 = 10;

pub const DNS_TYPE_A: u16 = 1;
pub const DNS_TYPE_NS: u16 = 2;
pub const DNS_TYPE_CNAME: u16 = 5;
pub const DNS_TYPE_SOA: u16 = 6;
pub const DNS_TYPE_PTR: u16 = 12;
pub const DNS_TYPE_MX: u16 = 15;
pub const DNS_TYPE_TXT: u16 = 16;
pub const DNS_TYPE_AAAA: u16 = 28;
pub const DNS_TYPE_SRV: u16 = 33;
pub const DNS_TYPE_OPT: u16 = 41;
pub const DNS_TYPE_AXFR: u16 = 252;
pub const DNS_TYPE_ALL: u16 = 255;

pub const DNS_CLASS_IN: u16 = 1;
pub const DNS_CLASS_CS: u16 = 2;
pub const DNS_CLASS_CH: u16 = 3;
pub const DNS_CLASS_HS: u16 = 4;
pub const DNS_CLASS_ANY: u16 = 255;

/// The index of the first dot in `s`, or `s.len()` if there is none.
pub open spec fn find_dot(s: Seq<u8>) -> int
    decreases s.len(),
{
    if s.len() == 0 {
        0
    } else if s[0] == 46 {
        0
    } else {
        1 + find_dot(s.skip(1))
    }
}

pub proof fn lemma_find_dot(s: Seq<u8>)
    ensures
        0 <= find_dot(s) <= s.len(),
        find_dot(s) < s.len() ==> s[find_dot(s)] == 46,
        forall|j: int| 0 <= j < find_dot(s) ==> s[j] != 46,
    decreases s.len(),
{
    if s.len() == 0 {
    } else if s[0] == 46 {
    } else {
        lemma_find_dot(s.skip(1));
        assert forall|j: int| 0 <= j < find_dot(s) implies s[j] != 46 by {
            if j > 0 {
                assert(s.skip(1)[j - 1] == s[j]);
            }
        }
        if find_dot(s) < s.len() {
            assert(s.skip(1)[find_dot(s) - 1] == s[find_dot(s)]);
        }
    }
}

/// A dotted name as length-prefixed labels, without the terminator.
pub open spec fn dns_labels(s: Seq<u8>) -> Seq<u8>
    decreases s.len(),
{
    let i = find_dot(s);
    if 0 <= i && i < s.len() {
        seq![(i % 256) as u8] + s.take(i) + dns_labels(s.skip(i + 1))
    } else {
        seq![(s.len() % 256) as u8] + s
    }
}

/// The full encoding of a dotted name: labels then the root label.
pub open spec fn dns_name_spec(s: Seq<u8>) -> Seq<u8> {
    dns_labels(s) + seq![0u8]
}

/// A DNS name under construction: length-prefixed labels, optionally
/// terminated by the zero-length root label or by a compression
/// pointer.
#[derive(Debug, Clone, Default)]
pub struct DnsName {
    pub bytes: Vec<u8>,
}

impl PartialEq for DnsName {
    fn eq(&self, other: &Self) -> (r: bool) {
        crate::strbuf::bytes_eq(self.bytes.as_slice(), other.bytes.as_slice())
    }
}

impl vstd::std_specs::cmp::PartialEqSpecImpl for DnsName {
    open spec fn obeys_eq_spec() -> bool {
        true
    }

    open spec fn eq_spec(&self, other: &DnsName) -> bool {
        self.bytes@ == other.bytes@
    }
}

impl Eq for DnsName {}

impl DnsName {
    pub open spec fn view(&self) -> Seq<u8> {
        self.bytes@
    }

    /// An empty name under construction.
    pub fn new() -> (r: DnsName)
        ensures
            r@ == Seq::<u8>::empty(),
    {
        let bytes: Vec<u8> = Vec::new();
        assert(bytes@ =~= Seq::<u8>::empty());
        DnsName { bytes }
    }

    /// The root name: a single zero byte.
    pub fn root() -> (r: DnsName)
        ensures
            r@ == seq![0u8],
    {
        let mut bytes: Vec<u8> = Vec::new();
        bytes.push(0);
        assert(bytes@ =~= seq![0u8]);
        DnsName { bytes }
    }

    /// A compression pointer: `0xC000 | offset`, big-endian.
    pub fn compression_pointer(offset: u16) -> (r: DnsName)
        ensures
            r@ == spec_be16(offset | 0xc000),
    {
        let mut bytes: Vec<u8> = Vec::new();
        put_be16(&mut bytes, offset | 0xc000);
        DnsName { bytes }
    }

    /// Append one label: its length, then its bytes.
    pub fn push(&mut self, label: &[u8])
        requires
            label@.len() <= 255,
        ensures
            final(self)@ == old(self)@ + seq![label@.len() as u8] + label@,
    {
        let ghost b0 = self.bytes@;
        self.bytes.push(label.len() as u8);
        crate::pkt::put_bytes(&mut self.bytes, label);
        assert(self.bytes@ =~= b0 + seq![label@.len() as u8] + label@);
    }

    /// Append raw bytes with no length prefix.
    pub fn push_raw(&mut self, bytes: &[u8])
        ensures
            final(self)@ == old(self)@ + bytes@,
    {
        crate::pkt::put_bytes(&mut self.bytes, bytes);
    }

    /// Terminate the name with the root label.
    pub fn finish(&mut self)
        ensures
            final(self)@ == old(self)@ + seq![0u8],
    {
        let ghost b0 = self.bytes@;
        self.bytes.push(0);
        assert(self.bytes@ =~= b0 + seq![0u8]);
    }

    /// Parse a dotted name into its length-prefixed encoding, with the
    /// terminating root label.
    pub fn from(name: &[u8]) -> (r: DnsName)
        ensures
            r@ == dns_name_spec(name@),
    {
        let mut n = DnsName::new();
        let mut p: usize = 0;
        let ghost s = name@;
        proof {
            assert(s.skip(0) =~= s);
            assert(n@ + dns_labels(s.skip(0)) =~= dns_labels(s));
        }
        loop
            invariant
                0 <= p <= s.len(),
                s == name@,
                n@ + dns_labels(s.skip(p as int)) == dns_labels(s),
            decreases s.len() - p,
        {
            // scan for the next dot
            let mut j: usize = p;
            while j < name.len() && name[j] != 46
                invariant
                    p <= j <= s.len(),
                    s == name@,
                    forall|k: int| p <= k < j ==> s[k] != 46,
                decreases s.len() - j,
            {
                j += 1;
            }
            let ghost rest = s.skip(p as int);
            proof {
                lemma_find_dot(rest);
                // the scan found exactly the first dot of the remainder
                if j < s.len() {
                    assert(rest[j - p] == s[j as int]);
                    assert forall|k: int| 0 <= k < j - p implies rest[k] != 46 by {
                        assert(rest[k] == s[p + k]);
                    }
                    assert(find_dot(rest) == j - p) by {
                        if find_dot(rest) < j - p {
                            assert(rest[find_dot(rest)] == 46);
                        }
                        if find_dot(rest) > j - p {
                            assert(rest[j - p] != 46);
                        }
                    }
                } else {
                    assert forall|k: int| 0 <= k < rest.len() implies rest[k] != 46 by {
                        assert(rest[k] == s[p + k]);
                    }
                    assert(find_dot(rest) == rest.len()) by {
                        if find_dot(rest) < rest.len() {
                            assert(rest[find_dot(rest)] == 46);
                        }
                    }
                }
            }
            let label_len = j - p;
            let ghost n0 = n@;
            if label_len > 255 {
                // the length byte wraps, as an 8-bit length must
                let mut i: usize = p;
                n.bytes.push((label_len % 256) as u8);
                while i < j
                    invariant
                        p <= i <= j <= s.len(),
                        s == name@,
                        n@ =~= n0 + seq![((j - p) % 256) as u8] + s.subrange(p as int, i as int),
                    decreases j - i,
                {
                    let ghost nb = n@;
                    n.bytes.push(name[i]);
                    proof {
                        assert(n@ =~= n0 + seq![((j - p) % 256) as u8] + s.subrange(
                            p as int,
                            i + 1,
                        ));
                    }
                    i += 1;
                }
            } else {
                let label = vstd::slice::slice_subrange(name, p, j);
                n.push(label);
            }
            proof {
                let rest = s.skip(p as int);
                assert(s.subrange(p as int, j as int) =~= rest.take(j - p));
                assert(n@ =~= n0 + seq![((j - p) % 256) as u8] + rest.take(j - p));
            }
            if j < name.len() {
                proof {
                    let rest = s.skip(p as int);
                    assert(rest.skip(j - p + 1) =~= s.skip(j + 1));
                    assert(dns_labels(rest) == seq![((j - p) % 256) as u8] + rest.take(j - p)
                        + dns_labels(s.skip(j + 1)));
                    assert(n@ + dns_labels(s.skip(j + 1)) =~= dns_labels(s));
                }
                p = j + 1;
            } else {
                proof {
                    let rest = s.skip(p as int);
                    assert(rest.take(j - p) =~= rest);
                    assert(dns_labels(rest) == seq![((j - p) % 256) as u8] + rest);
                    assert(n@ =~= dns_labels(s));
                }
                n.finish();
                proof {
                    assert(n@ =~= dns_name_spec(s));
                }
                return n;
            }
        }
    }

    pub fn len(&self) -> (r: usize)
        ensures
            r == self@.len(),
    {
        self.bytes.len()
    }

    /// The encoded bytes.
    pub fn as_bytes(&self) -> (r: &[u8])
        ensures
            r@ == self@,
    {
        self.bytes.as_slice()
    }
}

/// How a 16-bit DNS flags word is packed: QR(15), opcode(14:11),
/// AA(10), TC(9), RD(8), RA(7), Z(6), AD(5), CD(4), rcode(3:0).
pub open spec fn dns_flags_word(f: DnsFlags) -> u16 {
    (((if f.response {
        0x8000u16
    } else {
        0
    }) | (((f.opcode as u16) & 0xf) << 11) | (if f.aa {
        0x0400u16
    } else {
        0
    }) | (if f.tc {
        0x0200u16
    } else {
        0
    }) | (if f.rd {
        0x0100u16
    } else {
        0
    }) | (if f.ra {
        0x0080u16
    } else {
        0
    }) | (if f.z {
        0x0040u16
    } else {
        0
    }) | (if f.ad {
        0x0020u16
    } else {
        0
    }) | (if f.cd {
        0x0010u16
    } else {
        0
    }) | ((f.rcode as u16) & 0xf)) as u16)
}

/// The unpacked fields of the DNS header's flags word.
#[derive(Debug, Copy, Clone, Default, PartialEq, Eq, Structural)]
pub struct DnsFlags {
    pub response: bool,
    pub opcode: u8,
    pub aa: bool,
    pub tc: bool,
    pub rd: bool,
    pub ra: bool,
    pub z: bool,
    pub ad: bool,
    pub cd: bool,
    pub rcode: u8,
}

impl DnsFlags {
    pub fn response(self, response: bool) -> (r: DnsFlags)
        ensures
            r == (DnsFlags { response, ..self }),
    {
        DnsFlags { response, ..self }
    }

    pub fn opcode(self, opcode: u8) -> (r: DnsFlags)
        ensures
            r == (DnsFlags { opcode, ..self }),
    {
        DnsFlags { opcode, ..self }
    }

    pub fn aa(self, aa: bool) -> (r: DnsFlags)
        ensures
            r == (DnsFlags { aa, ..self }),
    {
        DnsFlags { aa, ..self }
    }

    pub fn tc(self, tc: bool) -> (r: DnsFlags)
        ensures
            r == (DnsFlags { tc, ..self }),
    {
        DnsFlags { tc, ..self }
    }

    pub fn rd(self, rd: bool) -> (r: DnsFlags)
        ensures
            r == (DnsFlags { rd, ..self }),
    {
        DnsFlags { rd, ..self }
    }

    pub fn ra(self, ra: bool) -> (r: DnsFlags)
        ensures
            r == (DnsFlags { ra, ..self }),
    {
        DnsFlags { ra, ..self }
    }

    pub fn z(self, z: bool) -> (r: DnsFlags)
        ensures
            r == (DnsFlags { z, ..self }),
    {
        DnsFlags { z, ..self }
    }

    pub fn ad(self, ad: bool) -> (r: DnsFlags)
        ensures
            r == (DnsFlags { ad, ..self }),
    {
        DnsFlags { ad, ..self }
    }

    pub fn cd(self, cd: bool) -> (r: DnsFlags)
        ensures
            r == (DnsFlags { cd, ..self }),
    {
        DnsFlags { cd, ..self }
    }

    pub fn rcode(self, rcode: u8) -> (r: DnsFlags)
        ensures
            r == (DnsFlags { rcode, ..self }),
    {
        DnsFlags { rcode, ..self }
    }

    /// Pack into the header's 16-bit flags word.
    pub fn build(self) -> (r: u16)
        ensures
            r == dns_flags_word(self),
    {
        (if self.response {
            0x8000u16
        } else {
            0
        }) | (((self.opcode as u16) & 0xf) << 11) | (if self.aa {
            0x0400u16
        } else {
            0
        }) | (if self.tc {
            0x0200u16
        } else {
            0
        }) | (if self.rd {
            0x0100u16
        } else {
            0
        }) | (if self.ra {
            0x0080u16
        } else {
            0
        }) | (if self.z {
            0x0040u16
        } else {
            0
        }) | (if self.ad {
            0x0020u16
        } else {
            0
        }) | (if self.cd {
            0x0010u16
        } else {
            0
        }) | ((self.rcode as u16) & 0xf)
    }
}

/// The 12-byte DNS message header, host-order fields.
#[derive(Debug, Copy, Clone, Default, PartialEq, Eq, Structural)]
pub struct dns_hdr {
    pub id: u16,
    pub flags: u16,
    pub qdcount: u16,
    pub ancount: u16,
    pub nscount: u16,
    pub arcount: u16,
}

impl Serialize for dns_hdr {
    open spec fn wire(&self) -> Seq<u8> {
        spec_be16(self.id) + spec_be16(self.flags) + spec_be16(self.qdcount) + spec_be16(
            self.ancount,
        ) + spec_be16(self.nscount) + spec_be16(self.arcount)
    }

    fn write_bytes(&self) -> (r: Vec<u8>)
        ensures
            r@ == self.wire(),
    {
        let mut v: Vec<u8> = Vec::new();
        put_be16(&mut v, self.id);
        put_be16(&mut v, self.flags);
        put_be16(&mut v, self.qdcount);
        put_be16(&mut v, self.ancount);
        put_be16(&mut v, self.nscount);
        put_be16(&mut v, self.arcount);
        assert(v@ =~= self.wire());
        v
    }
}

impl dns_hdr {
    pub open spec fn size_of() -> usize {
        12
    }

    /// A zeroed header to fill in field by field.
    pub fn builder() -> (r: dns_hdr)
        ensures
            r == (dns_hdr { id: 0, flags: 0, qdcount: 0, ancount: 0, nscount: 0, arcount: 0 }),
    {
        dns_hdr { id: 0, flags: 0, qdcount: 0, ancount: 0, nscount: 0, arcount: 0 }
    }

    pub fn id(self, id: u16) -> (r: dns_hdr)
        ensures
            r == (dns_hdr { id, ..self }),
    {
        dns_hdr { id, ..self }
    }

    pub fn flags(self, flags: u16) -> (r: dns_hdr)
        ensures
            r == (dns_hdr { flags, ..self }),
    {
        dns_hdr { flags, ..self }
    }

    pub fn qdcount(self, qdcount: u16) -> (r: dns_hdr)
        ensures
            r == (dns_hdr { qdcount, ..self }),
    {
        dns_hdr { qdcount, ..self }
    }

    pub fn ancount(self, ancount: u16) -> (r: dns_hdr)
        ensures
            r == (dns_hdr { ancount, ..self }),
    {
        dns_hdr { ancount, ..self }
    }

    pub fn nscount(self, nscount: u16) -> (r: dns_hdr)
        ensures
            r == (dns_hdr { nscount, ..self }),
    {
        dns_hdr { nscount, ..self }
    }

    pub fn arcount(self, arcount: u16) -> (r: dns_hdr)
        ensures
            r == (dns_hdr { arcount, ..self }),
    {
        dns_hdr { arcount, ..self }
    }

    pub fn build(self) -> (r: dns_hdr)
        ensures
            r == self,
    {
        self
    }
}

} // verus!
