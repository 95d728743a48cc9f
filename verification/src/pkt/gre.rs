#![allow(non_camel_case_types)]

use vstd::prelude::*;
use crate::pkt::{put_be16, put_be32, spec_be16, spec_be32, Serialize};

verus! {

pub const GRE_VERSION_GRE: u8 = 0;
pub const GRE_VERSION_ENHANCED: u8 = 1;

/// Checksum present.
pub const GRE_C: u16 = 0x8000;

/// Routing present.
pub const GRE_R: u16 = 0x4000;

/// Key present.
pub const GRE_K: u16 = 0x2000;

/// Sequence present.
pub const GRE_S: u16 = 0x1000;

/// Source-route present.
pub const GRE_SR: u16 = 0x0800;

/// Recursion control.
pub const GRE_RECUR: u16 = 0x0700;

/// Acknowledgment present.
pub const GRE_A: u16 = 0x0080;

/// Flag bits.
pub const GRE_FLAGS: u16 = 0x0078;

/// Version.
pub const GRE_V: u16 = 0x0007;

/// The abstract GRE flag set, packed into the header's first word.
#[derive(Debug, Copy, Clone, Eq, PartialEq, Structural)]
pub struct GreFlags {
    pub c: bool,
    pub r: bool,
    pub k: bool,
    pub s: bool,
    pub sr: bool,
    pub a: bool,
    pub recur: u8,
    pub flags: u8,
    pub v: u8,
}

/// The packed flags word: C(15), R(14), K(13), S(12), s(11),
/// recur(10:8), A(7), flags(6:3), V(2:0).
pub open spec fn gre_flags_word(f: GreFlags) -> u16 {
    (((f.v as u16) & GRE_V) | (((f.recur as u16) & 0x7) << 8) | (((f.flags as u16) & 0xf) << 3) | (
    if f.c {
        GRE_C
    } else {
        0
    }) | (if f.r {
        GRE_R
    } else {
        0
    }) | (if f.k {
        GRE_K
    } else {
        0
    }) | (if f.s {
        GRE_S
    } else {
        0
    }) | (if f.sr {
        GRE_SR
    } else {
        0
    }) | (if f.a {
        GRE_A
    } else {
        0
    })) as u16
}

impl Default for GreFlags {
    fn default() -> (r: Self)
        ensures
            r == (GreFlags {
                c: false,
                r: false,
                k: false,
                s: false,
                sr: false,
                a: false,
                recur: 0,
                flags: 0,
                v: 0,
            }),
    {
        GreFlags { c: false, r: false, k: false, s: false, sr: false, a: false, recur: 0, flags: 0, v: 0 }
    }
}

impl GreFlags {
    pub fn csum(self, c: bool) -> (r: GreFlags)
        ensures
            r == (GreFlags { c, ..self }),
    {
        GreFlags { c, ..self }
    }

    pub fn routing(self, r: bool) -> (res: GreFlags)
        ensures
            res == (GreFlags { r, ..self }),
    {
        GreFlags { r, ..self }
    }

    pub fn key(self, k: bool) -> (r: GreFlags)
        ensures
            r == (GreFlags { k, ..self }),
    {
        GreFlags { k, ..self }
    }

    pub fn seq(self, s: bool) -> (r: GreFlags)
        ensures
            r == (GreFlags { s, ..self }),
    {
        GreFlags { s, ..self }
    }

    pub fn source_routing(self, sr: bool) -> (r: GreFlags)
        ensures
            r == (GreFlags { sr, ..self }),
    {
        GreFlags { sr, ..self }
    }

    pub fn recursion(self, recur: u8) -> (r: GreFlags)
        ensures
            r == (GreFlags { recur, ..self }),
    {
        GreFlags { recur, ..self }
    }

    pub fn ack(self, a: bool) -> (r: GreFlags)
        ensures
            r == (GreFlags { a, ..self }),
    {
        GreFlags { a, ..self }
    }

    pub fn flags(self, flags: u8) -> (r: GreFlags)
        ensures
            r == (GreFlags { flags, ..self }),
    {
        GreFlags { flags, ..self }
    }

    pub fn ver(self, v: u8) -> (r: GreFlags)
        ensures
            r == (GreFlags { v, ..self }),
    {
        GreFlags { v, ..self }
    }

    /// Pack into the header's 16-bit flags word.
    pub fn to_word(self) -> (r: u16)
        ensures
            r == gre_flags_word(self),
    {
        ((self.v as u16) & GRE_V) | (((self.recur as u16) & 0x7) << 8) | (((self.flags as u16)
            & 0xf) << 3) | (if self.c {
            GRE_C
        } else {
            0
        }) | (if self.r {
            GRE_R
        } else {
            0
        }) | (if self.k {
            GRE_K
        } else {
            0
        }) | (if self.s {
            GRE_S
        } else {
            0
        }) | (if self.sr {
            GRE_SR
        } else {
            0
        }) | (if self.a {
            GRE_A
        } else {
            0
        })
    }
}

/// The 4-byte base GRE header, host-order fields.
#[derive(Default, Debug, Copy, Clone, PartialEq, Eq, Structural)]
pub struct gre_hdr {
    pub flags: u16,
    pub proto: u16,
}

impl Serialize for gre_hdr {
    open spec fn wire(&self) -> Seq<u8> {
        spec_be16(self.flags) + spec_be16(self.proto)
    }

    fn write_bytes(&self) -> (r: Vec<u8>)
        ensures
            r@ == self.wire(),
    {
        let mut v: Vec<u8> = Vec::new();
        put_be16(&mut v, self.flags);
        put_be16(&mut v, self.proto);
        assert(v@ =~= self.wire());
        v
    }
}

impl gre_hdr {
    pub open spec fn size_of() -> usize {
        4
    }

    pub fn new(flags: GreFlags, proto: u16) -> (r: gre_hdr)
        ensures
            r == (gre_hdr { flags: gre_flags_word(flags), proto }),
    {
        gre_hdr { flags: flags.to_word(), proto }
    }

    pub fn init(&mut self)
        ensures
            *final(self) == (gre_hdr { flags: 0, proto: 0 }),
    {
        self.flags = 0;
        self.proto = 0;
    }

    pub fn flags(&mut self, flags: u16)
        ensures
            *final(self) == (gre_hdr { flags, ..*old(self) }),
    {
        self.flags = flags;
    }

    pub fn proto(&mut self, proto: u16)
        ensures
            *final(self) == (gre_hdr { proto, ..*old(self) }),
    {
        self.proto = proto;
    }

    pub fn get_flags(&self) -> (r: u16)
        ensures
            r == self.flags,
    {
        self.flags
    }

    pub fn get_csum(&self) -> (r: bool)
        ensures
            r == ((self.flags & GRE_C) != 0),
    {
        (self.flags & GRE_C) != 0
    }

    pub fn get_key(&self) -> (r: bool)
        ensures
            r == ((self.flags & GRE_K) != 0),
    {
        (self.flags & GRE_K) != 0
    }

    pub fn get_seq(&self) -> (r: bool)
        ensures
            r == ((self.flags & GRE_S) != 0),
    {
        (self.flags & GRE_S) != 0
    }

    pub fn get_ver(&self) -> (r: u8)
        ensures
            r == (self.flags & GRE_V) as u8,
    {
        (self.flags & GRE_V) as u8
    }
}

/// The optional GRE checksum extension.
#[derive(Debug, Copy, Clone, Default, PartialEq, Eq, Structural)]
pub struct gre_hdr_sum {
    pub csum: u16,
    pub rsvd: u16,
}

impl Serialize for gre_hdr_sum {
    open spec fn wire(&self) -> Seq<u8> {
        spec_be16(self.csum) + spec_be16(self.rsvd)
    }

    fn write_bytes(&self) -> (r: Vec<u8>)
        ensures
            r@ == self.wire(),
    {
        let mut v: Vec<u8> = Vec::new();
        put_be16(&mut v, self.csum);
        put_be16(&mut v, self.rsvd);
        assert(v@ =~= self.wire());
        v
    }
}

impl gre_hdr_sum {
    pub fn csum(self, csum: u16) -> (r: gre_hdr_sum)
        ensures
            r == (gre_hdr_sum { csum, ..self }),
    {
        gre_hdr_sum { csum, ..self }
    }

    pub fn rsvd(self, rsvd: u16) -> (r: gre_hdr_sum)
        ensures
            r == (gre_hdr_sum { rsvd, ..self }),
    {
        gre_hdr_sum { rsvd, ..self }
    }
}

/// The optional GRE key extension.
#[derive(Debug, Copy, Clone, Default, PartialEq, Eq, Structural)]
pub struct gre_hdr_key {
    pub key: u32,
}

impl Serialize for gre_hdr_key {
    open spec fn wire(&self) -> Seq<u8> {
        spec_be32(self.key)
    }

    fn write_bytes(&self) -> (r: Vec<u8>)
        ensures
            r@ == self.wire(),
    {
        let mut v: Vec<u8> = Vec::new();
        put_be32(&mut v, self.key);
        assert(v@ =~= self.wire());
        v
    }
}

impl gre_hdr_key {
    pub fn key(self, key: u32) -> (r: gre_hdr_key)
        ensures
            r == (gre_hdr_key { key }),
    {
        gre_hdr_key { key }
    }
}

/// The optional GRE sequence-number extension.
#[derive(Debug, Copy, Clone, Default, PartialEq, Eq, Structural)]
pub struct gre_hdr_seq {
    pub seq: u32,
}

impl Serialize for gre_hdr_seq {
    open spec fn wire(&self) -> Seq<u8> {
        spec_be32(self.seq)
    }

    fn write_bytes(&self) -> (r: Vec<u8>)
        ensures
            r@ == self.wire(),
    {
        let mut v: Vec<u8> = Vec::new();
        put_be32(&mut v, self.seq);
        assert(v@ =~= self.wire());
        v
    }
}

impl gre_hdr_seq {
    pub fn seq(self, seq: u32) -> (r: gre_hdr_seq)
        ensures
            r == (gre_hdr_seq { seq }),
    {
        gre_hdr_seq { seq }
    }
}

} // verus!
