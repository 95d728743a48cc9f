#![allow(non_camel_case_types)]

use vstd::prelude::*;
use crate::pkt::{put_be32, spec_be32, Serialize};

verus! {

pub const ERSPAN2_MASK_VER: u32 = 0xf000_0000;
pub const ERSPAN2_MASK_VLAN: u32 = 0x0fff_0000;
pub const ERSPAN2_MASK_COS: u32 = 0x0000_e000;
pub const ERSPAN2_MASK_EN: u32 = 0x0000_1800;
pub const ERSPAN2_MASK_T: u32 = 0x0000_0400;
pub const ERSPAN2_MASK_SESS: u32 = 0x0000_03ff;
pub const ERSPAN2_MASK_RSVD: u32 = 0xfff0_0000;
pub const ERSPAN2_MASK_INDX: u32 = 0x000f_ffff;

pub const ERSPAN2_SHIFT_VER: u32 = 28;
pub const ERSPAN2_SHIFT_VLAN: u32 = 16;
pub const ERSPAN2_SHIFT_COS: u32 = 13;
pub const ERSPAN2_SHIFT_EN: u32 = 11;
pub const ERSPAN2_SHIFT_T: u32 = 10;
pub const ERSPAN2_SHIFT_RSVD: u32 = 20;

/// Version value for a type II header.
pub const ERSPAN2_VERSION: u8 = 1;

/// The trunk encapsulation type of the mirrored frame.
#[derive(Default, Debug, Copy, Clone, PartialEq, Eq, Structural)]
pub enum Encap {
    NoVlan,
    IslStripped,
    VlanStripped,
    #[default]
    TagPreserved,
}

impl Encap {
    /// The two-bit wire value of this encapsulation type.
    pub open spec fn spec_value(self) -> u32 {
        match self {
            Encap::NoVlan => 0,
            Encap::IslStripped => 1,
            Encap::VlanStripped => 2,
            Encap::TagPreserved => 3,
        }
    }

    pub fn value(self) -> (r: u32)
        ensures
            r == self.spec_value(),
    {
        match self {
            Encap::NoVlan => 0,
            Encap::IslStripped => 1,
            Encap::VlanStripped => 2,
            Encap::TagPreserved => 3,
        }
    }
}

/// The unpacked fields of an ERSPAN type II header.
#[derive(Debug, Copy, Clone, PartialEq, Eq, Structural)]
pub struct Erspan2 {
    pub ver: u8,
    pub vlan: u16,
    pub cos: u8,
    pub en: Encap,
    pub t: bool,
    pub sess_id: u16,
    pub rsvd: u16,
    pub index: u32,
}

impl Default for Erspan2 {
    fn default() -> (r: Self)
        ensures
            r == (Erspan2 {
                ver: ERSPAN2_VERSION,
                vlan: 0,
                cos: 0,
                en: Encap::TagPreserved,
                t: false,
                sess_id: 0,
                rsvd: 0,
                index: 0,
            }),
    {
        Erspan2 {
            ver: ERSPAN2_VERSION,
            vlan: 0,
            cos: 0,
            en: Encap::TagPreserved,
            t: false,
            sess_id: 0,
            rsvd: 0,
            index: 0,
        }
    }
}

/// The first packed word: ver(31:28), vlan(27:16), cos(15:13),
/// en(12:11), truncated(10), session id(9:0).
pub open spec fn erspan2_flags_word(e: Erspan2) -> u32 {
    ((e.sess_id as u32 & ERSPAN2_MASK_SESS) | (((if e.t {
        1u32
    } else {
        0u32
    }) << 10) & ERSPAN2_MASK_T) | ((e.spec_en_value() << 11) & ERSPAN2_MASK_EN) | (((e.cos as u32)
        << 13) & ERSPAN2_MASK_COS) | (((e.vlan as u32) << 16) & ERSPAN2_MASK_VLAN) | (((
    e.ver as u32) << 28) & ERSPAN2_MASK_VER)) as u32
}

/// The second packed word: rsvd(31:20), index(19:0).
pub open spec fn erspan2_index_word(e: Erspan2) -> u32 {
    ((e.index & ERSPAN2_MASK_INDX) | (((e.rsvd as u32) << 20) & ERSPAN2_MASK_RSVD)) as u32
}

impl Erspan2 {
    pub open spec fn spec_en_value(self) -> u32 {
        self.en.spec_value()
    }

    pub fn ver(self, ver: u8) -> (r: Erspan2)
        ensures
            r == (Erspan2 { ver, ..self }),
    {
        Erspan2 { ver, ..self }
    }

    pub fn session_id(self, sess_id: u16) -> (r: Erspan2)
        ensures
            r == (Erspan2 { sess_id, ..self }),
    {
        Erspan2 { sess_id, ..self }
    }

    pub fn port_index(self, port_index: u32) -> (r: Erspan2)
        ensures
            r == (Erspan2 { index: port_index, ..self }),
    {
        Erspan2 { index: port_index, ..self }
    }

    /// Pack into the two-word wire header.
    pub fn build(self) -> (r: erspan2_hdr)
        ensures
            r == (erspan2_hdr { flags: erspan2_flags_word(self), index: erspan2_index_word(self) }),
    {
        erspan2_hdr { flags: self.flags_word(), index: self.index_word() }
    }

    pub fn flags_word(&self) -> (r: u32)
        ensures
            r == erspan2_flags_word(*self),
    {
        (self.sess_id as u32 & ERSPAN2_MASK_SESS) | (((if self.t {
            1u32
        } else {
            0u32
        }) << 10) & ERSPAN2_MASK_T) | ((self.en.value() << 11) & ERSPAN2_MASK_EN) | (((
        self.cos as u32) << 13) & ERSPAN2_MASK_COS) | (((self.vlan as u32) << 16)
            & ERSPAN2_MASK_VLAN) | (((self.ver as u32) << 28) & ERSPAN2_MASK_VER)
    }

    pub fn index_word(&self) -> (r: u32)
        ensures
            r == erspan2_index_word(*self),
    {
        (self.index & ERSPAN2_MASK_INDX) | (((self.rsvd as u32) << 20) & ERSPAN2_MASK_RSVD)
    }
}

/// The 8-byte packed ERSPAN type II header, host-order words.
#[derive(Default, Debug, Copy, Clone, PartialEq, Eq, Structural)]
pub struct erspan2_hdr {
    pub flags: u32,
    pub index: u32,
}

impl Serialize for erspan2_hdr {
    open spec fn wire(&self) -> Seq<u8> {
        spec_be32(self.flags) + spec_be32(self.index)
    }

    fn write_bytes(&self) -> (r: Vec<u8>)
        ensures
            r@ == self.wire(),
    {
        let mut v: Vec<u8> = Vec::new();
        put_be32(&mut v, self.flags);
        put_be32(&mut v, self.index);
        assert(v@ =~= self.wire());
        v
    }
}

impl erspan2_hdr {
    pub open spec fn size_of() -> usize {
        8
    }

    pub fn new(flags: u32, index: u32) -> (r: erspan2_hdr)
        ensures
            r == (erspan2_hdr { flags, index }),
    {
        erspan2_hdr { flags, index }
    }

    pub fn init(&mut self)
        ensures
            *final(self) == (erspan2_hdr { flags: 0, index: 0 }),
    {
        self.flags = 0;
        self.index = 0;
    }

    pub fn flags(&mut self, flags: u32)
        ensures
            *final(self) == (erspan2_hdr { flags, ..*old(self) }),
    {
        self.flags = flags;
    }

    pub fn get_flags(&self) -> (r: u32)
        ensures
            r == self.flags,
    {
        self.flags
    }

    pub fn index(&mut self, index: u32)
        ensures
            *final(self) == (erspan2_hdr { index, ..*old(self) }),
    {
        self.index = index;
    }

    pub fn get_index(&self) -> (r: u32)
        ensures
            r == self.index,
    {
        self.index
    }
}

} // verus!
