#![allow(non_camel_case_types)]

use vstd::prelude::*;
use crate::pkt::{put_u8, spec_be32, Serialize};

verus! {

/// The I flag: the VNI field is valid.
pub const VXLAN_I: u8 = 8;

pub const VXLAN_DEFAULT_PORT: u16 = 4789;

/// The 8-byte VXLAN header. `vni` holds the logical 24-bit network
/// identifier; on the wire it sits in the upper 24 bits of the last
/// word.
#[derive(Debug, Copy, Clone)]
pub struct vxlan_hdr {
    pub flags: u8,
    pub reserved: [u8; 3],
    pub vni: u32,
}

impl PartialEq for vxlan_hdr {
    fn eq(&self, other: &Self) -> (r: bool) {
        let r = self.flags == other.flags && self.vni == other.vni && self.reserved[0]
            == other.reserved[0] && self.reserved[1] == other.reserved[1] && self.reserved[2]
            == other.reserved[2];
        proof {
            if r {
                assert(self.reserved@ =~= other.reserved@);
            }
        }
        r
    }
}

impl vstd::std_specs::cmp::PartialEqSpecImpl for vxlan_hdr {
    open spec fn obeys_eq_spec() -> bool {
        true
    }

    open spec fn eq_spec(&self, other: &vxlan_hdr) -> bool {
        self.flags == other.flags && self.vni == other.vni && self.reserved@ == other.reserved@
    }
}

impl Eq for vxlan_hdr {}

impl Serialize for vxlan_hdr {
    open spec fn wire(&self) -> Seq<u8> {
        seq![
            self.flags,
            0u8,
            0u8,
            0u8,
            ((self.vni / 0x10000) % 256) as u8,
            ((self.vni / 256) % 256) as u8,
            (self.vni % 256) as u8,
            0u8,
        ]
    }

    fn write_bytes(&self) -> (r: Vec<u8>)
        ensures
            r@ == self.wire(),
    {
        let mut v: Vec<u8> = Vec::new();
        put_u8(&mut v, self.flags);
        put_u8(&mut v, 0);
        put_u8(&mut v, 0);
        put_u8(&mut v, 0);
        put_u8(&mut v, ((self.vni / 0x10000) % 256) as u8);
        put_u8(&mut v, ((self.vni / 256) % 256) as u8);
        put_u8(&mut v, (self.vni % 256) as u8);
        put_u8(&mut v, 0);
        assert(v@ =~= self.wire());
        v
    }
}

impl vxlan_hdr {
    pub open spec fn size_of() -> usize {
        8
    }

    pub fn new() -> (r: vxlan_hdr)
        ensures
            r.flags == 0,
            r.vni == 0,
            r.wire() == seq![0u8, 0u8, 0u8, 0u8] + spec_be32(0),
    {
        let r = vxlan_hdr { flags: 0, reserved: [0, 0, 0], vni: 0 };
        assert(r.wire() =~= seq![0u8, 0u8, 0u8, 0u8] + spec_be32(0));
        r
    }

    /// The common case: a VNI with the I flag raised.
    pub fn with_vni(vni: u32) -> (r: vxlan_hdr)
        ensures
            r.flags == VXLAN_I,
            r.vni == vni,
    {
        let r = vxlan_hdr::new().vni(vni);
        proof {
            assert(0u8 | 8u8 == 8u8) by (bit_vector);
        }
        r
    }

    /// Raise or clear the I flag alone.
    pub fn i(self, flag: bool) -> (r: vxlan_hdr)
        ensures
            r == (vxlan_hdr {
                flags: if flag {
                    (self.flags | VXLAN_I) as u8
                } else {
                    (self.flags & !VXLAN_I) as u8
                },
                ..self
            }),
    {
        if flag {
            vxlan_hdr { flags: self.flags | VXLAN_I, ..self }
        } else {
            vxlan_hdr { flags: self.flags & !VXLAN_I, ..self }
        }
    }

    /// Store the VNI and raise the I flag.
    pub fn vni(self, vni: u32) -> (r: vxlan_hdr)
        ensures
            r.vni == vni,
            r.flags == (self.flags | VXLAN_I) as u8,
            r.reserved == self.reserved,
    {
        let r = (vxlan_hdr { vni, ..self }).i(true);
        r
    }
}

} // verus!
