use vstd::prelude::*;

pub mod dhcp;
pub mod dns;
pub mod erspan2;
pub mod eth;
pub mod gre;
pub mod ipv4;
pub mod netbios;
pub mod packet;
pub mod pcap;
pub mod tls;
pub mod vxlan;

verus! {

/// A record type with a fixed on-wire encoding.
///
/// `wire` is the mathematical byte image; `write_bytes` produces it.
pub trait Serialize: Sized {
    spec fn wire(&self) -> Seq<u8>;

    fn write_bytes(&self) -> (r: Vec<u8>)
        ensures
            r@ == self.wire(),
    ;
}

/// Big-endian image of a 16-bit value.
pub open spec fn spec_be16(x: u16) -> Seq<u8> {
    seq![(x / 256) as u8, (x % 256) as u8]
}

/// Big-endian image of a 32-bit value.
pub open spec fn spec_be32(x: u32) -> Seq<u8> {
    seq![
        (x / 0x1000000) as u8,
        ((x / 0x10000) % 256) as u8,
        ((x / 256) % 256) as u8,
        (x % 256) as u8,
    ]
}

/// The 16-bit value a big-endian pair of wire bytes stands for.
pub open spec fn read_be16(s: Seq<u8>, off: int) -> int {
    (s[off] as int) * 256 + (s[off + 1] as int)
}

/// The 32-bit value four big-endian wire bytes stand for.
pub open spec fn read_be32(s: Seq<u8>, off: int) -> int {
    (s[off] as int) * 0x1000000 + (s[off + 1] as int) * 0x10000 + (s[off + 2] as int) * 256 + (s[
        off + 3] as int)
}

/// Encoding a 16-bit value big-endian and reading it back returns the
/// value, whatever the host's own byte order.
pub proof fn lemma_be16_roundtrip(x: u16)
    ensures
        read_be16(spec_be16(x), 0) == x,
{
}

/// Encoding a 32-bit value big-endian and reading it back returns the
/// value.
pub proof fn lemma_be32_roundtrip(x: u32)
    ensures
        read_be32(spec_be32(x), 0) == x,
{
    assert((x / 0x1000000) * 0x1000000 + ((x / 0x10000) % 256) * 0x10000 + ((x / 256) % 256) * 256
        + x % 256 == x) by (nonlinear_arith);
}

/// Little-endian image of a 16-bit value.
pub open spec fn spec_le16(x: u16) -> Seq<u8> {
    seq![(x % 256) as u8, (x / 256) as u8]
}

/// Little-endian image of a 32-bit value.
pub open spec fn spec_le32(x: u32) -> Seq<u8> {
    seq![
        (x % 256) as u8,
        ((x / 256) % 256) as u8,
        ((x / 0x10000) % 256) as u8,
        (x / 0x1000000) as u8,
    ]
}

/// Big-endian image of a 64-bit value.
pub open spec fn spec_be64(x: u64) -> Seq<u8> {
    spec_be32((x / 0x100000000) as u32) + spec_be32((x % 0x100000000) as u32)
}

/// Little-endian image of a 64-bit value.
pub open spec fn spec_le64(x: u64) -> Seq<u8> {
    spec_le32((x % 0x100000000) as u32) + spec_le32((x / 0x100000000) as u32)
}

pub fn put_u8(v: &mut Vec<u8>, x: u8)
    ensures
        final(v)@ == old(v)@ + seq![x],
{
    v.push(x);
}

pub fn put_be16(v: &mut Vec<u8>, x: u16)
    ensures
        final(v)@ == old(v)@ + spec_be16(x),
{
    let ghost v0 = v@;
    v.push((x / 256) as u8);
    v.push((x % 256) as u8);
    assert(v@ =~= v0 + spec_be16(x));
}

pub fn put_be32(v: &mut Vec<u8>, x: u32)
    ensures
        final(v)@ == old(v)@ + spec_be32(x),
{
    let ghost v0 = v@;
    v.push((x / 0x1000000) as u8);
    v.push(((x / 0x10000) % 256) as u8);
    v.push(((x / 256) % 256) as u8);
    v.push((x % 256) as u8);
    assert(v@ =~= v0 + spec_be32(x));
}

pub fn put_le16(v: &mut Vec<u8>, x: u16)
    ensures
        final(v)@ == old(v)@ + spec_le16(x),
{
    let ghost v0 = v@;
    v.push((x % 256) as u8);
    v.push((x / 256) as u8);
    assert(v@ =~= v0 + spec_le16(x));
}

pub fn put_le32(v: &mut Vec<u8>, x: u32)
    ensures
        final(v)@ == old(v)@ + spec_le32(x),
{
    let ghost v0 = v@;
    v.push((x % 256) as u8);
    v.push(((x / 256) % 256) as u8);
    v.push(((x / 0x10000) % 256) as u8);
    v.push((x / 0x1000000) as u8);
    assert(v@ =~= v0 + spec_le32(x));
}

pub fn put_be64(v: &mut Vec<u8>, x: u64)
    ensures
        final(v)@ == old(v)@ + spec_be64(x),
{
    let ghost v0 = v@;
    put_be32(v, (x / 0x100000000) as u32);
    put_be32(v, (x % 0x100000000) as u32);
    assert(v@ =~= v0 + spec_be64(x));
}

pub fn put_le64(v: &mut Vec<u8>, x: u64)
    ensures
        final(v)@ == old(v)@ + spec_le64(x),
{
    let ghost v0 = v@;
    put_le32(v, (x % 0x100000000) as u32);
    put_le32(v, (x / 0x100000000) as u32);
    assert(v@ =~= v0 + spec_le64(x));
}

pub fn put_bytes(v: &mut Vec<u8>, s: &[u8])
    ensures
        final(v)@ == old(v)@ + s@,
{
    v.extend_from_slice(s);
    assert(v@ =~= old(v)@ + s@);
}

/// An IPv4 address, modelled as its 32-bit host-order value.
#[derive(Debug, Copy, Clone, PartialEq, Eq, Hash, Structural)]
pub struct Ip4Addr {
    pub bits: u32,
}

impl Ip4Addr {
    pub fn new(a: u8, b: u8, c: u8, d: u8) -> (r: Ip4Addr)
        ensures
            r.bits == a as u32 * 0x1000000 + b as u32 * 0x10000 + c as u32 * 256 + d as u32,
    {
        Ip4Addr {
            bits: (a as u32) * 0x1000000 + (b as u32) * 0x10000 + (c as u32) * 256 + (d as u32),
        }
    }

    pub fn from_u32(bits: u32) -> (r: Ip4Addr)
        ensures
            r.bits == bits,
    {
        Ip4Addr { bits }
    }

    pub fn to_u32(&self) -> (r: u32)
        ensures
            r == self.bits,
    {
        self.bits
    }
}

/// An IPv4 socket address: host and port.
#[derive(Debug, Copy, Clone, PartialEq, Eq, Hash, Structural)]
pub struct Sock4 {
    pub ip: Ip4Addr,
    pub port: u16,
}

impl Sock4 {
    pub fn new(ip: Ip4Addr, port: u16) -> (r: Sock4)
        ensures
            r.ip == ip,
            r.port == port,
    {
        Sock4 { ip, port }
    }

    pub fn ip(&self) -> (r: Ip4Addr)
        ensures
            r == self.ip,
    {
        self.ip
    }

    pub fn port(&self) -> (r: u16)
        ensures
            r == self.port,
    {
        self.port
    }
}

} // verus!
