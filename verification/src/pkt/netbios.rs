use vstd::prelude::*;

verus! {

pub const NB_OPCODE_QUERY: u8 = 0;
pub const NB_OPCODE_REGISTRATION: u8 = 5;
pub const NB_OPCODE_RELEASE: u8 = 6;
pub const NB_OPCODE_WACK: u8 = 7;
pub const NB_OPCODE_REFRESH: u8 = 8;
pub const NB_OPCODE_REFRESH_ALT: u8 = 9;
pub const NB_OPCODE_MH_REGISTRATION: u8 = 15;

pub const NB_RRTYPE_NULL: u16 = 0x0a;
pub const NB_RRTYPE_NB: u16 = 0x20;
pub const NB_RRTYPE_NBSTAT: u16 = 0x21;

/// Broadcast flag.
pub const NB_FLAG_B: u16 = 0x0010;

/// Active error: name owned by another node.
pub const NB_RCODE_ACT_ERR: u8 = 6;

/// Conflict error: unique name owned by more than one node.
pub const NB_RCODE_CFT_ERR: u8 = 7;

/// First-level encoding: each half-octet becomes a letter from 'A'.
pub open spec fn nb_raw_encode_spec(name: Seq<u8>) -> Seq<u8> {
    Seq::new(
        32,
        |i: int|
            if i % 2 == 0 {
                ((name[i / 2] / 16) + 65) as u8
            } else {
                ((name[i / 2] % 16) + 65) as u8
            },
    )
}

/// A name padded with spaces to 15 bytes plus a suffix byte.
pub open spec fn nb_pad_spec(name: Seq<u8>, suffix: u8) -> Seq<u8> {
    Seq::new(
        16,
        |i: int|
            if i < name.len() && i < 15 {
                name[i]
            } else if i < 15 {
                32u8
            } else {
                suffix
            },
    )
}

/// Encode a padded 16-byte name into its 32-byte wire form.
pub fn raw_encode(name: &[u8]) -> (r: Vec<u8>)
    requires
        name@.len() == 16,
    ensures
        r@ == nb_raw_encode_spec(name@),
{
    let mut buf: Vec<u8> = Vec::new();
    let mut i: usize = 0;
    while i < 16
        invariant
            0 <= i <= 16,
            name@.len() == 16,
            buf@.len() == 2 * i,
            forall|j: int| 0 <= j < 2 * i ==> buf@[j] == nb_raw_encode_spec(name@)[j],
        decreases 16 - i,
    {
        let cur = name[i];
        buf.push(cur / 16 + 65);
        buf.push(cur % 16 + 65);
        i += 1;
    }
    assert(buf@ =~= nb_raw_encode_spec(name@));
    buf
}

/// Pad a name with spaces to 15 bytes and add a suffix byte, for a
/// total of 16; a name longer than 15 bytes is refused.
pub fn pad(name: &[u8], suffix: u8) -> (r: Option<Vec<u8>>)
    ensures
        name@.len() + 1 > 16 ==> r is None,
        name@.len() + 1 <= 16 ==> r is Some && r.unwrap()@ == nb_pad_spec(name@, suffix),
{
    if name.len() >= 16 {
        return None;
    }
    let mut buf: Vec<u8> = Vec::new();
    let mut i: usize = 0;
    while i < 15
        invariant
            0 <= i <= 15,
            name@.len() <= 15,
            buf@.len() == i,
            forall|j: int| 0 <= j < i ==> buf@[j] == nb_pad_spec(name@, suffix)[j],
        decreases 15 - i,
    {
        if i < name.len() {
            buf.push(name[i]);
        } else {
            buf.push(32);
        }
        i += 1;
    }
    buf.push(suffix);
    assert(buf@ =~= nb_pad_spec(name@, suffix));
    Some(buf)
}

/// Pad and encode a NetBIOS name.
pub fn encode(name: &[u8], suffix: u8) -> (r: Option<Vec<u8>>)
    ensures
        name@.len() + 1 > 16 ==> r is None,
        name@.len() + 1 <= 16 ==> r is Some && r.unwrap()@ == nb_raw_encode_spec(
            nb_pad_spec(name@, suffix),
        ),
{
    match pad(name, suffix) {
        Some(padded) => Some(raw_encode(padded.as_slice())),
        None => None,
    }
}

} // verus!
