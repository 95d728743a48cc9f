#![allow(non_camel_case_types)]

use vstd::prelude::*;
use crate::pkt::{put_be16, put_u8, spec_be16, Serialize};

verus! {

pub const TLS_VERSION_SSL_1: u16 = 0x0100;
pub const TLS_VERSION_SSL_2: u16 = 0x0200;
pub const TLS_VERSION_SSL_3: u16 = 0x0300;
pub const TLS_VERSION_TLS_1_0: u16 = 0x0301;
pub const TLS_VERSION_TLS_1_1: u16 = 0x0302;
pub const TLS_VERSION_TLS_1_2: u16 = 0x0303;
pub const TLS_VERSION_TLS_1_3: u16 = 0x0304;

pub const TLS_CONTENT_INVALID: u8 = 0;
pub const TLS_CONTENT_CHANGE_CIPHER_SPEC: u8 = 20;
pub const TLS_CONTENT_ALERT: u8 = 21;
pub const TLS_CONTENT_HANDSHAKE: u8 = 22;
pub const TLS_CONTENT_APP_DATA: u8 = 23;
pub const TLS_CONTENT_HEARTBEAT: u8 = 24;
pub const TLS_CONTENT_TLS12_CID: u8 = 25;
pub const TLS_CONTENT_ACK: u8 = 26;

pub const TLS_HANDSHAKE_HELLO_REQUEST: u8 = 0;
pub const TLS_HANDSHAKE_CLIENT_HELLO: u8 = 1;
pub const TLS_HANDSHAKE_SERVER_HELLO: u8 = 2;
pub const TLS_HANDSHAKE_CERTIFICATE: u8 = 11;
pub const TLS_HANDSHAKE_SERVER_KEY_EXCHANGE: u8 = 12;
pub const TLS_HANDSHAKE_CERTIFICATE_REQUEST: u8 = 13;
pub const TLS_HANDSHAKE_SERVER_HELLO_DONE: u8 = 14;
pub const TLS_HANDSHAKE_CERTIFICATE_VERIFY: u8 = 15;
pub const TLS_HANDSHAKE_CLIENT_KEY_EXCHANGE: u8 = 16;
pub const TLS_HANDSHAKE_FINISHED: u8 = 20;

/// The 5-byte TLS record header: content type, protocol version,
/// payload length.
#[derive(Debug, Copy, Clone, PartialEq, Eq, Structural)]
pub struct tls_record {
    pub content: u8,
    pub version: u16,
    pub len: u16,
}

impl Serialize for tls_record {
    open spec fn wire(&self) -> Seq<u8> {
        seq![self.content] + spec_be16(self.version) + spec_be16(self.len)
    }

    fn write_bytes(&self) -> (r: Vec<u8>)
        ensures
            r@ == self.wire(),
    {
        let mut v: Vec<u8> = Vec::new();
        put_u8(&mut v, self.content);
        put_be16(&mut v, self.version);
        put_be16(&mut v, self.len);
        assert(v@ =~= self.wire());
        v
    }
}

impl tls_record {
    pub open spec fn size_of() -> usize {
        5
    }

    pub fn new(content: u8, version: u16, len: u16) -> (r: tls_record)
        ensures
            r == (tls_record { content, version, len }),
    {
        tls_record { content, version, len }
    }
}

/// Frame a payload in one TLS record.
pub fn tls_frame(content: u8, version: u16, payload: &[u8]) -> (r: Vec<u8>)
    requires
        payload@.len() <= 0xffff,
    ensures
        r@ == (tls_record {
            content,
            version,
            len: payload@.len() as u16,
        }).wire() + payload@,
{
    let rec = tls_record::new(content, version, payload.len() as u16);
    let mut v = rec.write_bytes();
    crate::pkt::put_bytes(&mut v, payload);
    v
}

} // verus!
