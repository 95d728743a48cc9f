use resynth::ezpkt::Dhcp;
use resynth::ezpkt::{IcmpFlow, IpFrag, TcpFlow, UdpDgram, UdpFlow};
use resynth::pkt::ipv4::{ip_csum, ip_csum_fold, ip_csum_partial, ip_hdr, ip_pseudo_hdr};
use resynth::pkt::packet::Packet;
use resynth::pkt::{Ip4Addr, Serialize, Sock4};
use resynth::program::Program;
use resynth::val::Val;

fn sock(a: u8, b: u8, c: u8, d: u8, port: u16) -> Sock4 {
    Sock4::new(Ip4Addr::new(a, b, c, d), port)
}

fn content(p: Packet) -> Vec<u8> {
    p.to_vec()
}

/// One UDP unicast datagram: IP total length 30, UDP length 10,
/// protocol 17, payload intact.
#[test]
fn udp_unicast_wire() {
    let mut flow = UdpFlow::new(sock(10, 0, 0, 1, 1000), sock(10, 0, 0, 2, 2000), false);
    let bytes = content(flow.client_dgram(b"hi").into_packet());
    assert_eq!(bytes.len(), 14 + 30);
    // IP total length
    assert_eq!(&bytes[16..18], &[0, 30]);
    // protocol
    assert_eq!(bytes[23], 17);
    // source and destination addresses
    assert_eq!(&bytes[26..30], &[10, 0, 0, 1]);
    assert_eq!(&bytes[30..34], &[10, 0, 0, 2]);
    // ports
    assert_eq!(&bytes[34..36], &[0x03, 0xe8]);
    assert_eq!(&bytes[36..38], &[0x07, 0xd0]);
    // UDP length
    assert_eq!(&bytes[38..40], &[0, 10]);
    // payload
    assert_eq!(&bytes[42..], b"hi");
}

/// The IP header of an emitted datagram checksums to zero.
#[test]
fn ip_csum_verifies() {
    let mut flow = UdpFlow::new(sock(10, 0, 0, 1, 1000), sock(10, 0, 0, 2, 2000), false);
    let bytes = content(flow.client_dgram(b"hi").into_packet());
    assert_eq!(ip_csum(&bytes[14..34]), 0);
}

/// The published checksum is the checksum of the zero-checksum header.
#[test]
fn ip_csum_published() {
    let mut h = ip_hdr::default();
    h.set_protocol(17);
    h.set_tot_len(30);
    h.set_saddr(Ip4Addr::new(10, 0, 0, 1));
    h.set_daddr(Ip4Addr::new(10, 0, 0, 2));
    let before = h.write_bytes();
    h.calc_csum();
    assert_eq!(h.csum, ip_csum(&before));
    // and the full header with the stored checksum verifies
    assert_eq!(ip_csum(&h.write_bytes()), 0);
}

/// Endianness round trip of a typed setter/getter pair.
#[test]
fn hdr_roundtrip() {
    let mut h = ip_hdr::default();
    h.set_tot_len(0xbeef);
    assert_eq!(h.get_tot_len(), 0xbeef);
    let mut u = resynth::pkt::ipv4::udp_hdr::default();
    u.set_len(0x1234);
    assert_eq!(u.get_len(), 0x1234);
    // and the wire image is big-endian
    let w = h.write_bytes();
    assert_eq!(&w[2..4], &[0xbe, 0xef]);
}

/// The UDP checksum equals the folded pseudo-header, header and
/// payload partial sums.
#[test]
fn udp_pseudo_csum() {
    let mut flow = UdpFlow::new(sock(10, 0, 0, 1, 1000), sock(10, 0, 0, 2, 2000), false);
    let d = flow.client_dgram(b"some payload").csum();
    let stored = d.udp.csum;
    let ph = ip_pseudo_hdr::udp(
        Ip4Addr::new(10, 0, 0, 1),
        Ip4Addr::new(10, 0, 0, 2),
        8 + 12,
    );
    let mut hdr0 = d.udp;
    hdr0.set_csum(0);
    let folded = ip_csum_fold(
        ip_csum_partial(&ph.write_bytes())
            + ip_csum_partial(&hdr0.write_bytes())
            + ip_csum_partial(b"some payload"),
    );
    assert_eq!(stored, folded);
}

/// ICMP echo: type 8, the fixed identifier, an advancing sequence.
#[test]
fn icmp_echo_wire() {
    let mut flow = IcmpFlow::new(Ip4Addr::new(10, 0, 0, 1), Ip4Addr::new(10, 0, 0, 2), false);
    let bytes = content(flow.echo(b"PING"));
    assert_eq!(bytes[34], 8);
    assert_eq!(&bytes[38..40], &[0x12, 0x34]);
    assert_eq!(&bytes[40..42], &[0, 0]);
    assert_eq!(&bytes[42..], b"PING");
    // the ICMP checksum covers header, echo header and payload
    assert_eq!(ip_csum(&bytes[34..]), 0);
    let again = content(flow.echo(b"PING"));
    assert_eq!(&again[40..42], &[0, 1]);
}

/// The three-way handshake: SYN, SYN|ACK, ACK, with both sides one
/// sequence number further along.
#[test]
fn tcp_handshake() {
    let mut flow = TcpFlow::new(sock(10, 0, 0, 1, 102), sock(10, 0, 0, 2, 102), 1, 1, false);
    let pkts = flow.open();
    assert_eq!(pkts.len(), 3);
    let p: Vec<Vec<u8>> = pkts.into_iter().map(content).collect();
    // flags at offset 14 + 20 + 13
    assert_eq!(p[0][47], 0x02);
    assert_eq!(p[1][47], 0x12);
    assert_eq!(p[2][47], 0x10);
    // sequence and acknowledgment numbers
    assert_eq!(&p[0][38..42], &[0, 0, 0, 1]);
    assert_eq!(&p[0][42..46], &[0, 0, 0, 0]);
    assert_eq!(&p[1][38..42], &[0, 0, 0, 1]);
    assert_eq!(&p[1][42..46], &[0, 0, 0, 2]);
    assert_eq!(&p[2][38..42], &[0, 0, 0, 2]);
    assert_eq!(&p[2][42..46], &[0, 0, 0, 2]);
    assert_eq!(flow.cl_seq, 2);
    assert_eq!(flow.sv_seq, 2);
}

/// Sequence accounting: data, SYN and FIN each consume sequence space.
#[test]
fn tcp_seq_accounting() {
    let mut flow = TcpFlow::new(sock(10, 0, 0, 1, 102), sock(10, 0, 0, 2, 102), 1, 1, false);
    flow.open();
    flow.client_message(b"hello", true, 0);
    flow.client_close();
    // one SYN, five bytes of data, one FIN
    assert_eq!(flow.cl_seq, 1 + 1 + 5 + 1);
    // one SYN, one FIN
    assert_eq!(flow.sv_seq, 1 + 1 + 1);
}

/// The TCP checksum over a data segment verifies against the
/// pseudo-header.
#[test]
fn tcp_csum_verifies() {
    let mut flow = TcpFlow::new(sock(10, 0, 0, 1, 102), sock(10, 0, 0, 2, 102), 1, 1, false);
    let pkts = flow.client_message(b"data!", false, 0);
    let bytes = content(pkts.into_iter().next().unwrap());
    let ph = ip_pseudo_hdr::tcp(
        Ip4Addr::new(10, 0, 0, 1),
        Ip4Addr::new(10, 0, 0, 2),
        20 + 5,
    );
    let folded = ip_csum_fold(ip_csum_partial(&ph.write_bytes()) + ip_csum_partial(&bytes[34..]));
    assert_eq!(folded, 0);
}

/// IP fragmentation: a first fragment of 16 bytes with MF set, a
/// middle fragment at offset 2, and a tail of the last 4 bytes.
#[test]
fn ip_fragmentation() {
    let mut hdr = ip_hdr::default();
    hdr.set_protocol(17);
    hdr.set_saddr(Ip4Addr::new(10, 0, 0, 1));
    hdr.set_daddr(Ip4Addr::new(10, 0, 0, 2));
    let payload = vec![b'X'; 100];
    let frag = IpFrag::new(hdr, payload);

    let first = content(frag.fragment(0, 2));
    assert_eq!(first.len(), 14 + 20 + 16);
    // MF set, offset zero
    assert_eq!(&first[20..22], &[0x20, 0x00]);

    let middle = content(frag.fragment(2, 2));
    assert_eq!(middle.len(), 14 + 20 + 16);
    assert_eq!(&middle[20..22], &[0x20, 0x02]);

    let tail = content(frag.tail(12));
    assert_eq!(tail.len(), 14 + 20 + 4);
    assert_eq!(&tail[20..22], &[0x00, 0x0c]);
}

/// Fragmentation round trip: the fragments' payloads reassemble the
/// original, and only the final fragment clears MF.
#[test]
fn ip_fragmentation_roundtrip() {
    let mut hdr = ip_hdr::default();
    hdr.set_protocol(17);
    let payload: Vec<u8> = (0..100u8).collect();
    let frag = IpFrag::new(hdr, payload.clone());
    let mut got: Vec<u8> = Vec::new();
    for (off, len) in [(0u16, 3u16), (3, 4), (7, 13)] {
        let bytes = content(frag.fragment(off, len));
        let mf = bytes[20] & 0x20 != 0;
        assert_eq!(mf, (off + len) as usize * 8 < 100);
        got.extend_from_slice(&bytes[34..]);
    }
    assert_eq!(got, payload);
}

/// The clock advances by eight nanoseconds per byte plus framing
/// overhead for every emitted packet.
#[test]
fn clock_advance() {
    let mut prog = Program::dummy().unwrap();
    let mut flow = UdpFlow::new(sock(10, 0, 0, 1, 1000), sock(10, 0, 0, 2, 2000), false);
    let p1 = flow.client_dgram(b"x").into_packet();
    let p2 = flow.server_dgram(b"longer payload").into_packet();
    let l1 = p1.len() as u64;
    let l2 = p2.len() as u64;
    prog.emit_val(Val::Pkt(p1)).unwrap();
    prog.emit_val(Val::Pkt(p2)).unwrap();
    let out = prog.output();
    assert_eq!(out.len(), 2);
    assert_eq!(out[0].ts, 8 * (l1 + 24));
    assert_eq!(out[1].ts, 8 * (l1 + 24) + 8 * (l2 + 24));
}

/// A raw datagram has no Ethernet header.
#[test]
fn raw_datagram() {
    let d = UdpDgram::raw();
    let p = d.into_packet();
    assert_eq!(p.to_vec().len(), 28);
}

/// DHCP fixed fields: a later, shorter write keeps the bytes an
/// earlier write left beyond it.
#[test]
fn dhcp_field_overlay() {
    let full: Vec<u8> = (1..=16u8).collect();
    let hdr = Dhcp::with_capacity(0).chaddr(&full).chaddr(b"\xaa\xbb");
    let bytes = hdr.into_vec();
    // chaddr occupies wire bytes 28..44
    assert_eq!(&bytes[28..30], &[0xaa, 0xbb]);
    assert_eq!(&bytes[30..44], &full[2..16]);
}
