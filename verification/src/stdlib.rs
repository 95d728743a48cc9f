use vstd::prelude::*;

pub mod arp;
pub mod dhcp;
pub mod dns;
pub mod eth;
pub mod io;
pub mod ipv4;
pub mod netbios;
pub mod num;
pub mod text;
pub mod time;
pub mod tls;
pub mod tunnel;

use crate::args::Args;
use crate::err::Error;
use crate::libapi::{ClassDef, FuncDef, Module, SymDesc};
use crate::sym::Symbol;
use crate::val::Val;

verus! {

/// Every function of the standard library, by identity. A `FuncDef`
/// carries one of these instead of a code pointer; `call_func`
/// dispatches on it.
#[derive(Debug, Copy, Clone, PartialEq, Eq, Structural)]
pub enum FuncId {
    StdBe16,
    StdBe32,
    StdBe64,
    StdLe16,
    StdLe32,
    StdLe64,
    StdU8,
    StdLenBe64,
    StdLenBe32,
    StdLenBe16,
    StdLenU8,
    TextConcat,
    TextCrlflines,
    TextLen,
    TimeJumpSeconds,
    TimeJumpMillis,
    TimeJumpMicros,
    TimeJumpNanos,
    IoFile,
    IoBufio,
    BufioRead,
    BufioReadAll,
    DnsNameFn,
    DnsPointer,
    DnsFlagsFn,
    DnsHdr,
    DnsQuestion,
    DnsAnswer,
    DnsHost,
    Ipv4Datagram,
    Ipv4Frag,
    FragFragment,
    FragTail,
    FragDatagram,
    UdpBroadcast,
    UdpUnicast,
    UdpHdr,
    UdpFlowFn,
    UdpClientDgram,
    UdpServerDgram,
    UdpClientRawDgram,
    UdpServerRawDgram,
    TcpFlowFn,
    TcpOpen,
    TcpClientMessage,
    TcpServerMessage,
    TcpClientSegment,
    TcpServerSegment,
    TcpClientRawSegment,
    TcpServerRawSegment,
    TcpClientHdr,
    TcpServerHdr,
    TcpClientAck,
    TcpServerAck,
    TcpClientHole,
    TcpServerHole,
    TcpClientClose,
    TcpServerClose,
    TcpClientReset,
    TcpServerReset,
    IcmpFlowFn,
    IcmpEcho,
    IcmpEchoReply,
    EthFrame,
    EthFromIp,
    GreEncap,
    GreSession,
    VxlanEncap,
    VxlanDgramFn,
    VxlanSession,
    Erspan1Encap,
    Erspan1Session,
    Erspan2Encap,
    Erspan2Session,
    NbnsFlags,
    NbNameEncode,
    DhcpHdr,
    DhcpOption,
    TlsMessage,
}

/// Every class of the standard library, by identity.
#[derive(Debug, Copy, Clone, PartialEq, Eq, Structural)]
pub enum ClassId {
    TcpFlow,
    UdpFlow,
    Icmp,
    Gre,
    Vxlan,
    Erspan1,
    Erspan2,
    IpFrag,
    BufIo,
}

/// Every module of the standard library, by identity.
#[derive(Debug, Copy, Clone, PartialEq, Eq, Structural)]
pub enum ModuleId {
    Std,
    Text,
    Time,
    Io,
    Ipv4,
    Ipv4Proto,
    Udp,
    Tcp,
    Icmp,
    Dns,
    DnsOpcode,
    DnsRcode,
    DnsRtype,
    DnsClass,
    Eth,
    EthType,
    Gre,
    Vxlan,
    Erspan1,
    Erspan2,
    Netbios,
    NbNs,
    NbNsOpcode,
    NbNsRrtype,
    NbNsRcode,
    NbName,
    Dhcp,
    DhcpOpcode,
    DhcpMsgtype,
    DhcpOpt,
    Tls,
    TlsVersion,
    TlsContent,
    TlsHandshake,
    Arp,
    ArpHrd,
}

/// The signature of a standard-library function.
pub fn func_def(id: FuncId) -> (r: FuncDef)
    ensures
        r.body == id,
{
    match id {
        FuncId::StdBe16 => num::be16_def(),
        FuncId::StdBe32 => num::be32_def(),
        FuncId::StdBe64 => num::be64_def(),
        FuncId::StdLe16 => num::le16_def(),
        FuncId::StdLe32 => num::le32_def(),
        FuncId::StdLe64 => num::le64_def(),
        FuncId::StdU8 => num::u8_def(),
        FuncId::StdLenBe64 => num::len_be64_def(),
        FuncId::StdLenBe32 => num::len_be32_def(),
        FuncId::StdLenBe16 => num::len_be16_def(),
        FuncId::StdLenU8 => num::len_u8_def(),
        FuncId::TextConcat => text::concat_def(),
        FuncId::TextCrlflines => text::crlflines_def(),
        FuncId::TextLen => text::len_def(),
        FuncId::TimeJumpSeconds => time::jump_seconds_def(),
        FuncId::TimeJumpMillis => time::jump_millis_def(),
        FuncId::TimeJumpMicros => time::jump_micros_def(),
        FuncId::TimeJumpNanos => time::jump_nanos_def(),
        FuncId::IoFile => io::file_def(),
        FuncId::IoBufio => io::bufio_def(),
        FuncId::BufioRead => io::read_def(),
        FuncId::BufioReadAll => io::read_all_def(),
        FuncId::DnsNameFn => dns::name_def(),
        FuncId::DnsPointer => dns::pointer_def(),
        FuncId::DnsFlagsFn => dns::flags_def(),
        FuncId::DnsHdr => dns::hdr_def(),
        FuncId::DnsQuestion => dns::question_def(),
        FuncId::DnsAnswer => dns::answer_def(),
        FuncId::DnsHost => dns::host_def(),
        FuncId::Ipv4Datagram => ipv4::datagram_def(),
        FuncId::Ipv4Frag => ipv4::frag_def(),
        FuncId::FragFragment => ipv4::fragment_def(),
        FuncId::FragTail => ipv4::tail_def(),
        FuncId::FragDatagram => ipv4::frag_datagram_def(),
        FuncId::UdpBroadcast => ipv4::udp::broadcast_def(),
        FuncId::UdpUnicast => ipv4::udp::unicast_def(),
        FuncId::UdpHdr => ipv4::udp::hdr_def(),
        FuncId::UdpFlowFn => ipv4::udp::flow_def(),
        FuncId::UdpClientDgram => ipv4::udp::client_dgram_def(),
        FuncId::UdpServerDgram => ipv4::udp::server_dgram_def(),
        FuncId::UdpClientRawDgram => ipv4::udp::client_raw_dgram_def(),
        FuncId::UdpServerRawDgram => ipv4::udp::server_raw_dgram_def(),
        FuncId::TcpFlowFn => ipv4::tcp::flow_def(),
        FuncId::TcpOpen => ipv4::tcp::open_def(),
        FuncId::TcpClientMessage => ipv4::tcp::client_message_def(),
        FuncId::TcpServerMessage => ipv4::tcp::server_message_def(),
        FuncId::TcpClientSegment => ipv4::tcp::client_segment_def(),
        FuncId::TcpServerSegment => ipv4::tcp::server_segment_def(),
        FuncId::TcpClientRawSegment => ipv4::tcp::client_raw_segment_def(),
        FuncId::TcpServerRawSegment => ipv4::tcp::server_raw_segment_def(),
        FuncId::TcpClientHdr => ipv4::tcp::client_hdr_def(),
        FuncId::TcpServerHdr => ipv4::tcp::server_hdr_def(),
        FuncId::TcpClientAck => ipv4::tcp::client_ack_def(),
        FuncId::TcpServerAck => ipv4::tcp::server_ack_def(),
        FuncId::TcpClientHole => ipv4::tcp::client_hole_def(),
        FuncId::TcpServerHole => ipv4::tcp::server_hole_def(),
        FuncId::TcpClientClose => ipv4::tcp::client_close_def(),
        FuncId::TcpServerClose => ipv4::tcp::server_close_def(),
        FuncId::TcpClientReset => ipv4::tcp::client_reset_def(),
        FuncId::TcpServerReset => ipv4::tcp::server_reset_def(),
        FuncId::IcmpFlowFn => ipv4::icmp::flow_def(),
        FuncId::IcmpEcho => ipv4::icmp::echo_fn_def(),
        FuncId::IcmpEchoReply => ipv4::icmp::echo_reply_def(),
        FuncId::EthFrame => eth::frame_def(),
        FuncId::EthFromIp => eth::from_ip_def(),
        FuncId::GreEncap => tunnel::gre_encap_def(),
        FuncId::GreSession => tunnel::gre_session_def(),
        FuncId::VxlanEncap => tunnel::vxlan_encap_def(),
        FuncId::VxlanDgramFn => tunnel::vxlan_dgram_def(),
        FuncId::VxlanSession => tunnel::vxlan_session_def(),
        FuncId::Erspan1Encap => tunnel::erspan1_encap_def(),
        FuncId::Erspan1Session => tunnel::erspan1_session_def(),
        FuncId::Erspan2Encap => tunnel::erspan2_encap_def(),
        FuncId::Erspan2Session => tunnel::erspan2_session_def(),
        FuncId::NbnsFlags => netbios::flags_def(),
        FuncId::NbNameEncode => netbios::encode_def(),
        FuncId::DhcpHdr => dhcp::hdr_def(),
        FuncId::DhcpOption => dhcp::option_def(),
        FuncId::TlsMessage => tls::message_def(),
    }
}

/// Run the body of a standard-library function on bound arguments.
/// The receiver, if any, is mutated in place inside `args`.
pub fn call_func(id: FuncId, args: &mut Args) -> (r: Result<Val, Error>)
    requires
        old(args).cursor == 0,
    ensures
        id == FuncId::StdBe16 ==> num::be16_exec_post(*old(args), *final(args), r),
        id == FuncId::StdBe32 ==> num::be32_exec_post(*old(args), *final(args), r),
        id == FuncId::StdBe64 ==> num::be64_exec_post(*old(args), *final(args), r),
        id == FuncId::StdLe16 ==> num::le16_exec_post(*old(args), *final(args), r),
        id == FuncId::StdLe32 ==> num::le32_exec_post(*old(args), *final(args), r),
        id == FuncId::StdLe64 ==> num::le64_exec_post(*old(args), *final(args), r),
        id == FuncId::StdU8 ==> num::u8_exec_post(*old(args), *final(args), r),
        id == FuncId::StdLenBe64 ==> num::len_be64_exec_post(*old(args), *final(args), r),
        id == FuncId::StdLenBe32 ==> num::len_be32_exec_post(*old(args), *final(args), r),
        id == FuncId::StdLenBe16 ==> num::len_be16_exec_post(*old(args), *final(args), r),
        id == FuncId::StdLenU8 ==> num::len_u8_exec_post(*old(args), *final(args), r),
        id == FuncId::TextConcat ==> text::concat_exec_post(*old(args), *final(args), r),
        id == FuncId::TextCrlflines ==> text::crlflines_exec_post(*old(args), *final(args), r),
        id == FuncId::TextLen ==> text::len_exec_post(*old(args), *final(args), r),
        id == FuncId::TimeJumpSeconds ==> time::jump_seconds_exec_post(*old(args), *final(args), r),
        id == FuncId::TimeJumpMillis ==> time::jump_millis_exec_post(*old(args), *final(args), r),
        id == FuncId::TimeJumpMicros ==> time::jump_micros_exec_post(*old(args), *final(args), r),
        id == FuncId::TimeJumpNanos ==> time::jump_nanos_exec_post(*old(args), *final(args), r),
        id == FuncId::DnsNameFn ==> dns::name_exec_post(*old(args), *final(args), r),
        id == FuncId::DnsPointer ==> dns::pointer_exec_post(*old(args), *final(args), r),
        id == FuncId::DnsFlagsFn ==> dns::flags_exec_post(*old(args), *final(args), r),
        id == FuncId::DnsHdr ==> dns::hdr_exec_post(*old(args), *final(args), r),
        id == FuncId::DnsQuestion ==> dns::question_exec_post(*old(args), *final(args), r),
        id == FuncId::DnsAnswer ==> dns::answer_exec_post(*old(args), *final(args), r),
        id == FuncId::DnsHost ==> dns::host_exec_post(*old(args), *final(args), r),
        id == FuncId::UdpBroadcast ==> ipv4::udp::broadcast_exec_post(*old(args), *final(args), r),
        id == FuncId::UdpUnicast ==> ipv4::udp::unicast_exec_post(*old(args), *final(args), r),
        id == FuncId::UdpHdr ==> ipv4::udp::hdr_exec_post(*old(args), *final(args), r),
        id == FuncId::UdpFlowFn ==> ipv4::udp::flow_exec_post(*old(args), *final(args), r),
        id == FuncId::UdpClientDgram ==> ipv4::udp::flow_dgram_post(*old(args), true, false, true, r),
        id == FuncId::UdpServerDgram ==> ipv4::udp::flow_dgram_post(*old(args), false, false, true, r),
        id == FuncId::UdpClientRawDgram ==> ipv4::udp::flow_dgram_post(*old(args), true, true, false, r),
        id == FuncId::UdpServerRawDgram ==> ipv4::udp::flow_dgram_post(*old(args), false, true, false, r),
        id == FuncId::TcpOpen ==> ipv4::tcp::open_exec_post(*old(args), *final(args), r),
        id == FuncId::IcmpFlowFn ==> ipv4::icmp::flow_exec_post(*old(args), *final(args), r),
        id == FuncId::IcmpEcho ==> ipv4::icmp::echo_post(*old(args), *final(args), true, r),
        id == FuncId::IcmpEchoReply ==> ipv4::icmp::echo_post(*old(args), *final(args), false, r),
{
    match id {
        FuncId::StdBe16 => num::be16_exec(args),
        FuncId::StdBe32 => num::be32_exec(args),
        FuncId::StdBe64 => num::be64_exec(args),
        FuncId::StdLe16 => num::le16_exec(args),
        FuncId::StdLe32 => num::le32_exec(args),
        FuncId::StdLe64 => num::le64_exec(args),
        FuncId::StdU8 => num::u8_exec(args),
        FuncId::StdLenBe64 => num::len_be64_exec(args),
        FuncId::StdLenBe32 => num::len_be32_exec(args),
        FuncId::StdLenBe16 => num::len_be16_exec(args),
        FuncId::StdLenU8 => num::len_u8_exec(args),
        FuncId::TextConcat => text::concat_exec(args),
        FuncId::TextCrlflines => text::crlflines_exec(args),
        FuncId::TextLen => text::len_exec(args),
        FuncId::TimeJumpSeconds => time::jump_seconds_exec(args),
        FuncId::TimeJumpMillis => time::jump_millis_exec(args),
        FuncId::TimeJumpMicros => time::jump_micros_exec(args),
        FuncId::TimeJumpNanos => time::jump_nanos_exec(args),
        FuncId::IoFile => io::file_exec(args),
        FuncId::IoBufio => io::bufio_exec(args),
        FuncId::BufioRead => io::read_exec(args),
        FuncId::BufioReadAll => io::read_all_exec(args),
        FuncId::DnsNameFn => dns::name_exec(args),
        FuncId::DnsPointer => dns::pointer_exec(args),
        FuncId::DnsFlagsFn => dns::flags_exec(args),
        FuncId::DnsHdr => dns::hdr_exec(args),
        FuncId::DnsQuestion => dns::question_exec(args),
        FuncId::DnsAnswer => dns::answer_exec(args),
        FuncId::DnsHost => dns::host_exec(args),
        FuncId::Ipv4Datagram => ipv4::datagram_exec(args),
        FuncId::Ipv4Frag => ipv4::frag_exec(args),
        FuncId::FragFragment => ipv4::fragment_exec(args),
        FuncId::FragTail => ipv4::tail_exec(args),
        FuncId::FragDatagram => ipv4::frag_datagram_exec(args),
        FuncId::UdpBroadcast => ipv4::udp::broadcast_exec(args),
        FuncId::UdpUnicast => ipv4::udp::unicast_exec(args),
        FuncId::UdpHdr => ipv4::udp::hdr_exec(args),
        FuncId::UdpFlowFn => ipv4::udp::flow_exec(args),
        FuncId::UdpClientDgram => ipv4::udp::client_dgram_exec(args),
        FuncId::UdpServerDgram => ipv4::udp::server_dgram_exec(args),
        FuncId::UdpClientRawDgram => ipv4::udp::client_raw_dgram_exec(args),
        FuncId::UdpServerRawDgram => ipv4::udp::server_raw_dgram_exec(args),
        FuncId::TcpFlowFn => ipv4::tcp::flow_exec(args),
        FuncId::TcpOpen => ipv4::tcp::open_exec(args),
        FuncId::TcpClientMessage => ipv4::tcp::client_message_exec(args),
        FuncId::TcpServerMessage => ipv4::tcp::server_message_exec(args),
        FuncId::TcpClientSegment => ipv4::tcp::client_segment_exec(args),
        FuncId::TcpServerSegment => ipv4::tcp::server_segment_exec(args),
        FuncId::TcpClientRawSegment => ipv4::tcp::client_raw_segment_exec(args),
        FuncId::TcpServerRawSegment => ipv4::tcp::server_raw_segment_exec(args),
        FuncId::TcpClientHdr => ipv4::tcp::client_hdr_exec(args),
        FuncId::TcpServerHdr => ipv4::tcp::server_hdr_exec(args),
        FuncId::TcpClientAck => ipv4::tcp::client_ack_exec(args),
        FuncId::TcpServerAck => ipv4::tcp::server_ack_exec(args),
        FuncId::TcpClientHole => ipv4::tcp::client_hole_exec(args),
        FuncId::TcpServerHole => ipv4::tcp::server_hole_exec(args),
        FuncId::TcpClientClose => ipv4::tcp::client_close_exec(args),
        FuncId::TcpServerClose => ipv4::tcp::server_close_exec(args),
        FuncId::TcpClientReset => ipv4::tcp::client_reset_exec(args),
        FuncId::TcpServerReset => ipv4::tcp::server_reset_exec(args),
        FuncId::IcmpFlowFn => ipv4::icmp::flow_exec(args),
        FuncId::IcmpEcho => ipv4::icmp::echo_exec(args),
        FuncId::IcmpEchoReply => ipv4::icmp::echo_reply_exec(args),
        FuncId::EthFrame => eth::frame_exec(args),
        FuncId::EthFromIp => eth::from_ip_exec(args),
        FuncId::GreEncap => tunnel::gre_encap_exec(args),
        FuncId::GreSession => tunnel::gre_session_exec(args),
        FuncId::VxlanEncap => tunnel::vxlan_encap_exec(args),
        FuncId::VxlanDgramFn => tunnel::vxlan_dgram_exec(args),
        FuncId::VxlanSession => tunnel::vxlan_session_exec(args),
        FuncId::Erspan1Encap => tunnel::erspan1_encap_exec(args),
        FuncId::Erspan1Session => tunnel::erspan1_session_exec(args),
        FuncId::Erspan2Encap => tunnel::erspan2_encap_exec(args),
        FuncId::Erspan2Session => tunnel::erspan2_session_exec(args),
        FuncId::NbnsFlags => netbios::flags_exec(args),
        FuncId::NbNameEncode => netbios::encode_exec(args),
        FuncId::DhcpHdr => dhcp::hdr_exec(args),
        FuncId::DhcpOption => dhcp::option_exec(args),
        FuncId::TlsMessage => tls::message_exec(args),
    }
}

/// The resolution model of each module's table.
pub open spec fn module_model(id: ModuleId) -> Seq<(Seq<char>, crate::sym::SymKind)> {
    match id {
        ModuleId::Std => num::module_def_model(),
        ModuleId::Text => text::module_def_model(),
        ModuleId::Time => time::module_def_model(),
        ModuleId::Io => io::module_def_model(),
        ModuleId::Ipv4 => ipv4::module_def_model(),
        ModuleId::Ipv4Proto => ipv4::proto_module_model(),
        ModuleId::Udp => ipv4::udp::module_def_model(),
        ModuleId::Tcp => ipv4::tcp::module_def_model(),
        ModuleId::Icmp => ipv4::icmp::module_def_model(),
        ModuleId::Dns => dns::module_def_model(),
        ModuleId::DnsOpcode => dns::opcode_module_model(),
        ModuleId::DnsRcode => dns::rcode_module_model(),
        ModuleId::DnsRtype => dns::rtype_module_model(),
        ModuleId::DnsClass => dns::class_module_model(),
        ModuleId::Eth => eth::module_def_model(),
        ModuleId::EthType => eth::ethertype_module_model(),
        ModuleId::Gre => tunnel::gre_module_model(),
        ModuleId::Vxlan => tunnel::vxlan_module_model(),
        ModuleId::Erspan1 => tunnel::erspan1_module_model(),
        ModuleId::Erspan2 => tunnel::erspan2_module_model(),
        ModuleId::Netbios => netbios::module_def_model(),
        ModuleId::NbNs => netbios::ns_module_model(),
        ModuleId::NbNsOpcode => netbios::opcode_module_model(),
        ModuleId::NbNsRrtype => netbios::rrtype_module_model(),
        ModuleId::NbNsRcode => netbios::rcode_module_model(),
        ModuleId::NbName => netbios::name_module_model(),
        ModuleId::Dhcp => dhcp::module_def_model(),
        ModuleId::DhcpOpcode => dhcp::opcode_module_model(),
        ModuleId::DhcpMsgtype => dhcp::msgtype_module_model(),
        ModuleId::DhcpOpt => dhcp::opt_module_model(),
        ModuleId::Tls => tls::module_def_model(),
        ModuleId::TlsVersion => tls::version_module_model(),
        ModuleId::TlsContent => tls::content_module_model(),
        ModuleId::TlsHandshake => tls::handshake_module_model(),
        ModuleId::Arp => arp::module_def_model(),
        ModuleId::ArpHrd => arp::hrd_module_model(),
    }
}

/// The symbol table of a module: every lookup in it answers as the
/// module's resolution model says.
pub fn module_def(id: ModuleId) -> (r: Module)
    ensures
        forall|n: Seq<char>|
            crate::libapi::lookup_matches(
                #[trigger] crate::libapi::table_lookup(r.symtab@, n),
                crate::libapi::model_lookup(module_model(id), n),
            ),
{
    match id {
        ModuleId::Std => num::module_def(),
        ModuleId::Text => text::module_def(),
        ModuleId::Time => time::module_def(),
        ModuleId::Io => io::module_def(),
        ModuleId::Ipv4 => ipv4::module_def(),
        ModuleId::Ipv4Proto => ipv4::proto_module(),
        ModuleId::Udp => ipv4::udp::module_def(),
        ModuleId::Tcp => ipv4::tcp::module_def(),
        ModuleId::Icmp => ipv4::icmp::module_def(),
        ModuleId::Dns => dns::module_def(),
        ModuleId::DnsOpcode => dns::opcode_module(),
        ModuleId::DnsRcode => dns::rcode_module(),
        ModuleId::DnsRtype => dns::rtype_module(),
        ModuleId::DnsClass => dns::class_module(),
        ModuleId::Eth => eth::module_def(),
        ModuleId::EthType => eth::ethertype_module(),
        ModuleId::Gre => tunnel::gre_module(),
        ModuleId::Vxlan => tunnel::vxlan_module(),
        ModuleId::Erspan1 => tunnel::erspan1_module(),
        ModuleId::Erspan2 => tunnel::erspan2_module(),
        ModuleId::Netbios => netbios::module_def(),
        ModuleId::NbNs => netbios::ns_module(),
        ModuleId::NbNsOpcode => netbios::opcode_module(),
        ModuleId::NbNsRrtype => netbios::rrtype_module(),
        ModuleId::NbNsRcode => netbios::rcode_module(),
        ModuleId::NbName => netbios::name_module(),
        ModuleId::Dhcp => dhcp::module_def(),
        ModuleId::DhcpOpcode => dhcp::opcode_module(),
        ModuleId::DhcpMsgtype => dhcp::msgtype_module(),
        ModuleId::DhcpOpt => dhcp::opt_module(),
        ModuleId::Tls => tls::module_def(),
        ModuleId::TlsVersion => tls::version_module(),
        ModuleId::TlsContent => tls::content_module(),
        ModuleId::TlsHandshake => tls::handshake_module(),
        ModuleId::Arp => arp::module_def(),
        ModuleId::ArpHrd => arp::hrd_module(),
    }
}

/// The resolution model of each class's method table.
pub open spec fn class_model(id: ClassId) -> Seq<(Seq<char>, crate::sym::SymKind)> {
    match id {
        ClassId::BufIo => io::class_def_bufio_model(),
        ClassId::TcpFlow => ipv4::tcp::class_def_tcpflow_model(),
        ClassId::UdpFlow => ipv4::udp::class_def_udpflow_model(),
        ClassId::Icmp => ipv4::icmp::class_def_icmp_model(),
        ClassId::Gre => tunnel::class_def_gre_model(),
        ClassId::Vxlan => tunnel::class_def_vxlan_model(),
        ClassId::Erspan1 => tunnel::class_def_erspan1_model(),
        ClassId::Erspan2 => tunnel::class_def_erspan2_model(),
        ClassId::IpFrag => ipv4::class_def_ipfrag_model(),
    }
}

/// The method table of a class: every lookup in it answers as the
/// class's resolution model says.
pub fn class_def(id: ClassId) -> (r: ClassDef)
    ensures
        forall|n: Seq<char>|
            crate::libapi::lookup_matches(
                #[trigger] crate::libapi::table_lookup(r.symtab@, n),
                crate::libapi::model_lookup(class_model(id), n),
            ),
{
    match id {
        ClassId::BufIo => io::class_def_bufio(),
        ClassId::TcpFlow => ipv4::tcp::class_def_tcpflow(),
        ClassId::UdpFlow => ipv4::udp::class_def_udpflow(),
        ClassId::Icmp => ipv4::icmp::class_def_icmp(),
        ClassId::Gre => tunnel::class_def_gre(),
        ClassId::Vxlan => tunnel::class_def_vxlan(),
        ClassId::Erspan1 => tunnel::class_def_erspan1(),
        ClassId::Erspan2 => tunnel::class_def_erspan2(),
        ClassId::IpFrag => ipv4::class_def_ipfrag(),
    }
}

/// Which top-level names resolve, and to which module.
pub open spec fn toplevel_module_spec(name: Seq<char>) -> Option<ModuleId> {
    if name == "std"@ {
        Some(ModuleId::Std)
    } else if name == "text"@ {
        Some(ModuleId::Text)
    } else if name == "time"@ {
        Some(ModuleId::Time)
    } else if name == "io"@ {
        Some(ModuleId::Io)
    } else if name == "ipv4"@ {
        Some(ModuleId::Ipv4)
    } else if name == "dns"@ {
        Some(ModuleId::Dns)
    } else if name == "netbios"@ {
        Some(ModuleId::Netbios)
    } else if name == "dhcp"@ {
        Some(ModuleId::Dhcp)
    } else if name == "arp"@ {
        Some(ModuleId::Arp)
    } else if name == "tls"@ {
        Some(ModuleId::Tls)
    } else if name == "vxlan"@ {
        Some(ModuleId::Vxlan)
    } else if name == "gre"@ {
        Some(ModuleId::Gre)
    } else if name == "eth"@ {
        Some(ModuleId::Eth)
    } else if name == "erspan1"@ {
        Some(ModuleId::Erspan1)
    } else if name == "erspan2"@ {
        Some(ModuleId::Erspan2)
    } else {
        None
    }
}

/// Resolve a top-level module name to its table.
pub fn toplevel_module(name: &str) -> (r: Option<ModuleId>)
    ensures
        r == toplevel_module_spec(name@),
{
    if crate::libapi::str_eq(name, "std") {
        Some(ModuleId::Std)
    } else if crate::libapi::str_eq(name, "text") {
        Some(ModuleId::Text)
    } else if crate::libapi::str_eq(name, "time") {
        Some(ModuleId::Time)
    } else if crate::libapi::str_eq(name, "io") {
        Some(ModuleId::Io)
    } else if crate::libapi::str_eq(name, "ipv4") {
        Some(ModuleId::Ipv4)
    } else if crate::libapi::str_eq(name, "dns") {
        Some(ModuleId::Dns)
    } else if crate::libapi::str_eq(name, "netbios") {
        Some(ModuleId::Netbios)
    } else if crate::libapi::str_eq(name, "dhcp") {
        Some(ModuleId::Dhcp)
    } else if crate::libapi::str_eq(name, "arp") {
        Some(ModuleId::Arp)
    } else if crate::libapi::str_eq(name, "tls") {
        Some(ModuleId::Tls)
    } else if crate::libapi::str_eq(name, "vxlan") {
        Some(ModuleId::Vxlan)
    } else if crate::libapi::str_eq(name, "gre") {
        Some(ModuleId::Gre)
    } else if crate::libapi::str_eq(name, "eth") {
        Some(ModuleId::Eth)
    } else if crate::libapi::str_eq(name, "erspan1") {
        Some(ModuleId::Erspan1)
    } else if crate::libapi::str_eq(name, "erspan2") {
        Some(ModuleId::Erspan2)
    } else {
        None
    }
}

} // verus!
