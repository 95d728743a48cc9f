pub mod dhcp;
pub mod erspan1;
pub mod erspan2;
pub mod gre;
pub mod icmp4;
pub mod ip4;
pub mod tcp4;
pub mod udp4;
pub mod vxlan;

pub use dhcp::Dhcp;
pub use erspan1::{Erspan1Flow, Erspan1Frame};
pub use erspan2::{Erspan2Flow, Erspan2Frame};
pub use gre::{GreFlow, GreFrame};
pub use icmp4::{IcmpDgram, IcmpFlow};
pub use ip4::{IpDgram, IpFrag};
pub use tcp4::{TcpSeg, TcpFlow, TcpState};
pub use udp4::{UdpDgram, UdpFlow};
pub use vxlan::{VxlanDgram, VxlanFlow};
