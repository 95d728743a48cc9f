//! Resynth: a packet-synthesis library.
//!
//! Scripts declare endpoints and invoke protocol builders; the interpreter
//! executes statements and yields timestamped wire-format packets destined
//! for a pcap file.

pub mod args;
pub mod ast;
pub mod err;
pub mod ezpkt;
pub mod libapi;
pub mod loc;
pub mod object;
pub mod pkt;
pub mod program;
pub mod stdlib;
pub mod strbuf;
pub mod sym;
pub mod val;

pub use err::{Error, ErrorLoc};
pub use loc::Loc;
pub use strbuf::{Buf, StringLiteralParseError};
