//! Protocol engines for two raw-socket network tools: a netlink
//! interface inspector and an ICMP echo probe.
//!
//! The crate holds the wire-level logic the two tools share: exact binary
//! framing of kernel and RFC headers, the RFC 1071 checksum with its
//! self-verification property, correlation of asynchronous kernel replies
//! to the request that caused them, and the timer- and signal-driven
//! bookkeeping of an echo session.  Everything that touches a socket, a
//! timer or a signal lives outside this crate; the functions here map
//! plain values and byte buffers to plain values and byte buffers.

pub mod checksum;
pub mod link;
pub mod netlink;
pub mod packet;
pub mod ping;
pub mod route;
pub mod wire;
