//! Client side of the RDP device redirection channel ("rdpdr"): the wire
//! codec of its messages and the sequencing of the announce and capability
//! handshake, for redirecting one smartcard into a remote session.

pub mod wire;
pub mod error;
pub mod header;
pub mod announce;
pub mod capability;
pub mod capability_list;
pub mod client;
