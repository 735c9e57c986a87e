//! Trivial File Transfer Protocol (RFC 1350): the packet codec, the netascii
//! text transform and the lockstep transfer session, with machine-checked
//! contracts.
//!
//! The crate performs no I/O. A driver owns the sockets and the files; it
//! hands received datagrams, elapsed timers and file chunks to a
//! [`session::Session`] and carries out the [`session::Action`] that comes back.

pub mod client;
pub mod decodedpacket;
pub mod netascii;
pub mod packet;
pub mod packet_laws;
pub mod server;
pub mod session;
pub mod session_laws;
pub mod transfer_laws;
pub mod wire;
