//! A TFTP (RFC 1350) transfer engine: the packet codec, the per-transfer
//! state machine, and the decisions of the client and server sessions.
//!
//! Nothing here touches a socket or a file. A session is handed the bytes of
//! each datagram that arrived and the bytes that were read from the file, and
//! hands back the bytes to send and the bytes to store.

pub mod client;
pub mod server;
pub mod shared;
