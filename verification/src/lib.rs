//! The verified core of a local key-agreement daemon: a client connects to a
//! Unix socket and sends one length-prefixed request,
//! `calculate_agreement <slot> <peer_public_key_hex>`; a hardware token
//! computes the elliptic-curve shared secret against the non-exportable
//! private key in that slot; the daemon answers with one length-prefixed
//! `success <hex>` or `error <message>` response and closes the connection.
//!
//! This crate holds everything that decides: the wire framing, the request
//! grammar and its validation, the response rendering, and the state machine
//! that serves one connection exactly one exchange. The surrounding process
//! performs the socket and hardware I/O that the state machine asks for.

pub mod command;
pub mod conn;
pub mod frame;
pub mod hexcodec;
pub mod laws;
pub mod response;
pub mod token;
