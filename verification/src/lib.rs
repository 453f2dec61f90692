//! Verified core of a SOCKS5 proxy.
//!
//! The library holds the protocol logic: method negotiation, request
//! parsing, address encoding and decoding, reply framing, and the
//! session and relay state machines. All socket I/O lives outside,
//! in a thin driver that feeds bytes and dial outcomes to the state
//! machines and performs the actions they return.

pub mod wire;
pub mod codec;
pub mod handshake;
pub mod reply;
pub mod session;
pub mod relay;
