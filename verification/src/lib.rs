//! Client side of the SOCKS5 opening exchange (RFC 1928, the IPv4 and
//! no-authentication subset), written without any I/O of its own.
//!
//! The crate encodes the two requests, decodes the two replies, and holds the
//! state machine that orders them. A driver owns the byte stream: it performs
//! the action the session asks for and reports back what happened.

pub mod connector;
pub mod model;
pub mod negotiator;
pub mod session;
pub mod status;
pub mod wire;
