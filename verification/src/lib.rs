//! Client side of the SOCKS5 negotiation (RFC 1928): the wire codec for
//! addresses, relay requests and relay responses, and the state machine that
//! drives method negotiation and the CONNECT exchange.
//!
//! The library performs no I/O. A driver owns the byte stream, performs each
//! [`handshake::Action`] and hands the outcome back as a [`handshake::Event`].

pub mod address;
pub mod error;
pub mod handshake;
pub mod message;

pub use address::Address;
pub use error::{AddressEncodingError, DecodeError, Failure, Reply};
pub use handshake::{Action, Event, State};
pub use message::{Request, Response};
