//! A minimal framed request/response service library.
//!
//! A server and a client exchange discrete byte messages over a reliable
//! byte stream.  Each message travels as a frame: a four-byte big-endian
//! length prefix followed by that many payload bytes.  A frame payload is
//! interpreted as a UTF-8 directive string; the one built-in directive,
//! `"gettime"`, asks the host for its current date and time, and every
//! other string is answered with `"invalid directive"`.
//!
//! The crate verifies the logic of that exchange: the frame codec
//! ([`codec`]), the directive processor ([`directive`]), the per-connection
//! session state machine ([`session`]), and the client side of a single
//! exchange ([`client`]).  The transport itself (sockets, reads, writes)
//! and the external time action live outside the library and hand it plain
//! bytes.

pub mod client;
pub mod codec;
pub mod directive;
pub mod session;
