//! Verified core of a small chat server and client: the account store, the
//! message model, the framing rules of the wire codecs and the decisions that
//! the connection loops take.

pub mod auth;
pub mod message;
pub mod text;
pub mod client;
pub mod connection;
pub mod codec;
pub mod bench;
