//! A framed, encrypted message transport: a length-prefixed wire format, a
//! session that moves once from a key-exchange handshake to transport mode,
//! the decisions that drive the three-message handshake, and the small
//! key-value protocol that the transport carries.

pub mod error;
pub mod frame;
pub mod engine;
pub mod handshake;
pub mod codec;
pub mod pb;
pub mod store;
