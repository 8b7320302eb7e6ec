//! Bindings to the IEX market data protocols: the IEX Transport Protocol and the TOPS and
//! DEEP+ message formats carried in it, parsed from bytes into plain values.
//!
//! Each protocol version has a module of its own (`transport_v1`, `tops_v1`,
//! `deep_plus_v1`); the `*_latest` names follow the newest version. New protocol versions
//! that only append fields to messages or add message types stay readable: bytes after a
//! known message are ignored and unknown message types are reported as such.

/// Types used in all protocols.
pub mod common;
pub mod endian;
pub mod wire;
pub mod wire_integer;

pub mod transport_v1;
pub mod tops_v1;
pub mod deep_plus_v1;

pub use transport_v1 as transport_latest;
pub use tops_v1 as tops_latest;
pub use deep_plus_v1 as deep_plus_latest;
