//! Control-table abstraction for MX-class serial servo actuators.
//!
//! The crate describes the registers of a byte-addressable control table,
//! frames the bus requests that read and write them, decodes the little-endian
//! words that come back, and packs the sign-magnitude words used for oriented
//! speed and load. Every function carries a machine-checked contract.

pub mod error;
pub mod accessor;
pub mod codec;
pub mod combined;
pub mod mx_v2;
pub mod schema;
pub mod wire;
