//! A length-prefixed buffer handoff protocol between a sandboxed guest
//! module and its embedding host.
//!
//! The guest side builds an output buffer laid out as a 4-byte
//! little-endian length followed by that many payload bytes; the host
//! side reads the length and the payload back out of the guest's linear
//! memory and decodes the payload as UTF-8 text or as a structured
//! record with one string field.

pub mod codec;
pub mod producer;
pub mod reader;
pub mod roundtrip;
pub mod wire;
