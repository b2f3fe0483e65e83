//! Adapter for issuing calls into a host blockchain runtime from a deployed
//! contract: strongly typed call descriptors that mirror the host's binary
//! call-dispatch encoding, a verified encoder and decoder for that format with
//! a proved round-trip law, and the translation of the host's forwarding
//! outcome into a local result.
pub mod adapter;
pub mod codec;
pub mod decode;
pub mod encode;
pub mod laws;
pub mod primitives;
pub mod runtime_structs;
