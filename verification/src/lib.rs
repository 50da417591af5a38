//! Tolerant decoder and normalizer for JSON-RPC transaction objects.
//!
//! Different node implementations disagree on which fields a transaction
//! object carries and how numbers are encoded. This crate resolves a wire
//! document against a fixed precedence of candidate shapes, normalizes the
//! resolved shape into one canonical record, and re-encodes canonical
//! records back into exactly one wire shape.
//!
//! - [`wire`] holds the wire document and the candidate shapes.
//! - [`model`] holds the canonical record and its read accessors.
//! - [`hexnum`] and [`parity`] hold the shared field parsers and printers.
//! - [`codec`] holds the resolver, the normalizer and the re-encoder.
//! - [`laws`] states and proves what the whole pipeline guarantees.

pub mod codec;
pub mod hexnum;
pub mod laws;
pub mod model;
pub mod parity;
pub mod wire;
