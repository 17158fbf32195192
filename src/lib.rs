//! Carries values with a canonical byte encoding (curve points, field
//! elements, pairing outputs) through a structured serialization framework.
//!
//! A value is encoded in one of two canonical forms, compressed or
//! uncompressed, and the resulting bytes travel as one opaque byte blob.
//! This crate holds the adapter's decisions: which error an encoding failure
//! becomes, when a received blob is accepted as a value, and how a sequence
//! of values is wrapped element by element and unwrapped again.

pub mod variant;
pub mod error;
pub mod adapter;
pub mod collection;
pub mod laws;

pub use adapter::{accept_decoding, emit_encoding};
pub use collection::{unwrap_all, wrap_all, Wrapped};
pub use error::{DecodeError, EncodeError};
pub use variant::Variant;
