use vstd::prelude::*;

use ark_serialize::SerializationError;

use crate::variant::{failure_text, Variant};

verus! {

/// Declares `ark_serialize::SerializationError`, the error that the
/// canonical encoder and decoder (`CanonicalSerialize::serialize_*`,
/// `CanonicalDeserialize::deserialize_*`) return. Nothing is assumed of its
/// contents: it is only carried inside a `Result` and then dropped.
#[verifier::external_type_specification]
#[verifier::external_body]
pub struct ExSerializationError(SerializationError);

/// Encoding a value failed. The cause is dropped on purpose; only the form
/// that was asked for is kept, which fixes the message.
#[derive(Clone, Copy, Debug, PartialEq, Eq, Structural)]
pub struct EncodeError {
    pub variant: Variant,
}

impl EncodeError {
    /// The fixed, non-sensitive message of this failure.
    pub fn message(&self) -> (r: &'static str)
        ensures
            r@ == failure_text(self.variant),
    {
        self.variant.failure_message()
    }
}

/// A received byte blob was not a value of the expected type: it holds the
/// offending bytes, for diagnostics, and the name of the expected type.
#[derive(Clone, Debug)]
pub struct DecodeError {
    pub bytes: Vec<u8>,
    pub expected: &'static str,
}

} // verus!
