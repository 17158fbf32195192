use vstd::prelude::*;

use ark_serialize::SerializationError;

use crate::error::{DecodeError, EncodeError};
use crate::variant::Variant;

verus! {

/// What is handed to the sink after the canonical encoder ran in `variant`
/// and wrote `dst`: the bytes themselves, unchanged, or the fixed failure.
pub open spec fn encode_outcome(
    variant: Variant,
    written: Result<(), SerializationError>,
    dst: Seq<u8>,
) -> Result<Seq<u8>, EncodeError> {
    match written {
        Ok(_) => Ok(dst),
        Err(_) => Err(EncodeError { variant }),
    }
}

/// Whether a blob is accepted: the decoder produced a value and read every
/// byte of it (`unread` is what it left over).
pub open spec fn decodes_exactly<V>(decoded: Result<V, SerializationError>, unread: int) -> bool {
    decoded is Ok && unread == 0
}

/// What the adapter returns for the blob `bytes`, given the decoder's result
/// on it: the decoded value, or the offending bytes.
pub open spec fn decode_outcome<V>(
    bytes: Seq<u8>,
    decoded: Result<V, SerializationError>,
    unread: int,
) -> Result<V, Seq<u8>> {
    if decodes_exactly(decoded, unread) {
        Ok(decoded->Ok_0)
    } else {
        Err(bytes)
    }
}

/// Turns the canonical encoder's result into what the sink receives.
///
/// `written` is what the encoder returned after writing `dst`. On success the
/// bytes pass through untouched; on failure the cause is dropped and the
/// fixed error of `variant` is reported instead, whatever `dst` holds.
pub fn emit_encoding(
    variant: Variant,
    written: Result<(), SerializationError>,
    dst: Vec<u8>,
) -> (r: Result<Vec<u8>, EncodeError>)
    ensures
        match r {
            Ok(bytes) => encode_outcome(variant, written, dst@) == Ok::<Seq<u8>, EncodeError>(
                bytes@,
            ),
            Err(e) => encode_outcome(variant, written, dst@) == Err::<Seq<u8>, EncodeError>(e),
        },
{
    match written {
        Ok(()) => Ok(dst),
        Err(_) => Err(EncodeError { variant }),
    }
}

/// Decides whether the blob `bytes` received from the source is a value.
///
/// `decoded` is what the canonical decoder returned when it read `bytes`,
/// and `unread` the number of bytes it left unread. The value is accepted
/// only when decoding succeeded and consumed the whole blob; otherwise the
/// error carries the blob and the name of the expected type.
pub fn accept_decoding<V>(
    bytes: &[u8],
    decoded: Result<V, SerializationError>,
    unread: usize,
    expected: &'static str,
) -> (r: Result<V, DecodeError>)
    ensures
        r is Ok <==> decodes_exactly(decoded, unread as int),
        match r {
            Ok(v) => decode_outcome(bytes@, decoded, unread as int) == Ok::<V, Seq<u8>>(v),
            Err(e) => decode_outcome(bytes@, decoded, unread as int) == Err::<V, Seq<u8>>(
                e.bytes@,
            ) && e.expected == expected,
        },
{
    match decoded {
        Ok(v) => {
            if unread == 0 {
                Ok(v)
            } else {
                Err(DecodeError { bytes: vstd::slice::slice_to_vec(bytes), expected })
            }
        },
        Err(_) => Err(DecodeError { bytes: vstd::slice::slice_to_vec(bytes), expected }),
    }
}

} // verus!
