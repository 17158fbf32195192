use vstd::prelude::*;

use ark_serialize::SerializationError;

use crate::adapter::{decode_outcome, encode_outcome};
use crate::collection::{unwrapped_seq, wrapped_seq};
use crate::error::EncodeError;
use crate::variant::Variant;

verus! {

/// Round trip in either form: when the encoder wrote `dst` in `variant`, the
/// sink receives exactly `dst`; and when the decoder of the same form reads
/// those bytes back to `v`, consuming all of them (the canonical encoding's
/// own promise), the adapter returns `v`.
pub proof fn lemma_round_trip<V>(
    variant: Variant,
    v: V,
    dst: Seq<u8>,
    decoded: Result<V, SerializationError>,
    unread: int,
)
    requires
        decoded == Ok::<V, SerializationError>(v),
        unread == 0,
    ensures
        encode_outcome(variant, Ok(()), dst) == Ok::<Seq<u8>, EncodeError>(dst),
        decode_outcome(encode_outcome(variant, Ok(()), dst)->Ok_0, decoded, unread) == Ok::<
            V,
            Seq<u8>,
        >(v),
{
}

/// Exact length: the bytes handed to the sink are as many as the encoder
/// wrote, and a blob is accepted only when the decoder consumed every byte
/// of it, so what is read back is exactly as long as what was written.
pub proof fn lemma_length_exact<V>(
    variant: Variant,
    written: Result<(), SerializationError>,
    dst: Seq<u8>,
    bytes: Seq<u8>,
    decoded: Result<V, SerializationError>,
    unread: int,
)
    ensures
        encode_outcome(variant, written, dst) is Ok ==> encode_outcome(
            variant,
            written,
            dst,
        )->Ok_0.len() == dst.len(),
        decode_outcome(bytes, decoded, unread) is Ok ==> unread == 0,
{
}

/// The two forms are handled alike: a successful encoding reaches the sink
/// unchanged whichever form produced it, so two forms whose canonical bytes
/// coincide give identical output, and decoding never depends on the form.
pub proof fn lemma_variant_independent(dst: Seq<u8>)
    ensures
        encode_outcome(Variant::Compressed, Ok(()), dst) == encode_outcome(
            Variant::Uncompressed,
            Ok(()),
            dst,
        ),
{
}

/// Corruption is reported, never passed on: when the decoder fails, or
/// succeeds while leaving bytes unread (a blob that is too long), the adapter
/// returns an error that carries the whole received blob.
pub proof fn lemma_corruption_rejected<V>(
    bytes: Seq<u8>,
    decoded: Result<V, SerializationError>,
    unread: int,
)
    requires
        decoded is Err || unread != 0,
    ensures
        decode_outcome(bytes, decoded, unread) == Err::<V, Seq<u8>>(bytes),
{
}

/// Collection fidelity: unwrapping what was wrapped gives back the same
/// values, element for element and in the same order, for any length.
pub proof fn lemma_collection_round_trip<T>(s: Seq<T>)
    ensures
        unwrapped_seq(wrapped_seq(s)) == s,
{
    assert(unwrapped_seq(wrapped_seq(s)) =~= s);
}

} // verus!
