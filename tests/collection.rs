use ark_bls12_381::G1Affine;
use ark_serialize::{CanonicalDeserialize, CanonicalSerialize};
use ark_std::UniformRand;

use ark_serde_compat::{accept_decoding, emit_encoding, unwrap_all, wrap_all, Variant, Wrapped};

fn points(n: usize) -> Vec<G1Affine> {
    let mut rng = rand::thread_rng();
    (0..n).map(|_| G1Affine::rand(&mut rng)).collect()
}

/// Each element through the compressed adapter, as the sequence lifter does.
fn through_adapter(values: &[G1Affine]) -> Vec<G1Affine> {
    let blobs: Vec<Vec<u8>> = wrap_all(values)
        .iter()
        .map(|w| {
            let mut dst = Vec::new();
            let written = w.0.serialize_compressed(&mut dst);
            emit_encoding(Variant::Compressed, written, dst).unwrap()
        })
        .collect();
    let wrapped: Vec<Wrapped<G1Affine>> = blobs
        .iter()
        .map(|b| {
            let mut reader = &b[..];
            let decoded = G1Affine::deserialize_compressed(&mut reader);
            Wrapped(accept_decoding(b, decoded, reader.len(), "G1Affine").unwrap())
        })
        .collect();
    unwrap_all(wrapped)
}

#[test]
fn empty_sequence_round_trips() {
    let v: Vec<G1Affine> = Vec::new();
    assert_eq!(through_adapter(&v), v);
    assert!(wrap_all(&v).is_empty());
}

#[test]
fn single_element_round_trips() {
    let v = points(1);
    assert_eq!(through_adapter(&v), v);
}

#[test]
fn many_elements_round_trip_in_order() {
    let v = points(5);
    assert_eq!(through_adapter(&v), v);
}

#[test]
fn wrapping_keeps_order() {
    let v = vec![3u64, 1, 4, 1, 5];
    let w = wrap_all(&v);
    assert_eq!(w.len(), 5);
    assert_eq!(w[2].0, 4);
    assert_eq!(unwrap_all(w), v);
}
