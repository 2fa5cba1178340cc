//! End-to-end tests of the container: construction from bytes and
//! streams, serialisation, error reporting and the codec's laws on
//! concrete values.

use blstrs::{G1Affine, G1Projective, G2Affine, G2Projective, Scalar};
use group::prime::PrimeCurveAffine;
use group::Group;

use multi_proof::error::Error;
use multi_proof::record::{GrothProof, GrothVerifyingKey, ProofRecord};
use multi_proof::{MultiProof, GROTH_PROOF_SIZE};

fn g1(k: u64) -> G1Affine {
    G1Affine::from(G1Projective::generator() * Scalar::from(k))
}

fn g2(k: u64) -> G2Affine {
    G2Affine::from(G2Projective::generator() * Scalar::from(k))
}

/// A valid, distinguishable 192-byte record: two compressed G1 points
/// and one compressed G2 point, none the identity, varying with `k`.
fn record_bytes(k: u64) -> Vec<u8> {
    let mut v: Vec<u8> = Vec::new();
    v.extend_from_slice(&g1(2 * k + 1).to_compressed());
    v.extend_from_slice(&g2(k + 1).to_compressed());
    v.extend_from_slice(&g1(3 * k + 2).to_compressed());
    v
}

fn buffer_of(n: u64) -> Vec<u8> {
    let mut v: Vec<u8> = Vec::new();
    for k in 0..n {
        v.extend_from_slice(&record_bytes(k));
    }
    v
}

fn err_of<T>(r: Result<T, Error>) -> Error {
    match r {
        Ok(_) => panic!("expected an error"),
        Err(e) => e,
    }
}

fn test_key() -> GrothVerifyingKey {
    GrothVerifyingKey {
        inner: bellperson::groth16::VerifyingKey {
            alpha_g1: g1(1),
            beta_g1: g1(2),
            beta_g2: g2(1),
            gamma_g2: g2(2),
            delta_g1: g1(3),
            delta_g2: g2(3),
            ic: vec![g1(4)],
        },
    }
}

#[test]
fn record_size_is_fixed() {
    assert_eq!(GROTH_PROOF_SIZE, 192);
    assert_eq!(record_bytes(0).len(), GROTH_PROOF_SIZE);
}

#[test]
fn three_records_round_trip_exactly() {
    let key = test_key();
    let buf = buffer_of(3);
    assert_eq!(buf.len(), 576);
    let mp = MultiProof::new_from_bytes(Some(3), &buf, &key).unwrap();
    assert_eq!(mp.len(), 3);
    assert!(!mp.is_empty());
    for (i, rec) in mp.circuit_proofs.iter().enumerate() {
        assert_eq!(rec.as_bytes().as_slice(), &buf[i * 192..(i + 1) * 192]);
    }
    assert_eq!(mp.to_vec().unwrap(), buf);
}

#[test]
fn order_is_preserved_under_parallel_decode() {
    let key = test_key();
    let n: u64 = 8;
    let buf = buffer_of(n);
    for _ in 0..20 {
        let mp = MultiProof::new_from_bytes(Some(n as usize), &buf, &key).unwrap();
        assert_eq!(mp.len(), n as usize);
        for i in 0..n as usize {
            let window = &buf[i * 192..(i + 1) * 192];
            let alone = ProofRecord::decode(window).unwrap();
            assert_eq!(mp.circuit_proofs[i].as_bytes(), alone.as_bytes());
            assert_eq!(mp.circuit_proofs[i].as_bytes().as_slice(), window);
        }
    }
}

#[test]
fn default_partition_count_is_one() {
    let key = test_key();
    let buf = buffer_of(1);
    let none = MultiProof::new_from_bytes(None, &buf, &key).unwrap();
    let one = MultiProof::new_from_bytes(Some(1), &buf, &key).unwrap();
    assert_eq!(none.len(), 1);
    assert_eq!(one.len(), 1);
    assert_eq!(none.to_vec().unwrap(), one.to_vec().unwrap());

    let empty: Vec<u8> = Vec::new();
    let err_none = err_of(MultiProof::new_from_bytes(None, &empty, &key));
    let err_one = err_of(MultiProof::new_from_bytes(Some(1), &empty, &key));
    assert_eq!(err_none, Error::PartitionMismatch { expected: 1, actual: 0 });
    assert_eq!(err_none, err_one);
}

#[test]
fn excess_tail_is_ignored() {
    let key = test_key();
    let mut buf = buffer_of(3);
    let exact = buf.clone();
    buf.extend_from_slice(&[0xabu8; 100]);
    let with_tail = MultiProof::new_from_bytes(Some(3), &buf, &key).unwrap();
    let truncated = MultiProof::new_from_bytes(Some(3), &exact, &key).unwrap();
    assert_eq!(with_tail.to_vec().unwrap(), exact);
    assert_eq!(with_tail.to_vec().unwrap(), truncated.to_vec().unwrap());

    let mut whole_extra_window = buffer_of(3);
    whole_extra_window.extend_from_slice(&record_bytes(9));
    let mp = MultiProof::new_from_bytes(Some(3), &whole_extra_window, &key).unwrap();
    assert_eq!(mp.len(), 3);
    assert_eq!(mp.to_vec().unwrap(), exact);
}

#[test]
fn insufficient_data_reports_both_counts() {
    let key = test_key();
    let buf = buffer_of(2);
    let err = err_of(MultiProof::new_from_bytes(Some(3), &buf, &key));
    assert_eq!(err, Error::PartitionMismatch { expected: 3, actual: 2 });

    let empty: Vec<u8> = Vec::new();
    let err = err_of(MultiProof::new_from_bytes(Some(1), &empty, &key));
    assert_eq!(err, Error::PartitionMismatch { expected: 1, actual: 0 });
}

#[test]
fn invalid_window_is_a_decode_error() {
    let key = test_key();
    let garbage = vec![0xffu8; 192];
    let err = err_of(MultiProof::new_from_bytes(Some(1), &garbage, &key));
    assert_eq!(err, Error::Decode);

    let mut second_bad = buffer_of(1);
    second_bad.extend_from_slice(&[0xffu8; 192]);
    let err = err_of(MultiProof::new_from_bytes(Some(2), &second_bad, &key));
    assert_eq!(err, Error::Decode);

    assert_eq!(err_of(ProofRecord::decode(&garbage)), Error::Decode);
    assert_eq!(err_of(ProofRecord::decode(&garbage[0..50])), Error::Decode);
}

#[test]
fn empty_container_encodes_to_nothing() {
    let key = test_key();
    let mp = MultiProof::new(Vec::new(), &key);
    assert_eq!(mp.len(), 0);
    assert!(mp.is_empty());
    assert_eq!(mp.to_vec().unwrap(), Vec::<u8>::new());

    let empty: Vec<u8> = Vec::new();
    let mp = MultiProof::new_from_bytes(Some(0), &empty, &key).unwrap();
    assert_eq!(mp.len(), 0);
    assert!(mp.is_empty());

    let mut no_room: &mut [u8] = &mut [];
    mp.write(&mut no_room).unwrap();
}

#[test]
fn encode_then_decode_gives_back_the_records() {
    let key = test_key();
    let buf = buffer_of(4);
    let mp = MultiProof::new_from_bytes(Some(4), &buf, &key).unwrap();
    let encoded = mp.to_vec().unwrap();
    let again = MultiProof::new_from_bytes(Some(4), &encoded, &key).unwrap();
    assert_eq!(again.len(), 4);
    for i in 0..4 {
        assert_eq!(
            again.circuit_proofs[i].as_bytes(),
            mp.circuit_proofs[i].as_bytes()
        );
    }
    assert_eq!(again.to_vec().unwrap(), encoded);
}

#[test]
fn write_into_a_sink_matches_to_vec() {
    let key = test_key();
    let buf = buffer_of(2);
    let mp = MultiProof::new_from_bytes(Some(2), &buf, &key).unwrap();
    let mut sink: Vec<u8> = Vec::new();
    mp.write(&mut sink).unwrap();
    assert_eq!(sink, mp.to_vec().unwrap());
    assert_eq!(sink, buf);
}

#[test]
fn full_sink_is_an_io_error() {
    let key = test_key();
    let buf = buffer_of(1);
    let mp = MultiProof::new_from_bytes(Some(1), &buf, &key).unwrap();
    let mut small = [0u8; 10];
    let mut sink: &mut [u8] = &mut small;
    assert_eq!(err_of(mp.write(&mut sink)), Error::Io);
}

#[test]
fn reader_construction_matches_bytes_construction() {
    let key = test_key();
    let buf = buffer_of(3);
    let mp = MultiProof::new_from_reader(Some(3), buf.as_slice(), &key).unwrap();
    assert_eq!(mp.len(), 3);
    assert_eq!(mp.to_vec().unwrap(), buf);

    let short = &buf[0..400];
    let err = err_of(MultiProof::new_from_reader(Some(3), short, &key));
    assert_eq!(err, Error::PartitionMismatch { expected: 3, actual: 2 });
}

#[test]
fn wrapping_a_decoded_proof_reproduces_its_bytes() {
    let key = test_key();
    let buf = buffer_of(1);
    let mp = MultiProof::new_from_bytes(Some(1), &buf, &key).unwrap();
    let rec = &mp.circuit_proofs[0];
    let rewrapped = ProofRecord::from_proof(rec.groth_proof()).unwrap();
    assert_eq!(rewrapped.as_bytes(), rec.as_bytes());
    assert_eq!(rewrapped.as_bytes().as_slice(), &buf[..]);
}

#[test]
fn wrapping_a_raw_proof_encodes_canonically() {
    let p = GrothProof {
        inner: bellperson::groth16::Proof { a: g1(5), b: g2(7), c: g1(11) },
    };
    let rec = ProofRecord::from_proof(&p).unwrap();
    let mut expected = g1(5).to_compressed().to_vec();
    expected.extend_from_slice(&g2(7).to_compressed());
    expected.extend_from_slice(&g1(11).to_compressed());
    assert_eq!(rec.as_bytes().as_slice(), &expected[..]);
}

#[test]
fn identity_point_proof_is_refused() {
    let p = GrothProof {
        inner: bellperson::groth16::Proof { a: G1Affine::identity(), b: g2(1), c: g1(1) },
    };
    assert_eq!(err_of(ProofRecord::from_proof(&p)), Error::Decode);
}
