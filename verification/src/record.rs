//! One partition's proof record and the trusted boundary around
//! bellperson's single-record codec.
//!
//! A record pairs an already-decoded Groth16 proof with the canonical
//! fixed-size byte window it was decoded from, so every statement about
//! encoding and decoding can be made over plain bytes.

use vstd::prelude::*;

use rayon::iter::{IntoParallelRefIterator, ParallelIterator};

use crate::error::Error;
use crate::GROTH_PROOF_SIZE;

verus! {

/// Carries `bellperson::groth16::Proof<blstrs::Bls12>`, the decoded
/// Groth16 proof of one circuit partition. The proof is opaque to the
/// verifier; the field is public so that unverified callers can wrap a
/// proof they hold and unwrap one they get back.
#[verifier::external_body]
pub struct GrothProof {
    pub inner: bellperson::groth16::Proof<blstrs::Bls12>,
}

/// Carries `bellperson::groth16::VerifyingKey<blstrs::Bls12>`, the
/// externally owned key the aggregated proofs are checked against. It
/// is opaque to the verifier and only ever borrowed, never inspected,
/// mutated or copied; the field is public for unverified callers.
#[verifier::external_body]
pub struct GrothVerifyingKey {
    pub inner: bellperson::groth16::VerifyingKey<blstrs::Bls12>,
}

/// Whether `bellperson::groth16::Proof::read` accepts this byte window
/// as the encoding of one proof record. Acceptance depends on the bytes
/// alone: the three compressed points must decompress onto the curve,
/// lie in the right subgroup, and none may be the point at infinity.
pub uninterp spec fn record_valid(w: Seq<u8>) -> bool;

/// A byte window decodes to a proof record iff it has the fixed record
/// size and holds a valid encoding.
pub open spec fn window_ok(w: Seq<u8>) -> bool {
    w.len() == GROTH_PROOF_SIZE && record_valid(w)
}

/// One partition's proof together with the canonical encoding it was
/// decoded from. The view of a record is that byte window.
pub struct ProofRecord {
    bytes: Vec<u8>,
    proof: GrothProof,
}

impl View for ProofRecord {
    type V = Seq<u8>;

    closed spec fn view(&self) -> Seq<u8> {
        self.bytes@
    }
}

impl ProofRecord {
    /// Every record holds exactly the fixed-size window of bytes that
    /// bellperson accepted as the encoding of its proof.
    #[verifier::type_invariant]
    pub open spec fn wf(self) -> bool {
        window_ok(self@)
    }

    /// Decodes one fixed-size byte window into a proof record.
    ///
    /// Succeeds iff the window has the fixed record size and holds a
    /// valid encoding; the record then views as exactly that window.
    pub fn decode(window: &[u8]) -> (r: Result<ProofRecord, Error>)
        ensures
            r is Ok <==> window_ok(window@),
            (r matches Ok(rec) ==> rec@ == window@),
            (r matches Err(e) ==> e == Error::Decode),
    {
        if window.len() != GROTH_PROOF_SIZE {
            Err(Error::Decode)
        } else {
            decode_window(window)
        }
    }

    /// Wraps an already-decoded bellperson proof as a record by encoding
    /// it and revalidating the encoding. Fails iff bellperson itself
    /// refuses the proof's own encoding, as it does for a proof holding
    /// a point at infinity.
    pub fn from_proof(p: &GrothProof) -> (r: Result<ProofRecord, Error>)
        ensures
            (r matches Ok(rec) ==> rec@.len() == GROTH_PROOF_SIZE && record_valid(rec@)),
            (r matches Err(e) ==> e == Error::Decode),
    {
        let encoding = proof_encoding(p);
        ProofRecord::decode(encoding.as_slice())
    }

    /// The record's canonical encoded bytes.
    pub fn as_bytes(&self) -> (r: &Vec<u8>)
        ensures
            r@ == self@,
    {
        &self.bytes
    }

    /// The decoded proof this record carries.
    pub fn groth_proof(&self) -> &GrothProof {
        &self.proof
    }
}

/// Relies on `bellperson::groth16::Proof::read`: whether a fixed-size
/// window parses into a proof depends on the bytes alone, and on
/// success the returned record keeps the very window it was given.
#[verifier::external_body]
fn decode_window(window: &[u8]) -> (r: Result<ProofRecord, Error>)
    requires
        window@.len() == GROTH_PROOF_SIZE,
    ensures
        r is Ok <==> record_valid(window@),
        (r matches Ok(rec) ==> rec@ == window@),
        (r matches Err(e) ==> e == Error::Decode),
{
    match bellperson::groth16::Proof::read(window) {
        Ok(p) => Ok(ProofRecord { bytes: window.to_vec(), proof: GrothProof { inner: p } }),
        Err(_) => Err(Error::Decode),
    }
}

/// Relies on `bellperson::groth16::Proof::write` together with the
/// infallible `std::io::Write` impl for `Vec<u8>`: writing a record's
/// proof appends its compressed encoding, and because blst accepts only
/// canonical compressed encodings, re-compressing the decoded points
/// reproduces byte for byte the window the record was decoded from.
#[verifier::external_body]
pub(crate) fn append_record_encoding(rec: &ProofRecord, out: &mut Vec<u8>) -> (r: Result<
    (),
    Error,
>)
    ensures
        r is Ok,
        final(out)@ == old(out)@ + rec@,
{
    match rec.proof.inner.write(&mut *out) {
        Ok(()) => Ok(()),
        Err(_) => Err(Error::Io),
    }
}

/// Relies on `bellperson::groth16::Proof::write`: encoding a proof into
/// a fresh in-memory buffer writes two compressed G1 points of 48 bytes
/// and one compressed G2 point of 96 bytes, the fixed record size.
#[verifier::external_body]
fn proof_encoding(p: &GrothProof) -> (out: Vec<u8>)
    ensures
        out@.len() == GROTH_PROOF_SIZE,
{
    let mut out = Vec::new();
    let _ = p.inner.write(&mut out);
    out
}

/// Relies on rayon's indexed parallel iterators: collecting mapped
/// items into `Result<Vec<_>, _>` reassembles them in their original
/// index order, never in completion order, and yields the error of a
/// failing item otherwise. The closure only calls the verified
/// `ProofRecord::decode` on each window.
#[verifier::external_body]
pub(crate) fn decode_windows_parallel(windows: &Vec<Vec<u8>>) -> (r: Result<
    Vec<ProofRecord>,
    Error,
>)
    ensures
        r is Ok <==> (forall|i: int|
            0 <= i < windows@.len() ==> window_ok(#[trigger] windows@[i]@)),
        (r matches Ok(recs) ==> recs@.len() == windows@.len() && (forall|i: int|
            0 <= i < windows@.len() ==> #[trigger] recs@[i]@ == windows@[i]@)),
        (r matches Err(e) ==> e == Error::Decode),
{
    windows.par_iter().map(|w| ProofRecord::decode(w.as_slice())).collect()
}

} // verus!
