//! Container and binary codec for a partitioned zero-knowledge proof.
//!
//! A storage-proving statement may be split into several independent
//! circuit partitions, each yielding one fixed-size Groth16 proof. This
//! crate aggregates those proofs into one ordered container, `MultiProof`,
//! and fixes the binary encoding used to persist and transmit it: the
//! records' fixed-size encodings concatenated back to back, with no
//! header, length prefix or padding.

use vstd::prelude::*;

pub mod codec;
pub mod error;
pub mod record;

use vstd::arithmetic::div_mod::{lemma_fundamental_div_mod, lemma_mod_division_less_than_divisor};

use crate::codec::{
    concat_records, construct_ok, requested_count, window_at, window_count, windows_valid_up_to,
};
use crate::error::Error;
use crate::record::{
    append_record_encoding, decode_windows_parallel, record_valid, window_ok, GrothVerifyingKey,
    ProofRecord,
};

verus! {

broadcast use vstd::slice::axiom_spec_len;

/// Number of bytes in the fixed-size encoding of one Groth16 proof
/// record over BLS12-381: two compressed G1 points of 48 bytes each and
/// one compressed G2 point of 96 bytes.
pub const GROTH_PROOF_SIZE: usize = 192;

/// An ordered collection of proof records, one per circuit partition,
/// together with a borrowed reference to the verifying key the proofs
/// are checked against.
///
/// Record i corresponds to partition i of the proven statement; the
/// order is semantically significant and is never changed. The key is
/// owned by the caller and never copied or outlived.
pub struct MultiProof<'a> {
    /// The partitions' proof records, in partition order.
    pub circuit_proofs: Vec<ProofRecord>,
    /// The externally owned verifying key, borrowed and never inspected.
    pub verifying_key: &'a GrothVerifyingKey,
}

impl<'a> MultiProof<'a> {
    /// The container's binary encoding: its records' windows, in order.
    pub open spec fn encoding(self) -> Seq<u8> {
        concat_records(self.circuit_proofs@)
    }

    /// Aggregates an already-decoded ordered sequence of records. No
    /// count validation happens here; the caller composed the sequence.
    pub fn new(groth_proofs: Vec<ProofRecord>, verifying_key: &'a GrothVerifyingKey) -> (r: Self)
        ensures
            r.circuit_proofs@ == groth_proofs@,
            r.verifying_key == verifying_key,
    {
        MultiProof { circuit_proofs: groth_proofs, verifying_key }
    }

    /// Reads the whole stream into a buffer, then decodes it as
    /// `new_from_bytes` does. Fails with an I/O error if the stream
    /// cannot be fully read.
    pub fn new_from_reader<R: std::io::Read>(
        partitions: Option<usize>,
        reader: R,
        verifying_key: &'a GrothVerifyingKey,
    ) -> (r: Result<Self, Error>)
        ensures
            (r matches Ok(mp) ==> mp.circuit_proofs@.len() == requested_count(partitions)
                && mp.verifying_key == verifying_key),
    {
        let num_proofs = partitions.unwrap_or(1);
        let mut proof_vec: Vec<u8> = match num_proofs.checked_mul(GROTH_PROOF_SIZE) {
            Some(cap) => Vec::with_capacity(cap),
            None => Vec::new(),
        };
        let mut reader = reader;
        match read_stream_to_end(&mut reader, &mut proof_vec) {
            Ok(_) => Self::new_from_bytes(partitions, proof_vec.as_slice(), verifying_key),
            Err(e) => Err(e),
        }
    }

    /// Decodes a buffer of concatenated fixed-size windows into a
    /// container of `partitions` records (one when unspecified).
    ///
    /// The first `partitions` complete windows are decoded in parallel,
    /// and the result keeps the windows' order: record i is the decode
    /// of window i. Trailing bytes beyond the requested windows,
    /// including a final partial window, are ignored. A window that
    /// does not decode fails the whole construction with a decode
    /// error; a buffer with fewer complete windows than requested fails
    /// with a mismatch error reporting both counts.
    pub fn new_from_bytes(
        partitions: Option<usize>,
        proof_bytes: &[u8],
        verifying_key: &'a GrothVerifyingKey,
    ) -> (r: Result<Self, Error>)
        ensures
            r is Ok <==> construct_ok(requested_count(partitions), proof_bytes@),
            (match r {
                Ok(mp) => {
                    &&& mp.circuit_proofs@.len() == requested_count(partitions)
                    &&& (forall|i: int|
                        0 <= i < mp.circuit_proofs@.len()
                            ==> (#[trigger] mp.circuit_proofs@[i])@ == window_at(proof_bytes@, i))
                    &&& mp.verifying_key == verifying_key
                },
                Err(e) => match e {
                    Error::Decode => exists|i: int|
                        {
                            &&& 0 <= i < requested_count(partitions)
                            &&& i < window_count(proof_bytes@)
                            &&& !record_valid(#[trigger] window_at(proof_bytes@, i))
                        },
                    Error::PartitionMismatch { expected, actual } => {
                        &&& expected == requested_count(partitions)
                        &&& actual == window_count(proof_bytes@)
                        &&& window_count(proof_bytes@) < requested_count(partitions)
                        &&& windows_valid_up_to(proof_bytes@, window_count(proof_bytes@) as int)
                    },
                    Error::Io => false,
                },
            }),
    {
        let num_proofs = partitions.unwrap_or(1);
        let avail = proof_bytes.len() / GROTH_PROOF_SIZE;
        let take_count = if num_proofs < avail {
            num_proofs
        } else {
            avail
        };
        proof {
            lemma_fundamental_div_mod(proof_bytes@.len() as int, GROTH_PROOF_SIZE as int);
            lemma_mod_division_less_than_divisor(
                proof_bytes@.len() as int,
                GROTH_PROOF_SIZE as int,
            );
        }
        let mut windows: Vec<Vec<u8>> = Vec::new();
        let mut i: usize = 0;
        while i < take_count
            invariant
                i <= take_count,
                take_count <= avail,
                avail == window_count(proof_bytes@),
                avail * GROTH_PROOF_SIZE <= proof_bytes@.len(),
                proof_bytes@.len() <= usize::MAX,
                windows@.len() == i,
                forall|j: int|
                    0 <= j < i ==> (#[trigger] windows@[j])@ == window_at(proof_bytes@, j),
            decreases take_count - i,
        {
            proof {
                assert(i * GROTH_PROOF_SIZE + GROTH_PROOF_SIZE <= avail * GROTH_PROOF_SIZE)
                    by (nonlinear_arith)
                    requires
                        i < avail,
                ;
            }
            let start = i * GROTH_PROOF_SIZE;
            let end = start + GROTH_PROOF_SIZE;
            let w = vstd::slice::slice_to_vec(vstd::slice::slice_subrange(
                proof_bytes,
                start,
                end,
            ));
            windows.push(w);
            i += 1;
        }
        let decoded = match decode_windows_parallel(&windows) {
            Ok(d) => d,
            Err(e) => {
                proof {
                    let b = proof_bytes@;
                    let wlen = windows@.len() as int;
                    let j = choose|j: int|
                        0 <= j < wlen && !window_ok(#[trigger] windows@[j]@);
                    assert(windows@[j]@ == window_at(b, j));
                    assert(window_at(b, j).len() == GROTH_PROOF_SIZE);
                    assert(!record_valid(window_at(b, j)));
                    assert(!construct_ok(requested_count(partitions), b));
                }
                return Err(e);
            },
        };
        if decoded.len() != num_proofs {
            proof {
                let b = proof_bytes@;
                assert forall|j: int| 0 <= j < window_count(b) implies record_valid(
                    #[trigger] window_at(b, j),
                ) by {
                    assert(window_ok(windows@[j]@));
                    assert(windows@[j]@ == window_at(b, j));
                }
            }
            return Err(Error::PartitionMismatch { expected: num_proofs, actual: decoded.len() });
        }
        proof {
            let b = proof_bytes@;
            let n = requested_count(partitions);
            assert(decoded@.len() == windows@.len());
            assert(take_count == n);
            assert forall|j: int| 0 <= j < n implies record_valid(
                #[trigger] window_at(b, j),
            ) by {
                assert(window_ok(windows@[j]@));
                assert(windows@[j]@ == window_at(b, j));
            }
            assert(construct_ok(n, b));
            assert forall|j: int| 0 <= j < n implies (#[trigger] decoded@[j])@ == window_at(
                b,
                j,
            ) by {
                assert(decoded@[j]@ == windows@[j]@);
            }
        }
        Ok(Self::new(decoded, verifying_key))
    }

    /// Encodes each record, in order, into the sink, each fixed-size
    /// encoding written consecutively: no length prefix, no separators,
    /// no trailing metadata. Fails with an I/O error if the sink
    /// rejects a write; bytes already written stay written. The sink is
    /// opaque here, so nothing can be promised about its final state.
    pub fn write<W: std::io::Write>(&self, writer: &mut W) -> (r: Result<(), Error>)
        ensures
            self.circuit_proofs@.len() == 0 ==> r is Ok,
            (r matches Err(e) ==> e == Error::Io),
    {
        let mut i: usize = 0;
        while i < self.circuit_proofs.len()
            decreases self.circuit_proofs@.len() - i,
        {
            let rec = &self.circuit_proofs[i];
            match write_all_to_sink(writer, rec.as_bytes().as_slice()) {
                Ok(()) => {},
                Err(e) => {
                    return Err(e);
                },
            }
            i += 1;
        }
        Ok(())
    }

    /// Encodes the whole container into a fresh in-memory buffer: the
    /// concatenation, in order, of the records' fixed-size encodings.
    pub fn to_vec(&self) -> (r: Result<Vec<u8>, Error>)
        ensures
            r matches Ok(v) && v@ == self.encoding(),
    {
        let n = self.circuit_proofs.len();
        let mut out: Vec<u8> = match n.checked_mul(GROTH_PROOF_SIZE) {
            Some(cap) => Vec::with_capacity(cap),
            None => Vec::new(),
        };
        let mut i: usize = 0;
        while i < n
            invariant
                i <= n,
                n == self.circuit_proofs@.len(),
                out@ == concat_records(self.circuit_proofs@.take(i as int)),
            decreases n - i,
        {
            let rec = &self.circuit_proofs[i];
            match append_record_encoding(rec, &mut out) {
                Ok(()) => {},
                Err(e) => {
                    return Err(e);
                },
            }
            proof {
                crate::codec::lemma_concat_take_step(self.circuit_proofs@, i as int);
            }
            i += 1;
        }
        proof {
            assert(self.circuit_proofs@.take(n as int) =~= self.circuit_proofs@);
        }
        Ok(out)
    }

    /// How many proof records the container holds.
    pub fn len(&self) -> (r: usize)
        ensures
            r == self.circuit_proofs@.len(),
    {
        self.circuit_proofs.len()
    }

    /// Whether the container holds no records at all.
    pub fn is_empty(&self) -> (r: bool)
        ensures
            r <==> self.circuit_proofs@.len() == 0,
    {
        self.circuit_proofs.len() == 0
    }
}

/// Relies on `std::io::Read::read_to_end`: on success all bytes of the
/// stream up to end of file have been appended to the buffer, whose
/// previous contents stay in place; on failure the stream's own error
/// is surfaced as an I/O error.
#[verifier::external_body]
fn read_stream_to_end<R: std::io::Read>(reader: &mut R, buf: &mut Vec<u8>) -> (r: Result<
    usize,
    Error,
>)
    ensures
        (r matches Ok(n) ==> final(buf)@.len() == old(buf)@.len() + n && final(buf)@.take(
            old(buf)@.len() as int,
        ) == old(buf)@),
        (r matches Err(e) ==> e == Error::Io),
{
    match reader.read_to_end(buf) {
        Ok(n) => Ok(n),
        Err(_) => Err(Error::Io),
    }
}

/// Relies on `std::io::Write::write_all`: it writes the entire buffer
/// into the sink or fails with the sink's own error; bytes already
/// written are not retracted. The sink is opaque, so no more can be
/// stated of it here.
#[verifier::external_body]
fn write_all_to_sink<W: std::io::Write>(writer: &mut W, bytes: &[u8]) -> (r: Result<(), Error>)
    ensures
        (r matches Err(e) ==> e == Error::Io),
{
    match writer.write_all(bytes) {
        Ok(()) => Ok(()),
        Err(_) => Err(Error::Io),
    }
}

} // verus!
