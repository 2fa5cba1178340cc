//! The byte-level model of the container's binary format.
//!
//! A persisted multi-proof is the concatenation of exactly N fixed-size
//! record encodings, back to back, with no header, no length prefix and
//! no padding. N is not recoverable from the bytes alone; it is supplied
//! out of band by the caller. These spec functions say how a buffer is
//! chunked into windows and what the encoding of a record sequence is;
//! the lemmas state the format's laws.

use vstd::prelude::*;

use vstd::arithmetic::div_mod::lemma_div_is_ordered;

use crate::record::{record_valid, window_ok, ProofRecord};
use crate::GROTH_PROOF_SIZE;

verus! {

/// The partition count a construction request asks for: the given
/// count, defaulting to one when none is specified.
pub open spec fn requested_count(partitions: Option<usize>) -> nat {
    match partitions {
        Some(n) => n as nat,
        None => 1,
    }
}

/// How many complete fixed-size windows the buffer holds. Trailing
/// bytes beyond the last complete window never count.
pub open spec fn window_count(b: Seq<u8>) -> nat {
    b.len() / (GROTH_PROOF_SIZE as nat)
}

/// The i-th fixed-size window of the buffer: record i's encoding.
pub open spec fn window_at(b: Seq<u8>, i: int) -> Seq<u8> {
    b.subrange(i * (GROTH_PROOF_SIZE as int), (i + 1) * (GROTH_PROOF_SIZE as int))
}

/// Each of the first n windows of the buffer holds a valid encoding.
pub open spec fn windows_valid_up_to(b: Seq<u8>, n: int) -> bool {
    forall|i: int| 0 <= i < n ==> record_valid(#[trigger] window_at(b, i))
}

/// When construction from a buffer succeeds: the buffer holds at least
/// n complete windows and each of the first n is a valid encoding.
pub open spec fn construct_ok(n: nat, b: Seq<u8>) -> bool {
    n <= window_count(b) && windows_valid_up_to(b, n as int)
}

/// The binary encoding of an ordered record sequence: the records'
/// fixed-size encodings concatenated in order.
pub open spec fn concat_records(rs: Seq<ProofRecord>) -> Seq<u8>
    decreases rs.len(),
{
    if rs.len() == 0 {
        Seq::empty()
    } else {
        concat_records(rs.drop_last()) + rs.last()@
    }
}

/// The encoding of the empty record sequence is the empty buffer.
pub proof fn lemma_empty_encoding()
    ensures
        concat_records(Seq::empty()) == Seq::<u8>::empty(),
{
}

/// Appending one record appends its window to the encoding: the
/// encoding of the first i + 1 records is the encoding of the first i
/// followed by record i's bytes.
pub proof fn lemma_concat_take_step(rs: Seq<ProofRecord>, i: int)
    requires
        0 <= i < rs.len(),
    ensures
        concat_records(rs.take(i + 1)) == concat_records(rs.take(i)) + rs[i]@,
{
    assert(rs.take(i + 1).drop_last() =~= rs.take(i));
    assert(rs.take(i + 1).last() == rs[i]);
}

/// The encoding of n records of the fixed size is n windows long.
pub proof fn lemma_concat_len(rs: Seq<ProofRecord>)
    requires
        forall|i: int| 0 <= i < rs.len() ==> (#[trigger] rs[i])@.len() == GROTH_PROOF_SIZE,
    ensures
        concat_records(rs).len() == rs.len() * GROTH_PROOF_SIZE,
    decreases rs.len(),
{
    if rs.len() > 0 {
        lemma_concat_len(rs.drop_last());
        assert(concat_records(rs).len() == (rs.len() - 1) * GROTH_PROOF_SIZE + GROTH_PROOF_SIZE);
        assert((rs.len() - 1) * GROTH_PROOF_SIZE + GROTH_PROOF_SIZE == rs.len() * GROTH_PROOF_SIZE)
            by (nonlinear_arith);
    }
}

/// Round trip of the codec: decoding the encoding of any ordered
/// sequence of valid records, with the partition count equal to the
/// sequence's length, succeeds and yields back exactly those records'
/// bytes, window by window, in the same order.
pub proof fn lemma_round_trip(rs: Seq<ProofRecord>)
    requires
        forall|i: int| 0 <= i < rs.len() ==> (#[trigger] rs[i])@.len() == GROTH_PROOF_SIZE,
    ensures
        window_count(concat_records(rs)) == rs.len(),
        forall|i: int| 0 <= i < rs.len() ==> window_at(concat_records(rs), i) == (#[trigger] rs[i])@,
        (forall|i: int| 0 <= i < rs.len() ==> (#[trigger] rs[i]).wf()) ==> construct_ok(
            rs.len() as nat,
            concat_records(rs),
        ),
    decreases rs.len(),
{
    let b = concat_records(rs);
    let sz = GROTH_PROOF_SIZE as int;
    lemma_concat_len(rs);
    assert(window_count(b) == rs.len()) by {
        assert(b.len() == rs.len() * sz);
        assert((rs.len() * sz) / sz == rs.len()) by (nonlinear_arith)
            requires sz > 0;
    }
    if rs.len() > 0 {
        let prefix = rs.drop_last();
        let pb = concat_records(prefix);
        lemma_round_trip(prefix);
        lemma_concat_len(prefix);
        assert forall|i: int| 0 <= i < rs.len() implies window_at(b, i) == (#[trigger] rs[i])@ by {
            assert(0 <= i * sz && (i + 1) * sz <= rs.len() * sz) by (nonlinear_arith)
                requires 0 <= i < rs.len(), sz > 0;
            if i < rs.len() - 1 {
                assert((i + 1) * sz <= pb.len()) by (nonlinear_arith)
                    requires 0 <= i < rs.len() - 1, sz > 0, pb.len() == (rs.len() - 1) * sz;
                assert(window_at(b, i) =~= window_at(pb, i));
                assert(prefix[i] == rs[i]);
            } else {
                assert(i * sz == pb.len()) by (nonlinear_arith)
                    requires i == rs.len() - 1, pb.len() == (rs.len() - 1) * sz;
                assert(window_at(b, i) =~= rs.last()@);
            }
        }
    }
    if forall|i: int| 0 <= i < rs.len() ==> (#[trigger] rs[i]).wf() {
        assert forall|i: int| 0 <= i < rs.len() implies record_valid(#[trigger] window_at(b, i)) by {
            assert(rs[i].wf());
            assert(window_at(b, i) == rs[i]@);
        }
    }
}

/// Excess-tail tolerance: for a buffer holding at least n complete
/// windows, the first n windows, and with them the whole outcome of a
/// decode asked for n partitions, are the same as for the buffer
/// truncated to exactly n windows; the trailing bytes are ignored.
pub proof fn lemma_excess_tail(b: Seq<u8>, n: nat)
    requires
        n * GROTH_PROOF_SIZE <= b.len(),
    ensures
        n <= window_count(b),
        window_count(b.take((n * GROTH_PROOF_SIZE) as int)) == n,
        forall|i: int| 0 <= i < n ==> window_at(b, i) == window_at(
            b.take((n * GROTH_PROOF_SIZE) as int),
            i,
        ),
        construct_ok(n, b) <==> construct_ok(n, b.take((n * GROTH_PROOF_SIZE) as int)),
{
    let sz = GROTH_PROOF_SIZE as int;
    let t = b.take((n * GROTH_PROOF_SIZE) as int);
    assert(n <= window_count(b)) by {
        assert((n * sz) / sz == n as int) by (nonlinear_arith)
            requires sz > 0;
        lemma_div_is_ordered((n * sz) as int, b.len() as int, sz);
    }
    assert(window_count(t) == n) by {
        assert((n * sz) / sz == n as int) by (nonlinear_arith)
            requires sz > 0;
    }
    assert forall|i: int| 0 <= i < n implies window_at(b, i) == window_at(t, i) by {
        assert(0 <= i * sz && (i + 1) * sz <= n * sz) by (nonlinear_arith)
            requires 0 <= i < n, sz > 0;
        assert(window_at(b, i) =~= window_at(t, i));
    }
}

/// An unspecified partition count behaves as a count of one: the
/// request determines construction only through `requested_count`, and
/// `None` and `Some(1)` request the same count.
pub proof fn lemma_default_partition_count()
    ensures
        requested_count(Option::<usize>::None) == requested_count(Option::<usize>::Some(1)),
        requested_count(Option::<usize>::None) == 1,
{
}

} // verus!
