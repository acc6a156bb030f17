use vstd::prelude::*;
use crate::error::GenError;
use crate::hashing::{digest_of, hex_of, record_digest_hex};
use crate::sampler::{alphabet_record, generate_string_chunk, record_of};
use crate::seed::{advance_spec, advance_state};

verus! {

/// One persisted row of the chained sequence: the record (or nothing in
/// hash-only runs), the hex digest of the record, and the chain state
/// that generates the next record.
#[derive(Debug, Clone, PartialEq, Eq)]
pub struct StoredEntry {
    pub id: usize,
    pub data: Vec<u8>,
    pub hash: Vec<u8>,
    pub rng_state: Vec<u8>,
}

/// The chain state after `k` records have been generated starting from
/// state `s`: each step folds the digest of the record it produced into
/// the state.
pub open spec fn chain_state_from(s: Seq<u8>, size: nat, k: nat) -> Seq<u8>
    decreases k,
{
    if k == 0 {
        s
    } else {
        let prev = chain_state_from(s, size, (k - 1) as nat);
        advance_spec(prev, record_of(prev, size))
    }
}

/// The `k`-th record (0-based) generated starting from state `s`.
pub open spec fn chain_record_from(s: Seq<u8>, size: nat, k: nat) -> Seq<u8> {
    record_of(chain_state_from(s, size, k), size)
}

/// The first `n` records generated starting from state `s`.
pub open spec fn chain_records(s: Seq<u8>, size: nat, n: nat) -> Seq<Seq<u8>> {
    Seq::new(n, |i: int| chain_record_from(s, size, i as nat))
}

/// What a persisted row must hold for a record `rec` at position `id`
/// whose post-record chain state is `state_after`.
pub open spec fn entry_matches(
    e: StoredEntry,
    id: int,
    rec: Seq<u8>,
    state_after: Seq<u8>,
    hash_only: bool,
) -> bool {
    &&& e.id == id
    &&& e.data@ == if hash_only {
        Seq::<u8>::empty()
    } else {
        rec
    }
    &&& e.hash@ == hex_of(digest_of(rec))
    &&& e.rng_state@ == state_after
}

/// Chain states compose: running `j` steps from the state reached after
/// `k` steps lands on the state after `k + j` steps.
pub proof fn lemma_chain_state_compose(s: Seq<u8>, size: nat, k: nat, j: nat)
    ensures
        chain_state_from(chain_state_from(s, size, k), size, j) == chain_state_from(
            s,
            size,
            (k + j) as nat,
        ),
    decreases j,
{
    if j > 0 {
        lemma_chain_state_compose(s, size, k, (j - 1) as nat);
    }
}

/// Resumption continues the original sequence: the `j`-th record
/// generated from the state reached after `k` records is the
/// `(k + j)`-th record of the uninterrupted run.
pub proof fn lemma_chain_resume(s: Seq<u8>, size: nat, k: nat, j: nat)
    ensures
        chain_record_from(chain_state_from(s, size, k), size, j) == chain_record_from(
            s,
            size,
            (k + j) as nat,
        ),
{
    lemma_chain_state_compose(s, size, k, j);
}

/// Truncation keeps a prefix intact: the first `n2` records of a run of
/// `n1 >= n2` records are exactly the records of a run of `n2`.
pub proof fn lemma_chain_prefix(s: Seq<u8>, size: nat, n1: nat, n2: nat)
    requires
        n2 <= n1,
    ensures
        chain_records(s, size, n1).take(n2 as int) == chain_records(s, size, n2),
{
    assert(chain_records(s, size, n1).take(n2 as int) =~= chain_records(s, size, n2));
}

/// Truncate-then-extend round trip: cutting a run of `n1` records back
/// to `n2` and re-extending from the surviving chain state restores the
/// full original sequence.
pub proof fn lemma_truncate_extend_round_trip(s: Seq<u8>, size: nat, n1: nat, n2: nat)
    requires
        n2 <= n1,
    ensures
        chain_records(s, size, n2) + chain_records(
            chain_state_from(s, size, n2),
            size,
            (n1 - n2) as nat,
        ) == chain_records(s, size, n1),
{
    let tail = chain_records(chain_state_from(s, size, n2), size, (n1 - n2) as nat);
    assert forall|i: int| 0 <= i < n1 - n2 implies tail[i] == chain_record_from(
        s,
        size,
        (n2 + i) as nat,
    ) by {
        lemma_chain_resume(s, size, n2, i as nat);
    }
    assert(chain_records(s, size, n2) + tail =~= chain_records(s, size, n1));
}

/// Chain determinism under resume: a run that generates `k` records,
/// stops, and later resumes from the persisted state for the remaining
/// `n - k` produces the same records and the same final chain state as
/// one uninterrupted run of `n`.
pub proof fn lemma_chain_determinism(s: Seq<u8>, size: nat, k: nat, n: nat)
    requires
        k <= n,
    ensures
        chain_records(s, size, k) + chain_records(
            chain_state_from(s, size, k),
            size,
            (n - k) as nat,
        ) == chain_records(s, size, n),
        chain_state_from(chain_state_from(s, size, k), size, (n - k) as nat) == chain_state_from(
            s,
            size,
            n,
        ),
{
    lemma_truncate_extend_round_trip(s, size, n, k);
    lemma_chain_state_compose(s, size, k, (n - k) as nat);
}

/// A fresh copy of a byte vector.
fn copy_bytes(src: &Vec<u8>) -> (copy: Vec<u8>)
    ensures
        copy@ == src@,
{
    let mut copy: Vec<u8> = Vec::new();
    let mut i: usize = 0;
    while i < src.len()
        invariant
            i <= src@.len(),
            copy@ == src@.take(i as int),
        decreases src@.len() - i,
    {
        copy.push(src[i]);
        i += 1;
    }
    proof {
        assert(copy@ =~= src@);
    }
    copy
}

/// Reconcile the persisted chained sequence against a target record
/// count.
///
/// Recovery trusts the store: the chain state is read back from the
/// last row exactly as persisted, never recomputed. With fewer rows
/// than `num_chunks` the sequence is extended in strict index order
/// from that state (from the digest of the seed when the store is
/// empty); with more rows, rows at index `num_chunks` and beyond are
/// deleted and the survivors are left untouched; with exactly
/// `num_chunks` rows nothing is written. Returns the number of rows
/// written, or `RecoveryInconsistency` when the recovered chain state
/// is not 32 bytes wide.
pub fn reconcile(
    entries: &mut Vec<StoredEntry>,
    seed: &Vec<u8>,
    num_chunks: usize,
    chunk_size: usize,
    hash_only: bool,
) -> (result: Result<usize, GenError>)
    requires
        seed@.len() == 32,
        forall|i: int| 0 <= i < old(entries)@.len() ==> old(entries)@[i].id == i,
    ensures
        result is Err <==> old(entries)@.len() > 0 && old(entries)@.last().rng_state@.len() != 32,
        result is Err ==> result == Result::<usize, GenError>::Err(GenError::RecoveryInconsistency)
            && final(entries)@ == old(entries)@,
        result is Ok ==> {
            let old_len = old(entries)@.len() as int;
            let target = num_chunks as int;
            let s0 = if old_len == 0 {
                seed@
            } else {
                old(entries)@.last().rng_state@
            };
            &&& final(entries)@.len() == target
            &&& forall|i: int|
                0 <= i < old_len && i < target ==> final(entries)@[i] == old(entries)@[i]
            &&& result->Ok_0 == if old_len < target {
                target - old_len
            } else {
                0
            }
            &&& forall|j: int|
                old_len <= j < target ==> entry_matches(
                    final(entries)@[j],
                    j,
                    chain_record_from(s0, chunk_size as nat, (j - old_len) as nat),
                    chain_state_from(s0, chunk_size as nat, (j - old_len + 1) as nat),
                    hash_only,
                )
            &&& forall|j: int|
                old_len <= j < target && !hash_only ==> alphabet_record(
                    final(entries)@[j].data@,
                    chunk_size as nat,
                )
            &&& old_len == target ==> final(entries)@ == old(entries)@
        },
{
    let ghost old_entries = entries@;
    let start_index = entries.len();
    if start_index > 0 {
        if entries[start_index - 1].rng_state.len() != 32 {
            return Err(GenError::RecoveryInconsistency);
        }
    }
    if start_index > num_chunks {
        entries.truncate(num_chunks);
        proof {
            assert(entries@ =~= old_entries.subrange(0, num_chunks as int));
        }
        return Ok(0);
    }
    let mut current_seed: Vec<u8> = if start_index == 0 {
        copy_bytes(seed)
    } else {
        copy_bytes(&entries[start_index - 1].rng_state)
    };
    let ghost s0 = current_seed@;
    let mut i: usize = start_index;
    while i < num_chunks
        invariant
            seed@.len() == 32,
            start_index <= i <= num_chunks,
            entries@.len() == i,
            forall|p: int| 0 <= p < start_index ==> entries@[p] == old_entries[p],
            old_entries.len() == start_index,
            s0 == if start_index == 0 {
                seed@
            } else {
                old_entries.last().rng_state@
            },
            s0.len() == 32,
            current_seed@ == chain_state_from(s0, chunk_size as nat, (i - start_index) as nat),
            current_seed@.len() == 32,
            forall|j: int|
                start_index <= j < i ==> entry_matches(
                    entries@[j],
                    j,
                    chain_record_from(s0, chunk_size as nat, (j - start_index) as nat),
                    chain_state_from(s0, chunk_size as nat, (j - start_index + 1) as nat),
                    hash_only,
                ),
            forall|j: int|
                start_index <= j < i && !hash_only ==> alphabet_record(
                    entries@[j].data@,
                    chunk_size as nat,
                ),
        decreases num_chunks - i,
    {
        let chunk_data = generate_string_chunk(&current_seed, chunk_size);
        let next_seed = advance_state(&current_seed, &chunk_data);
        let hash_hex = record_digest_hex(&chunk_data);
        let stored_state = copy_bytes(&next_seed);
        let data_field: Vec<u8> = if hash_only {
            Vec::new()
        } else {
            chunk_data
        };
        entries.push(StoredEntry { id: i, data: data_field, hash: hash_hex, rng_state: stored_state });
        current_seed = next_seed;
        i += 1;
    }
    proof {
        if start_index == num_chunks {
            assert(entries@ =~= old_entries);
        }
    }
    Ok(num_chunks - start_index)
}

} // verus!
