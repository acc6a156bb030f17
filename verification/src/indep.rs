use vstd::prelude::*;
use crate::hashing::{digest_of, hex_of, record_digest_hex};
use crate::sampler::{alphabet_record, generate_string_chunk, record_of};
use crate::seed::{perturb_seed, perturb_spec};

verus! {

/// The value stored for one independent-mode index: the record derived
/// from the per-index perturbed seed, or its hex digest in hash-only
/// runs.
pub open spec fn indep_value(root: Seq<u8>, index: u64, size: nat, hash_only: bool) -> Seq<u8> {
    if hash_only {
        hex_of(digest_of(record_of(perturb_spec(root, index), size)))
    } else {
        record_of(perturb_spec(root, index), size)
    }
}

/// The full independent-mode store contents for indices `0 .. n`.
pub open spec fn indep_contents(root: Seq<u8>, size: nat, n: nat, hash_only: bool) -> Seq<
    Seq<u8>,
> {
    Seq::new(n, |i: int| indep_value(root, i as u64, size, hash_only))
}

/// Independent-mode generation: the value for every index in
/// `0 .. num_chunks`, each derived from the root seed and the index
/// alone. The result is pinned byte for byte by the seed, the count and
/// the size, so any write order — or degree of parallelism — ends in
/// the same store contents, and re-running overwrites each key with the
/// value it already holds.
pub fn run_independent(
    root_seed: &Vec<u8>,
    num_chunks: usize,
    chunk_size: usize,
    hash_only: bool,
) -> (values: Vec<Vec<u8>>)
    requires
        root_seed@.len() == 32,
    ensures
        values@.len() == num_chunks,
        forall|i: int|
            0 <= i < num_chunks ==> values@[i]@ == indep_value(
                root_seed@,
                i as u64,
                chunk_size as nat,
                hash_only,
            ),
        values@.map_values(|v: Vec<u8>| v@) == indep_contents(
            root_seed@,
            chunk_size as nat,
            num_chunks as nat,
            hash_only,
        ),
        forall|i: int|
            0 <= i < num_chunks && !hash_only ==> alphabet_record(
                values@[i]@,
                chunk_size as nat,
            ),
{
    let mut values: Vec<Vec<u8>> = Vec::new();
    let mut i: usize = 0;
    while i < num_chunks
        invariant
            root_seed@.len() == 32,
            i <= num_chunks,
            values@.len() == i,
            forall|j: int|
                0 <= j < i ==> values@[j]@ == indep_value(
                    root_seed@,
                    j as u64,
                    chunk_size as nat,
                    hash_only,
                ),
            forall|j: int|
                0 <= j < i && !hash_only ==> alphabet_record(values@[j]@, chunk_size as nat),
        decreases num_chunks - i,
    {
        let seed = perturb_seed(root_seed, i as u64);
        let chunk = generate_string_chunk(&seed, chunk_size);
        let value: Vec<u8> = if hash_only {
            record_digest_hex(&chunk)
        } else {
            chunk
        };
        values.push(value);
        i += 1;
    }
    proof {
        assert(values@.map_values(|v: Vec<u8>| v@) =~= indep_contents(
            root_seed@,
            chunk_size as nat,
            num_chunks as nat,
            hash_only,
        ));
    }
    values
}

/// Determinism of the independent mode: two store contents produced for
/// the same seed, size and count are identical, whatever order or
/// parallelism produced them.
pub proof fn lemma_independent_deterministic(
    a: Seq<Seq<u8>>,
    b: Seq<Seq<u8>>,
    root: Seq<u8>,
    size: nat,
    n: nat,
    hash_only: bool,
)
    requires
        a == indep_contents(root, size, n, hash_only),
        b == indep_contents(root, size, n, hash_only),
    ensures
        a == b,
{
}

} // verus!
