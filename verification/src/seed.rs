use vstd::prelude::*;
use crate::error::GenError;
use crate::hashing::{digest_of, hash_data};

verus! {

/// Byte-wise XOR of two sequences, over the length of the first.
pub open spec fn xor_bytes(a: Seq<u8>, b: Seq<u8>) -> Seq<u8> {
    Seq::new(a.len(), |i: int| a[i] ^ b[i])
}

/// A raw seed string extended to the 32-byte seed width with zero bytes
/// on the right.
pub open spec fn pad_seed(s: Seq<u8>) -> Seq<u8>
    recommends
        s.len() <= 32,
{
    s + Seq::new((32 - s.len()) as nat, |i: int| 0u8)
}

/// A byte allowed in a chained-mode seed string: ASCII alphanumeric or
/// underscore, so the seed is safe as a namespace identifier.
pub open spec fn is_identifier_byte(c: u8) -> bool {
    (48 <= c && c <= 57) || (65 <= c && c <= 90) || (97 <= c && c <= 122) || c == 95
}

/// Whether every byte of a chained-mode seed string is allowed.
pub open spec fn valid_seed_identifier(s: Seq<u8>) -> bool {
    forall|i: int| 0 <= i < s.len() ==> is_identifier_byte(s[i])
}

/// The independent-mode per-index seed: the root seed with its first
/// byte incremented by `index mod 256`, wrapping.
pub open spec fn perturb_spec(root: Seq<u8>, index: u64) -> Seq<u8>
    recommends
        root.len() == 32,
{
    root.update(0, (((root[0] + index % 256) % 256) as u8))
}

/// The next chain state: the current state XORed byte-wise with the
/// digest of the record just produced.
pub open spec fn advance_spec(state: Seq<u8>, record: Seq<u8>) -> Seq<u8> {
    xor_bytes(state, digest_of(record))
}

/// Byte-wise XOR of the running seed with a record's content digest,
/// producing the seed for the next record.
pub fn combine_seeds(original_seed: &Vec<u8>, hash: &Vec<u8>) -> (combined: Vec<u8>)
    requires
        original_seed@.len() == 32,
        hash@.len() == 32,
    ensures
        combined@ == xor_bytes(original_seed@, hash@),
        combined@.len() == 32,
{
    let mut combined: Vec<u8> = Vec::new();
    let mut i: usize = 0;
    while i < 32
        invariant
            original_seed@.len() == 32,
            hash@.len() == 32,
            i <= 32,
            combined@.len() == i,
            forall|j: int| 0 <= j < i ==> combined@[j] == (original_seed@[j] ^ hash@[j]),
        decreases 32 - i,
    {
        combined.push(original_seed[i] ^ hash[i]);
        i += 1;
    }
    proof {
        assert(combined@ =~= xor_bytes(original_seed@, hash@));
    }
    combined
}

/// The independent-mode root seed: the raw bytes of the user's seed
/// string, zero-padded on the right to 32 bytes; rejected when the
/// string is longer than the seed width.
pub fn derive_root_seed(user_seed: &Vec<u8>) -> (result: Result<Vec<u8>, GenError>)
    ensures
        user_seed@.len() <= 32 ==> result is Ok && result->Ok_0@ == pad_seed(user_seed@),
        user_seed@.len() > 32 ==> result == Result::<Vec<u8>, GenError>::Err(
            GenError::SeedTooLong,
        ),
{
    if user_seed.len() > 32 {
        return Err(GenError::SeedTooLong);
    }
    let mut seed: Vec<u8> = Vec::new();
    let mut i: usize = 0;
    while i < user_seed.len()
        invariant
            user_seed@.len() <= 32,
            i <= user_seed@.len(),
            seed@ == user_seed@.take(i as int),
        decreases user_seed@.len() - i,
    {
        seed.push(user_seed[i]);
        i += 1;
    }
    while i < 32
        invariant
            user_seed@.len() <= 32,
            user_seed@.len() <= i <= 32,
            seed@.len() == i,
            seed@.take(user_seed@.len() as int) == user_seed@,
            forall|j: int| user_seed@.len() <= j < i ==> seed@[j] == 0u8,
        decreases 32 - i,
    {
        seed.push(0u8);
        i += 1;
    }
    proof {
        assert(seed@ =~= pad_seed(user_seed@));
    }
    Ok(seed)
}

/// The chained-mode root state: the SHA-256 digest of the user's seed
/// string; rejected when the string holds a character unfit for a
/// namespace identifier.
pub fn derive_chained_seed(user_seed: &Vec<u8>) -> (result: Result<Vec<u8>, GenError>)
    ensures
        valid_seed_identifier(user_seed@) ==> result is Ok && result->Ok_0@ == digest_of(
            user_seed@,
        ) && result->Ok_0@.len() == 32,
        !valid_seed_identifier(user_seed@) ==> result == Result::<Vec<u8>, GenError>::Err(
            GenError::InvalidSeedIdentifier,
        ),
{
    let mut i: usize = 0;
    while i < user_seed.len()
        invariant
            i <= user_seed@.len(),
            forall|j: int| 0 <= j < i ==> is_identifier_byte(user_seed@[j]),
        decreases user_seed@.len() - i,
    {
        let c = user_seed[i];
        let ok = (48 <= c && c <= 57) || (65 <= c && c <= 90) || (97 <= c && c <= 122) || c == 95;
        if !ok {
            return Err(GenError::InvalidSeedIdentifier);
        }
        i += 1;
    }
    Ok(hash_data(user_seed))
}

/// The independent-mode seed for one index: a copy of the root seed with
/// its first byte incremented by `index mod 256`, wrapping. Indices that
/// agree modulo 256 share a seed; that weak diversification is part of
/// the scheme, kept for bit-compatibility of generated fixtures.
pub fn perturb_seed(root: &Vec<u8>, index: u64) -> (seed: Vec<u8>)
    requires
        root@.len() == 32,
    ensures
        seed@ == perturb_spec(root@, index),
        seed@.len() == 32,
{
    let first: u64 = (root[0] as u64 + index % 256) % 256;
    let mut seed: Vec<u8> = Vec::new();
    seed.push(first as u8);
    let mut i: usize = 1;
    while i < 32
        invariant
            root@.len() == 32,
            1 <= i <= 32,
            seed@.len() == i,
            seed@[0] == (((root@[0] + index % 256) % 256) as u8),
            forall|j: int| 1 <= j < i ==> seed@[j] == root@[j],
        decreases 32 - i,
    {
        seed.push(root[i]);
        i += 1;
    }
    proof {
        assert(seed@ =~= perturb_spec(root@, index));
    }
    seed
}

/// The next chain state after producing `record` from `state`: the state
/// XORed byte-wise with the record's digest.
pub fn advance_state(state: &Vec<u8>, record: &Vec<u8>) -> (next: Vec<u8>)
    requires
        state@.len() == 32,
    ensures
        next@ == advance_spec(state@, record@),
        next@.len() == 32,
{
    let digest = hash_data(record);
    combine_seeds(state, &digest)
}

} // verus!
