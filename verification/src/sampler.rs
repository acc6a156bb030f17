use vstd::prelude::*;
use rand::{Rng, SeedableRng};

verus! {

/// The first `n` uniform draws over `0..62` taken from rand's `StdRng`
/// freshly seeded with the 32-byte `seed`. The draw sequence is a pure
/// function of the seed for the pinned version of the rand crate; the
/// PRNG algorithm must stay fixed for the life of a dataset.
pub uninterp spec fn std_rng_draws(seed: Seq<u8>, n: nat) -> Seq<u8>;

/// Relies on rand's StdRng and Rng::gen_range: seeded from `seed`, the
/// generator yields a deterministic sequence, and each `gen_range(0..62)`
/// draw lies below 62.
#[verifier::external_body]
fn draw_indices(seed: &Vec<u8>, n: usize) -> (draws: Vec<u8>)
    requires
        seed@.len() == 32,
    ensures
        draws@ == std_rng_draws(seed@, n as nat),
        draws@.len() == n,
        forall|i: int| 0 <= i < n ==> draws@[i] < 62,
{
    let mut arr = [0u8; 32];
    arr.copy_from_slice(seed.as_slice());
    let mut rng = rand::rngs::StdRng::from_seed(arr);
    (0..n).map(|_| rng.gen_range(0..62u8)).collect()
}

/// Whether a byte belongs to the 62-symbol alphabet: a-z, A-Z, 0-9.
pub open spec fn in_alphabet(c: u8) -> bool {
    (97 <= c && c <= 122) || (65 <= c && c <= 90) || (48 <= c && c <= 57)
}

/// The alphabet symbol at position `d`: a-z for 0..26, A-Z for 26..52,
/// 0-9 for 52..62.
pub open spec fn alphabet_byte(d: u8) -> u8
    recommends
        d < 62,
{
    if d < 26 {
        (d + 97) as u8
    } else if d < 52 {
        (d - 26 + 65) as u8
    } else {
        (d - 52 + 48) as u8
    }
}

/// The record generated from `seed`: `size` alphabet symbols picked by
/// the seed's draw sequence.
pub open spec fn record_of(seed: Seq<u8>, size: nat) -> Seq<u8> {
    Seq::new(size, |i: int| alphabet_byte(std_rng_draws(seed, size)[i]))
}

/// Whether `r` is a well-formed record of length `size`: every byte in
/// the 62-symbol alphabet.
pub open spec fn alphabet_record(r: Seq<u8>, size: nat) -> bool {
    r.len() == size && forall|k: int| 0 <= k < r.len() ==> in_alphabet(r[k])
}

/// The alphabet symbol for one draw.
fn alphabet_char(d: u8) -> (c: u8)
    requires
        d < 62,
    ensures
        c == alphabet_byte(d),
        in_alphabet(c),
{
    if d < 26 {
        d + 97
    } else if d < 52 {
        d - 26 + 65
    } else {
        d - 52 + 48
    }
}

/// One fixed-length record, fully determined by `seed`: `size` symbols
/// of the 62-symbol alphabet, each picked by one PRNG draw.
pub fn generate_string_chunk(seed: &Vec<u8>, size: usize) -> (chunk: Vec<u8>)
    requires
        seed@.len() == 32,
    ensures
        chunk@ == record_of(seed@, size as nat),
        chunk@.len() == size,
        forall|i: int| 0 <= i < size ==> in_alphabet(chunk@[i]),
        alphabet_record(chunk@, size as nat),
{
    let draws = draw_indices(seed, size);
    let mut chunk: Vec<u8> = Vec::new();
    let mut i: usize = 0;
    while i < size
        invariant
            draws@ == std_rng_draws(seed@, size as nat),
            draws@.len() == size,
            forall|j: int| 0 <= j < size ==> draws@[j] < 62,
            i <= size,
            chunk@.len() == i,
            forall|j: int| 0 <= j < i ==> chunk@[j] == alphabet_byte(draws@[j]),
            forall|j: int| 0 <= j < i ==> in_alphabet(chunk@[j]),
        decreases size - i,
    {
        chunk.push(alphabet_char(draws[i]));
        i += 1;
    }
    proof {
        assert(chunk@ =~= record_of(seed@, size as nat));
    }
    chunk
}

} // verus!
