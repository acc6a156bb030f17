use generate_db::chain::{reconcile, StoredEntry};
use generate_db::error::GenError;
use generate_db::sampler::generate_string_chunk;
use generate_db::seed::{advance_state, derive_chained_seed};
use sha2::{Digest, Sha256};

fn chained_seed(s: &[u8]) -> Vec<u8> {
    derive_chained_seed(&s.to_vec()).unwrap()
}

fn fresh_run(seed: &Vec<u8>, n: usize, size: usize, hash_only: bool) -> Vec<StoredEntry> {
    let mut entries: Vec<StoredEntry> = Vec::new();
    reconcile(&mut entries, seed, n, size, hash_only).unwrap();
    entries
}

#[test]
fn example_scenario_five_records_of_length_eight() {
    let seed = chained_seed(b"abc123");
    let entries = fresh_run(&seed, 5, 8, false);
    assert_eq!(entries.len(), 5);
    for (i, e) in entries.iter().enumerate() {
        assert_eq!(e.id, i);
        assert_eq!(e.data.len(), 8);
        assert_eq!(e.rng_state.len(), 32);
        let expected_hash = hex::encode(Sha256::digest(&e.data));
        assert_eq!(String::from_utf8(e.hash.clone()).unwrap(), expected_hash);
    }
    // Index 0 is generated straight from the digest of the seed string.
    let record0 = generate_string_chunk(&seed, 8);
    assert_eq!(entries[0].data, record0);
    // Index 1 is generated from the seed digest XOR the digest of record 0.
    let state1 = advance_state(&seed, &record0);
    assert_eq!(entries[0].rng_state, state1);
    assert_eq!(entries[1].data, generate_string_chunk(&state1, 8));
    // Truncating to two records leaves indices 0 and 1 untouched.
    let mut truncated = entries.clone();
    let written = reconcile(&mut truncated, &seed, 2, 8, false).unwrap();
    assert_eq!(written, 0);
    assert_eq!(truncated.as_slice(), &entries[..2]);
}

#[test]
fn resuming_matches_the_uninterrupted_run() {
    let seed = chained_seed(b"abc123");
    let full = fresh_run(&seed, 5, 8, false);
    for k in 0..=5usize {
        let mut staged: Vec<StoredEntry> = Vec::new();
        let first = reconcile(&mut staged, &seed, k, 8, false).unwrap();
        assert_eq!(first, k);
        let second = reconcile(&mut staged, &seed, 5, 8, false).unwrap();
        assert_eq!(second, 5 - k);
        assert_eq!(staged, full);
    }
}

#[test]
fn truncate_then_extend_restores_the_sequence() {
    let seed = chained_seed(b"roundtrip_1");
    let full = fresh_run(&seed, 6, 5, false);
    let mut store = full.clone();
    reconcile(&mut store, &seed, 2, 5, false).unwrap();
    assert_eq!(store.as_slice(), &full[..2]);
    // Re-extension resumes from the chain state the survivors carry, so
    // it regenerates the very records that were cut.
    reconcile(&mut store, &seed, 6, 5, false).unwrap();
    assert_eq!(store, full);
}

#[test]
fn reconciliation_is_idempotent() {
    let seed = chained_seed(b"idem");
    let mut entries = fresh_run(&seed, 7, 4, false);
    let copy = entries.clone();
    let written = reconcile(&mut entries, &seed, 7, 4, false).unwrap();
    assert_eq!(written, 0);
    assert_eq!(entries, copy);
}

#[test]
fn hash_only_rows_store_no_record() {
    let seed = chained_seed(b"abc123");
    let plain = fresh_run(&seed, 4, 8, false);
    let hashed = fresh_run(&seed, 4, 8, true);
    assert_eq!(hashed.len(), 4);
    for (p, h) in plain.iter().zip(hashed.iter()) {
        assert_eq!(h.id, p.id);
        assert!(h.data.is_empty());
        assert_eq!(h.hash, p.hash);
        assert_eq!(h.rng_state, p.rng_state);
    }
}

#[test]
fn malformed_chain_state_is_reported() {
    let seed = chained_seed(b"abc123");
    let mut entries = fresh_run(&seed, 3, 8, false);
    entries[2].rng_state.pop();
    let copy = entries.clone();
    let result = reconcile(&mut entries, &seed, 5, 8, false);
    assert_eq!(result, Err(GenError::RecoveryInconsistency));
    assert_eq!(entries, copy);
}

#[test]
fn empty_target_on_an_empty_store_is_a_no_op() {
    let seed = chained_seed(b"abc123");
    let mut entries: Vec<StoredEntry> = Vec::new();
    let written = reconcile(&mut entries, &seed, 0, 8, false).unwrap();
    assert_eq!(written, 0);
    assert!(entries.is_empty());
}

#[test]
fn chained_records_stay_in_the_alphabet() {
    let seed = chained_seed(b"alphabet_check");
    for &size in &[0usize, 1, 9, 64] {
        let entries = fresh_run(&seed, 4, size, false);
        for e in &entries {
            assert_eq!(e.data.len(), size);
            assert!(e.data.iter().all(|&c| c.is_ascii_alphanumeric()));
        }
    }
}

#[test]
fn first_chained_record_has_the_expected_value() {
    let seed = chained_seed(b"abc123");
    let entries = fresh_run(&seed, 1, 8, false);
    assert_eq!(String::from_utf8(entries[0].data.clone()).unwrap(), "RNRcILsE");
}
