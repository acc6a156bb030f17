use generate_db::error::GenError;
use generate_db::hashing::record_digest_hex;
use generate_db::seed::{
    advance_state, combine_seeds, derive_chained_seed, derive_root_seed, perturb_seed,
};
use sha2::{Digest, Sha256};

fn sha(data: &[u8]) -> Vec<u8> {
    Sha256::digest(data).to_vec()
}

#[test]
fn root_seed_pads_with_zeros() {
    let seed = derive_root_seed(&b"abc".to_vec()).unwrap();
    assert_eq!(seed.len(), 32);
    assert_eq!(&seed[..3], b"abc");
    assert!(seed[3..].iter().all(|&b| b == 0));
}

#[test]
fn root_seed_of_full_width_is_kept() {
    let raw: Vec<u8> = (1..=32).collect();
    let seed = derive_root_seed(&raw).unwrap();
    assert_eq!(seed, raw);
}

#[test]
fn root_seed_too_long_is_rejected() {
    let raw: Vec<u8> = vec![7u8; 33];
    assert_eq!(derive_root_seed(&raw), Err(GenError::SeedTooLong));
}

#[test]
fn chained_seed_is_the_digest() {
    let seed = derive_chained_seed(&b"abc123".to_vec()).unwrap();
    assert_eq!(seed, sha(b"abc123"));
}

#[test]
fn chained_seed_accepts_identifier_characters() {
    assert!(derive_chained_seed(&b"Run_42".to_vec()).is_ok());
    assert!(derive_chained_seed(&b"".to_vec()).is_ok());
}

#[test]
fn chained_seed_rejects_other_characters() {
    assert_eq!(
        derive_chained_seed(&b"bad seed!".to_vec()),
        Err(GenError::InvalidSeedIdentifier)
    );
    assert_eq!(
        derive_chained_seed(&b"abc-123".to_vec()),
        Err(GenError::InvalidSeedIdentifier)
    );
}

#[test]
fn combine_seeds_is_bytewise_xor() {
    let a = vec![0xFFu8; 32];
    let b = vec![0x0Fu8; 32];
    assert_eq!(combine_seeds(&a, &b), vec![0xF0u8; 32]);
    let zeros = vec![0u8; 32];
    assert_eq!(combine_seeds(&a, &zeros), a);
}

#[test]
fn advance_state_folds_in_the_record_digest() {
    let state: Vec<u8> = (0..32).collect();
    let record = b"q1W2e3R4".to_vec();
    let expected = combine_seeds(&state, &sha(&record));
    assert_eq!(advance_state(&state, &record), expected);
}

#[test]
fn perturb_seed_increments_first_byte_modulo_256() {
    let root = vec![0u8; 32];
    let p1 = perturb_seed(&root, 1);
    assert_eq!(p1[0], 1);
    assert_eq!(&p1[1..], &root[1..]);
    let p258 = perturb_seed(&root, 258);
    assert_eq!(p258[0], 2);
    let mut high = vec![0u8; 32];
    high[0] = 255;
    let wrapped = perturb_seed(&high, 1);
    assert_eq!(wrapped[0], 0);
    assert_eq!(&wrapped[1..], &high[1..]);
}

#[test]
fn digest_hex_of_empty_input_matches_known_value() {
    let encoded = record_digest_hex(&Vec::new());
    assert_eq!(
        String::from_utf8(encoded).unwrap(),
        "e3b0c44298fc1c149afbf4c8996fb92427ae41e4649b934ca495991b7852b855"
    );
}

#[test]
fn digest_hex_matches_the_outside_crates() {
    let data = b"Hello world!".to_vec();
    let expected = hex::encode(Sha256::digest(&data));
    assert_eq!(String::from_utf8(record_digest_hex(&data)).unwrap(), expected);
}
