use vstd::prelude::*;
use sha2::{Digest, Sha256};

verus! {

/// The SHA-256 digest of a byte sequence. The algorithm is fixed by the
/// outside crate; the library only relies on the result being a pure
/// function of the input, 32 bytes wide.
pub uninterp spec fn digest_of(data: Seq<u8>) -> Seq<u8>;

/// Relies on sha2's Sha256: the digest is 32 bytes and depends on the
/// input bytes alone.
#[verifier::external_body]
pub(crate) fn hash_data(data: &Vec<u8>) -> (digest: Vec<u8>)
    ensures
        digest@ == digest_of(data@),
        digest@.len() == 32,
{
    let mut hasher = Sha256::new();
    hasher.update(data.as_slice());
    hasher.finalize().to_vec()
}

/// The lower-case hex digit for a nibble.
pub open spec fn hex_digit(d: u8) -> u8 {
    if d < 10 {
        (d + 48) as u8
    } else {
        (d + 87) as u8
    }
}

/// Lower-case hex encoding: two digits per byte, high nibble first.
pub open spec fn hex_of(b: Seq<u8>) -> Seq<u8> {
    Seq::new(b.len() * 2, |i: int| {
        if i % 2 == 0 {
            hex_digit(b[i / 2] >> 4)
        } else {
            hex_digit(b[i / 2] & 0x0f)
        }
    })
}

/// Relies on hex::encode: lower-case digits, two per byte, high nibble
/// first, in input order.
#[verifier::external_body]
pub(crate) fn to_hex(b: &Vec<u8>) -> (encoded: Vec<u8>)
    ensures
        encoded@ == hex_of(b@),
{
    hex::encode(b.as_slice()).into_bytes()
}

/// The lower-case hex encoding of the SHA-256 digest of `data`: the
/// verification field stored beside each chained record.
pub fn record_digest_hex(data: &Vec<u8>) -> (encoded: Vec<u8>)
    ensures
        encoded@ == hex_of(digest_of(data@)),
        encoded@.len() == 64,
{
    let digest = hash_data(data);
    to_hex(&digest)
}

} // verus!
