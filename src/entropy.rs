use parity_scale_codec::Encode;
use vstd::prelude::*;

verus! {

/// What the host supplies for one call's randomness: the block's random seed
/// and the index of the current transaction within the block, if any.
#[derive(Clone, Copy, Debug, PartialEq, Eq)]
pub struct Entropy {
    pub seed: [u8; 32],
    pub call_index: Option<u32>,
}

/// The eight little-endian bytes of `x`.
pub open spec fn le_bytes_u64(x: u64) -> Seq<u8> {
    Seq::new(8, |i: int| ((x >> (8 * i) as u64) & 0xff) as u8)
}

/// The four little-endian bytes of `x`.
pub open spec fn le_bytes_u32(x: u32) -> Seq<u8> {
    Seq::new(4, |i: int| ((x >> (8 * i) as u32) & 0xff) as u8)
}

/// SCALE encoding of an optional `u32`: a tag byte, then the value if present.
pub open spec fn option_u32_bytes(v: Option<u32>) -> Seq<u8> {
    match v {
        Some(x) => seq![1u8] + le_bytes_u32(x),
        None => seq![0u8],
    }
}

/// The bytes hashed to draw a random value: seed, caller, call index.
pub open spec fn entropy_payload(seed: Seq<u8>, who: u64, call_index: Option<u32>) -> Seq<u8> {
    seed + le_bytes_u64(who) + option_u32_bytes(call_index)
}

/// The 128-bit Blake2b digest of a byte string.
pub uninterp spec fn blake2_128_of(data: Seq<u8>) -> Seq<u8>;

/// The random value drawn for `who` from the host's entropy.
pub open spec fn random_of(e: Entropy, who: u64) -> Seq<u8> {
    blake2_128_of(entropy_payload(e.seed@, who, e.call_index))
}

/// Relies on `parity_scale_codec::Encode` for a tuple: the fields' encodings in
/// order, a byte array as its bytes, a `u64` as eight little-endian bytes and
/// an `Option<u32>` as a tag byte (0 or 1) followed by the value's four bytes.
#[verifier::external_body]
fn encode_payload(seed: &[u8; 32], who: u64, call_index: Option<u32>) -> (r: Vec<u8>)
    ensures
        r@ == entropy_payload(seed@, who, call_index),
{
    (seed, who, call_index).encode()
}

/// Relies on `sp_io::hashing::blake2_128`: the 128-bit Blake2b digest, a
/// function of the input bytes alone.
#[verifier::external_body]
fn blake2_128(data: &[u8]) -> (r: [u8; 16])
    ensures
        r@ == blake2_128_of(data@),
{
    sp_io::hashing::blake2_128(data)
}

/// Draws sixteen pseudo-random bytes for `who`: the digest of the encoded
/// seed, caller and call index. The same inputs always give the same bytes.
pub fn random_value(entropy: &Entropy, who: u64) -> (r: [u8; 16])
    ensures
        r@ == random_of(*entropy, who),
{
    let payload = encode_payload(&entropy.seed, who, entropy.call_index);
    blake2_128(payload.as_slice())
}

} // verus!
