//! Fresh secret values: 32 bytes from a generator seeded by the operating
//! system, written in standard padded Base64.
use rand_chacha::rand_core::{RngCore, SeedableRng};
use rand_chacha::ChaCha20Rng;

use vstd::prelude::*;

verus! {

#[verifier::external_type_specification]
#[verifier::external_body]
pub struct ExChaCha20Rng(ChaCha20Rng);

/// Number of random bytes in a generated secret.
pub const SECRET_BYTES: usize = 32;

/// What base64's `STANDARD` engine writes for a byte sequence.
pub uninterp spec fn base64_standard(bytes: Seq<u8>) -> Seq<char>;

/// Relies on `SeedableRng::from_entropy` for `ChaCha20Rng`: a new generator
/// seeded from the operating system's entropy source.
#[verifier::external_body]
fn entropy_seeded_rng() -> ChaCha20Rng {
    ChaCha20Rng::from_entropy()
}

/// Relies on `RngCore::fill_bytes` of `ChaCha20Rng`: the buffer is overwritten
/// with generator output and keeps its length.
#[verifier::external_body]
fn fill_random(rng: &mut ChaCha20Rng, buf: &mut Vec<u8>)
    ensures
        final(buf)@.len() == old(buf)@.len(),
{
    rng.fill_bytes(buf.as_mut_slice())
}

/// Relies on `Engine::encode` of base64's `STANDARD` engine: padded output of
/// four characters per started group of three bytes (`encoded_len`).
#[verifier::external_body]
fn base64_encode(bytes: &[u8]) -> (r: String)
    requires
        4 * ((bytes@.len() + 2) / 3) <= usize::MAX,
    ensures
        r@ == base64_standard(bytes@),
        r@.len() == 4 * ((bytes@.len() + 2) / 3),
{
    base64::Engine::encode(&base64::engine::general_purpose::STANDARD, bytes)
}

/// A value that `generate_secret` may return: the Base64 text of some 32 bytes.
pub open spec fn is_generated_secret(s: Seq<char>) -> bool {
    exists|b: Seq<u8>| b.len() == SECRET_BYTES && s == #[trigger] base64_standard(b)
}

/// A new random secret: 32 bytes from a freshly seeded generator, as 44
/// characters of standard Base64.
pub fn generate_secret() -> (r: String)
    ensures
        is_generated_secret(r@),
        r@.len() == 44,
{
    let mut rng = entropy_seeded_rng();
    let mut bytes: Vec<u8> = vec![0u8; SECRET_BYTES];
    fill_random(&mut rng, &mut bytes);
    let r = base64_encode(bytes.as_slice());
    assert(bytes@.len() == SECRET_BYTES);
    r
}

} // verus!
