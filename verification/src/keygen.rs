//! Minting of retrieval keys: forty random bits in URL-safe text.

use nanorand::Rng;
use vstd::prelude::*;

verus! {

/// Number of random bytes in a key.
pub const KEY_BYTES: usize = 5;

/// How many candidate keys one upload may try: the first and five retries.
pub const MAX_KEY_ATTEMPTS: usize = 6;

/// The URL-safe, unpadded base64 text of a byte string, as the `base64` crate
/// produces it.
pub uninterp spec fn url_safe_no_pad(bytes: Seq<u8>) -> Seq<char>;

/// Whether `key` is the encoding of some `KEY_BYTES` bytes, that is, whether
/// the generator can produce it.
pub open spec fn generated_key(key: Seq<char>) -> bool {
    exists|bytes: Seq<u8>| bytes.len() == KEY_BYTES && key == #[trigger] url_safe_no_pad(bytes)
}

/// One byte from `nanorand`'s thread-local generator (`tls_rng` followed by
/// `Rng::generate::<u8>`). Nothing is claimed of the value.
#[verifier::external_body]
fn random_byte() -> u8 {
    nanorand::tls_rng().generate::<u8>()
}

/// `base64::encode_config` with the URL-safe alphabet and no padding. The
/// result is named, not described: equal bytes give equal text. The bound
/// keeps the crate's size computation, which panics on overflow, in range.
#[verifier::external_body]
fn encode_url_safe(bytes: &Vec<u8>) -> (text: String)
    requires
        bytes@.len() < 0x4000_0000,
    ensures
        text@ == url_safe_no_pad(bytes@),
{
    base64::encode_config(bytes, base64::Config::new(base64::CharacterSet::UrlSafe, false))
}

/// The key that a given draw of random bytes stands for.
pub fn key_from_bytes(bytes: &Vec<u8>) -> (key: String)
    requires
        bytes@.len() == KEY_BYTES,
    ensures
        key@ == url_safe_no_pad(bytes@),
        generated_key(key@),
{
    encode_url_safe(bytes)
}

/// Draws a fresh candidate key. Uniqueness is not promised here: a candidate
/// becomes a key only once the stores have confirmed that it is unused.
pub fn gen_key() -> (key: String)
    ensures
        generated_key(key@),
{
    let mut bytes: Vec<u8> = Vec::new();
    while bytes.len() < KEY_BYTES
        invariant
            bytes@.len() <= KEY_BYTES,
        decreases KEY_BYTES - bytes@.len(),
    {
        bytes.push(random_byte());
    }
    key_from_bytes(&bytes)
}

} // verus!
