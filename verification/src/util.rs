//! Plain values that stand for what other crates compute, and small helpers.

pub mod base64;
pub mod header;
pub mod json;
pub mod score;
pub mod search;
pub mod text;
pub mod time;
pub mod uuid;

use crate::util::base64::{url_safe_no_pad_encode, url_safe_no_pad_encoded};
use vstd::prelude::*;

verus! {

/// Wrapper around a value that was read from a parameter of a request path.
#[derive(Debug)]
pub struct ParamFromStr<T>(pub T);

/// Wrapper around a value that was read from the body of a request.
#[derive(Debug)]
pub struct DataFromStr<T>(pub T);

impl<T> ParamFromStr<T> {
    pub fn deref(&self) -> (value: &T)
        ensures
            *value == self.0,
    {
        &self.0
    }
}

impl<T> DataFromStr<T> {
    pub fn deref(&self) -> (value: &T)
        ensures
            *value == self.0,
    {
        &self.0
    }
}

/// Fills 64 bytes from the operating system's source of randomness, with
/// `rand::TryRngCore::try_fill_bytes` on `rand::rngs::OsRng`.
///
/// Trusted: nothing is claimed of the bytes. `None` stands for a failure of
/// the source.
#[verifier::external_body]
fn os_random_bytes() -> (bytes: Option<[u8; 64]>) {
    let mut bytes: [u8; 64] = [0; 64];
    match rand::TryRngCore::try_fill_bytes(&mut rand::rngs::OsRng, &mut bytes) {
        Ok(_) => Some(bytes),
        Err(_) => None,
    }
}

/// The key that 64 bytes make: their base64url encoding without padding,
/// appropriate for use as an API key or a secret key.
pub fn generate_key_with(bytes: &[u8; 64]) -> (key: String)
    ensures
        key@ == url_safe_no_pad_encoded(bytes@),
{
    url_safe_no_pad_encode(bytes)
}

/// Generates a key from the operating system's default source of
/// randomness; `None` where that source fails.
pub fn generate_key() -> (key: Option<String>)
    ensures
        key is Some ==> exists|bytes: Seq<u8>|
            bytes.len() == 64 && key->Some_0@ == #[trigger] url_safe_no_pad_encoded(bytes),
{
    match os_random_bytes() {
        Some(bytes) => Some(generate_key_with(&bytes)),
        None => None,
    }
}

} // verus!
