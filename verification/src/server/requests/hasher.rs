//! The closed set of signing algorithms and their security levels.

use vstd::prelude::*;
use vstd::std_specs::convert::FromSpecImpl;
use vstd::std_specs::convert::TryFromSpecImpl;
use vstd::string::StringExecFns;

verus! {

/// The SHA-256 digest of a byte string, as the `sha2` crate computes it.
pub uninterp spec fn sha256_digest(data: Seq<u8>) -> Seq<u8>;

/// The SHA-1 digest of a byte string, as the `sha1` crate computes it.
pub uninterp spec fn sha1_digest(data: Seq<u8>) -> Seq<u8>;

/// Feeds `data` to a fresh `sha2::Sha256` and returns the finished digest.
///
/// Trusted: the result depends on `data` alone.
#[verifier::external_body]
fn sha256(data: &[u8]) -> (digest: Box<[u8]>)
    ensures
        digest@ == sha256_digest(data@),
{
    let mut state = <sha2::Sha256 as digest::Digest>::new();
    digest::Digest::update(&mut state, data);
    digest::Digest::finalize(state).into_iter().collect()
}

/// Feeds `data` to a fresh `sha1::Sha1` and returns the finished digest.
///
/// Trusted: the result depends on `data` alone.
#[verifier::external_body]
fn sha1(data: &[u8]) -> (digest: Box<[u8]>)
    ensures
        digest@ == sha1_digest(data@),
{
    let mut state = <sha1::Sha1 as digest::Digest>::new();
    digest::Digest::update(&mut state, data);
    digest::Digest::finalize(state).into_iter().collect()
}

/// Security level of various hashing algorithms.
///
/// Some game engines only support older hashing algorithms, so the level is
/// configurable per game: developers who must support such engines can accept
/// older hash functions, while everyone else keeps the stricter default.
#[derive(Debug, Clone, Copy, PartialEq, Eq, PartialOrd, Ord, Structural)]
pub enum SecurityLevel {
    /// Low-security hash functions, including functions that have been
    /// effectively broken.
    Low,
    /// High-security fast hash functions.
    High,
}

/// The error of converting an integer that is no security level.
#[derive(Debug, Clone, Copy)]
pub struct TryFromSecurityLevelError;

impl TryFromSecurityLevelError {
    /// What the error says.
    pub fn to_string(&self) -> (text: String)
        ensures
            text@ == "Invalid SecurityLevel constant"@,
    {
        String::from_str("Invalid SecurityLevel constant")
    }
}

impl SecurityLevel {
    /// The ordinal of a level: 0 for `Low`, 10 for `High`.
    pub open spec fn ordinal(self) -> int {
        match self {
            SecurityLevel::Low => 0,
            SecurityLevel::High => 10,
        }
    }

    /// The level with the given ordinal, if there is one.
    pub open spec fn from_ordinal(level: int) -> Option<SecurityLevel> {
        if level == 0 {
            Some(SecurityLevel::Low)
        } else if level == 10 {
            Some(SecurityLevel::High)
        } else {
            None
        }
    }
}

impl From<SecurityLevel> for i32 {
    fn from(level: SecurityLevel) -> (ordinal: i32) {
        match level {
            SecurityLevel::Low => 0,
            SecurityLevel::High => 10,
        }
    }
}

impl FromSpecImpl<SecurityLevel> for i32 {
    open spec fn obeys_from_spec() -> bool {
        true
    }

    open spec fn from_spec(level: SecurityLevel) -> i32 {
        match level {
            SecurityLevel::Low => 0i32,
            SecurityLevel::High => 10i32,
        }
    }
}

impl TryFrom<i32> for SecurityLevel {
    type Error = TryFromSecurityLevelError;

    fn try_from(level: i32) -> (converted: Result<Self, Self::Error>) {
        match level {
            0 => Ok(SecurityLevel::Low),
            10 => Ok(SecurityLevel::High),
            _ => Err(TryFromSecurityLevelError),
        }
    }
}

impl TryFromSpecImpl<i32> for SecurityLevel {
    open spec fn obeys_try_from_spec() -> bool {
        true
    }

    open spec fn try_from_spec(level: i32) -> Result<Self, Self::Error> {
        match SecurityLevel::from_ordinal(level as int) {
            Some(found) => Ok(found),
            None => Err(TryFromSecurityLevelError),
        }
    }
}

impl Default for SecurityLevel {
    fn default() -> (level: SecurityLevel)
        ensures
            level == SecurityLevel::High,
    {
        SecurityLevel::High
    }
}

/// A type capable of signing request payloads.
pub trait RequestSigningHasher {
    /// The security level that the algorithm attains.
    spec fn level(&self) -> SecurityLevel;

    /// The digest that the algorithm gives to a text.
    spec fn digest(&self, text: Seq<char>) -> Seq<u8>;

    fn security_level(&self) -> (level: SecurityLevel)
        ensures
            level == self.level(),
    ;

    fn apply_hash(&self, buf: &str) -> (digest: Box<[u8]>)
        ensures
            digest@ == self.digest(buf@),
    ;
}

/// SHA-256, the modern algorithm.
#[derive(Debug, Clone, Copy)]
pub struct Sha256Hasher;

/// SHA-1, kept for game engines that offer nothing better.
#[derive(Debug, Clone, Copy)]
pub struct Sha1Hasher;

impl RequestSigningHasher for Sha256Hasher {
    open spec fn level(&self) -> SecurityLevel {
        SecurityLevel::High
    }

    open spec fn digest(&self, text: Seq<char>) -> Seq<u8> {
        sha256_digest(vstd::utf8::encode_utf8(text))
    }

    fn security_level(&self) -> (level: SecurityLevel) {
        SecurityLevel::High
    }

    fn apply_hash(&self, buf: &str) -> (digest: Box<[u8]>) {
        sha256(buf.as_bytes())
    }
}

impl RequestSigningHasher for Sha1Hasher {
    open spec fn level(&self) -> SecurityLevel {
        SecurityLevel::Low
    }

    open spec fn digest(&self, text: Seq<char>) -> Seq<u8> {
        sha1_digest(vstd::utf8::encode_utf8(text))
    }

    fn security_level(&self) -> (level: SecurityLevel) {
        SecurityLevel::Low
    }

    fn apply_hash(&self, buf: &str) -> (digest: Box<[u8]>) {
        sha1(buf.as_bytes())
    }
}

} // verus!

