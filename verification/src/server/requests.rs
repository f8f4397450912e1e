//! Helpers for verifying request UUID and digital signature information.

pub mod concurrent;
pub mod hasher;
pub mod protocol;
pub mod verify;

use crate::db::error::StoreError;
use crate::server::requests::hasher::{
    RequestSigningHasher, SecurityLevel, Sha1Hasher, Sha256Hasher,
};
use crate::util::base64::{url_safe_decode, url_safe_decoded};
use crate::util::json::{parsed_object, signed_field, text_field, JsonField, JsonObject};
use crate::util::text::{bytes_equal, split_at_first, text_equal, utf8_text};
use crate::util::time::Timestamp;
use crate::util::uuid::Uuid;
use vstd::prelude::*;
use vstd::string::StringExecFns;
use vstd::utf8::{decode_utf8, encode_utf8, valid_utf8};

verus! {

broadcast use vstd::string::group_string_axioms;

/// A payload for a request made from a relevant video game client.
///
/// Payloads of this form consist of two base64url-encoded strings, separated
/// by a dot. The first string is the actual payload, and the second is the
/// digital signature.
///
/// Existence of this structure does NOT guarantee that the signature has been
/// verified. It is possible for this structure to contain unverified (and
/// potentially invalid) signatures.
#[derive(Debug)]
pub struct GameRequestPayload {
    payload_base64: String,
    signature_base64: String,
}

/// The body of a game request.
#[derive(Debug)]
pub struct GameRequestBody<T> {
    pub game_uuid: Uuid,
    pub request_uuid: Uuid,
    pub request_timestamp: Timestamp,
    pub algo: RequestAlgorithm,
    pub body: T,
}

/// Chosen algorithm for a game request.
#[derive(Debug, Clone, Copy, PartialEq, Eq, Structural)]
pub enum RequestAlgorithm {
    Sha1,
    Sha256,
}

/// The hasher that belongs to a request algorithm.
#[derive(Debug, Clone, Copy)]
pub enum AlgorithmHasher {
    Sha1(Sha1Hasher),
    Sha256(Sha256Hasher),
}

/// The error of reading a text without a dot as a payload.
#[derive(Debug, Clone, Copy)]
pub struct GameRequestPayloadFromStrError;

/// The error of a signature that is not the expected one.
#[derive(Debug, Clone, Copy)]
pub struct VerificationError;

/// The step at which opening a payload failed.
#[derive(Debug, Clone, Copy, PartialEq, Eq, Structural)]
#[non_exhaustive]
pub enum DeserializeError {
    /// The text is no JSON object, or the object does not spell a request.
    JsonError,
    /// The payload is no base64url text.
    Base64Error,
    /// The decoded payload is no UTF-8 text.
    Utf8Error,
}

/// The reason for which a request was turned down.
#[derive(Debug)]
#[non_exhaustive]
pub enum RequestBodyVerifyError {
    /// The text of the request holds no dot, and so no signature.
    PayloadError(GameRequestPayloadFromStrError),
    DeserializeError(DeserializeError),
    StoreError(StoreError),
    NoSuchGame,
    VerificationError(VerificationError),
    BadRequestTimestamp,
    RequestAlreadySeen,
    SecurityLevelNotAttained,
}

/// A value that the fields of a JSON object can spell.
pub trait FromJsonObject: Sized {
    /// The value that the fields spell; `None` where they spell none.
    spec fn decoded(fields: Map<Seq<char>, JsonField>) -> Option<Self>;

    /// Reads the value that an object spells.
    fn decode(object: &JsonObject) -> (value: Option<Self>)
        ensures
            value == Self::decoded(object.fields()),
    ;
}

impl GameRequestPayloadFromStrError {
    /// What the error says.
    pub fn to_string(&self) -> (text: String)
        ensures
            text@ == "Invalid GameRequestPayload"@,
    {
        String::from_str("Invalid GameRequestPayload")
    }
}

impl VerificationError {
    /// What the error says.
    pub fn to_string(&self) -> (text: String)
        ensures
            text@ == "Invalid request signature"@,
    {
        String::from_str("Invalid request signature")
    }
}

impl DeserializeError {
    /// What the error says.
    pub open spec fn message(self) -> Seq<char> {
        match self {
            DeserializeError::JsonError => "Invalid JSON"@,
            DeserializeError::Base64Error => "Invalid base64"@,
            DeserializeError::Utf8Error => "Invalid UTF-8"@,
        }
    }

    pub fn to_string(&self) -> (text: String)
        ensures
            text@ == self.message(),
    {
        match self {
            DeserializeError::JsonError => String::from_str("Invalid JSON"),
            DeserializeError::Base64Error => String::from_str("Invalid base64"),
            DeserializeError::Utf8Error => String::from_str("Invalid UTF-8"),
        }
    }
}

impl RequestBodyVerifyError {
    /// What the error says. This is for the service's own records: what a
    /// client is told does not tell the refusals apart.
    pub open spec fn message(self) -> Seq<char> {
        match self {
            RequestBodyVerifyError::PayloadError(_) => "Invalid GameRequestPayload"@,
            RequestBodyVerifyError::DeserializeError(error) => error.message(),
            RequestBodyVerifyError::StoreError(error) => error.message(),
            RequestBodyVerifyError::NoSuchGame => "No such game"@,
            RequestBodyVerifyError::VerificationError(_) => "Invalid request signature"@,
            RequestBodyVerifyError::BadRequestTimestamp => "Request timestamp is not current"@,
            RequestBodyVerifyError::RequestAlreadySeen => "Request has already been seen"@,
            RequestBodyVerifyError::SecurityLevelNotAttained => "Security level not attained"@,
        }
    }

    pub fn to_string(&self) -> (text: String)
        ensures
            text@ == self.message(),
    {
        match self {
            RequestBodyVerifyError::PayloadError(error) => error.to_string(),
            RequestBodyVerifyError::DeserializeError(error) => error.to_string(),
            RequestBodyVerifyError::StoreError(error) => error.to_string(),
            RequestBodyVerifyError::NoSuchGame => String::from_str("No such game"),
            RequestBodyVerifyError::VerificationError(error) => error.to_string(),
            RequestBodyVerifyError::BadRequestTimestamp => String::from_str(
                "Request timestamp is not current",
            ),
            RequestBodyVerifyError::RequestAlreadySeen => String::from_str(
                "Request has already been seen",
            ),
            RequestBodyVerifyError::SecurityLevelNotAttained => String::from_str(
                "Security level not attained",
            ),
        }
    }
}

impl GameRequestPayload {
    /// The base64url text of the payload proper.
    pub closed spec fn payload_text(&self) -> Seq<char> {
        self.payload_base64@
    }

    /// The base64url text of the signature.
    pub closed spec fn signature_text(&self) -> Seq<char> {
        self.signature_base64@
    }

    pub fn new(payload_base64: String, signature_base64: String) -> (payload: Self)
        ensures
            payload.payload_text() == payload_base64@,
            payload.signature_text() == signature_base64@,
    {
        Self { payload_base64, signature_base64 }
    }

    pub fn payload_base64(&self) -> (text: &str)
        ensures
            text@ == self.payload_text(),
    {
        self.payload_base64.as_str()
    }

    pub fn signature_base64(&self) -> (text: &str)
        ensures
            text@ == self.signature_text(),
    {
        self.signature_base64.as_str()
    }

    /// Whether the payload is what a text splits into at its first dot.
    pub open spec fn is_split_of(&self, text: Seq<char>) -> bool {
        &&& text == self.payload_text() + seq!['.'] + self.signature_text()
        &&& !self.payload_text().contains('.')
    }

    /// Splits a request at its first dot into payload and signature. A text
    /// without a dot is no request.
    pub fn from_str(s: &str) -> (parsed: Result<Self, GameRequestPayloadFromStrError>)
        ensures
            match parsed {
                Ok(payload) => payload.is_split_of(s@),
                Err(_) => !s@.contains('.'),
            },
    {
        let Some((payload_base64, signature_base64)) = split_at_first(s, '.') else {
            return Err(GameRequestPayloadFromStrError);
        };
        Ok(GameRequestPayload::new(payload_base64.to_owned(), signature_base64.to_owned()))
    }

    /// The text that a signature is computed over: the payload, a dot and
    /// the game's secret key.
    pub open spec fn signed_text(&self, secret_key: Seq<char>) -> Seq<char> {
        self.payload_text() + seq!['.'] + secret_key
    }

    /// Whether the signature is the base64url form of the digest that
    /// `hasher` gives to the signed text.
    pub open spec fn signature_matches<H: RequestSigningHasher + ?Sized>(
        &self,
        secret_key: Seq<char>,
        hasher: &H,
    ) -> bool {
        url_safe_decoded(encode_utf8(self.signature_text())) == Some(
            hasher.digest(self.signed_text(secret_key)),
        )
    }

    /// Recomputes the signature under `secret_key` and compares it with the
    /// one that the request carries.
    pub fn verify<H>(&self, secret_key: &str, hasher: &H) -> (verdict: Result<
        (),
        VerificationError,
    >) where H: RequestSigningHasher + ?Sized
        ensures
            verdict is Ok <==> self.signature_matches(secret_key@, hasher),
    {
        let mut full_payload = self.payload_base64.clone();
        full_payload.append(".");
        full_payload.append(secret_key);
        proof {
            reveal_strlit(".");
            assert("."@ =~= seq!['.']);
        }
        let expected_signature = hasher.apply_hash(full_payload.as_str()).into_vec();
        let given_signature = match url_safe_decode(self.signature_base64.as_str().as_bytes()) {
            Ok(bytes) => bytes,
            Err(_) => {
                return Err(VerificationError);
            },
        };
        if !bytes_equal(expected_signature.as_slice(), given_signature.as_slice()) {
            return Err(VerificationError);
        }
        Ok(())
    }

    /// What opening the payload gives: the value that its JSON object
    /// spells, or the step that failed.
    pub open spec fn deserialized<T: FromJsonObject>(&self) -> Result<T, DeserializeError> {
        match url_safe_decoded(encode_utf8(self.payload_text())) {
            None => Err(DeserializeError::Base64Error),
            Some(bytes) => if !valid_utf8(bytes) {
                Err(DeserializeError::Utf8Error)
            } else {
                match parsed_object(decode_utf8(bytes)) {
                    None => Err(DeserializeError::JsonError),
                    Some(fields) => match T::decoded(fields) {
                        None => Err(DeserializeError::JsonError),
                        Some(value) => Ok(value),
                    },
                }
            },
        }
    }

    /// Decodes the payload from base64url, reads it as UTF-8 and parses it as
    /// the JSON object of a `T`.
    pub fn deserialize<T: FromJsonObject>(&self) -> (opened: Result<T, DeserializeError>)
        ensures
            opened == self.deserialized::<T>(),
    {
        let bytes = match url_safe_decode(self.payload_base64.as_str().as_bytes()) {
            Ok(bytes) => bytes,
            Err(_) => {
                return Err(DeserializeError::Base64Error);
            },
        };
        let text = match utf8_text(bytes.as_slice()) {
            Ok(text) => text,
            Err(_) => {
                return Err(DeserializeError::Utf8Error);
            },
        };
        let object = match JsonObject::parse(text) {
            Some(object) => object,
            None => {
                return Err(DeserializeError::JsonError);
            },
        };
        match T::decode(&object) {
            Some(value) => Ok(value),
            None => Err(DeserializeError::JsonError),
        }
    }
}

impl core::str::FromStr for GameRequestPayload {
    type Err = GameRequestPayloadFromStrError;

    fn from_str(s: &str) -> (parsed: Result<Self, Self::Err>)
        ensures
            match parsed {
                Ok(payload) => payload.is_split_of(s@),
                Err(_) => !s@.contains('.'),
            },
    {
        GameRequestPayload::from_str(s)
    }
}

impl Clone for GameRequestPayload {
    fn clone(&self) -> (copy: Self)
        ensures
            copy == *self,
    {
        Self {
            payload_base64: self.payload_base64.clone(),
            signature_base64: self.signature_base64.clone(),
        }
    }
}

impl RequestSigningHasher for AlgorithmHasher {
    open spec fn level(&self) -> SecurityLevel {
        match self {
            AlgorithmHasher::Sha1(hasher) => hasher.level(),
            AlgorithmHasher::Sha256(hasher) => hasher.level(),
        }
    }

    open spec fn digest(&self, text: Seq<char>) -> Seq<u8> {
        match self {
            AlgorithmHasher::Sha1(hasher) => hasher.digest(text),
            AlgorithmHasher::Sha256(hasher) => hasher.digest(text),
        }
    }

    fn security_level(&self) -> (level: SecurityLevel) {
        match self {
            AlgorithmHasher::Sha1(hasher) => hasher.security_level(),
            AlgorithmHasher::Sha256(hasher) => hasher.security_level(),
        }
    }

    fn apply_hash(&self, buf: &str) -> (digest: Box<[u8]>) {
        match self {
            AlgorithmHasher::Sha1(hasher) => hasher.apply_hash(buf),
            AlgorithmHasher::Sha256(hasher) => hasher.apply_hash(buf),
        }
    }
}

impl RequestAlgorithm {
    /// The algorithm that a wire tag names: `sha1` or `sha256`.
    pub open spec fn tagged(tag: Seq<char>) -> Option<RequestAlgorithm> {
        if tag == "sha1"@ {
            Some(RequestAlgorithm::Sha1)
        } else if tag == "sha256"@ {
            Some(RequestAlgorithm::Sha256)
        } else {
            None
        }
    }

    /// The hasher of the algorithm.
    pub open spec fn hasher(self) -> AlgorithmHasher {
        match self {
            RequestAlgorithm::Sha1 => AlgorithmHasher::Sha1(Sha1Hasher),
            RequestAlgorithm::Sha256 => AlgorithmHasher::Sha256(Sha256Hasher),
        }
    }

    /// Looks a wire tag up in the fixed set of algorithms.
    pub fn from_tag(tag: &str) -> (algorithm: Option<RequestAlgorithm>)
        ensures
            algorithm == RequestAlgorithm::tagged(tag@),
    {
        if text_equal(tag, "sha1") {
            Some(RequestAlgorithm::Sha1)
        } else if text_equal(tag, "sha256") {
            Some(RequestAlgorithm::Sha256)
        } else {
            None
        }
    }

    pub fn into_hasher(self) -> (hasher: AlgorithmHasher)
        ensures
            hasher == self.hasher(),
    {
        match self {
            RequestAlgorithm::Sha1 => AlgorithmHasher::Sha1(Sha1Hasher),
            RequestAlgorithm::Sha256 => AlgorithmHasher::Sha256(Sha256Hasher),
        }
    }
}

/// The UUID that an object spells under a key.
pub open spec fn uuid_field(fields: Map<Seq<char>, JsonField>, key: Seq<char>) -> Option<Uuid> {
    match text_field(fields, key) {
        Some(text) => Uuid::parsed(text@),
        None => None,
    }
}

/// The time that an object spells under a key, in whole seconds since the
/// epoch.
pub open spec fn timestamp_field(fields: Map<Seq<char>, JsonField>, key: Seq<char>) -> Option<
    Timestamp,
> {
    match signed_field(fields, key) {
        Some(seconds) => if Timestamp::is_legal_seconds(seconds as int) {
            Some(Timestamp::at(seconds as int, 0))
        } else {
            None
        },
        None => None,
    }
}

/// The algorithm that an object names under a key.
pub open spec fn algorithm_field(fields: Map<Seq<char>, JsonField>, key: Seq<char>) -> Option<
    RequestAlgorithm,
> {
    match text_field(fields, key) {
        Some(tag) => RequestAlgorithm::tagged(tag@),
        None => None,
    }
}

/// Reads the UUID that an object spells under a key.
pub fn read_uuid(object: &JsonObject, key: &str) -> (id: Option<Uuid>)
    ensures
        id == uuid_field(object.fields(), key@),
{
    match object.get_text(key) {
        Some(text) => Uuid::parse_str(text.as_str()),
        None => None,
    }
}

/// Reads the time that an object spells under a key.
pub fn read_timestamp(object: &JsonObject, key: &str) -> (moment: Option<Timestamp>)
    ensures
        moment == timestamp_field(object.fields(), key@),
{
    match object.get_signed(key) {
        Some(seconds) => Timestamp::from_legal_seconds(seconds),
        None => None,
    }
}

/// Reads the algorithm that an object names under a key.
pub fn read_algorithm(object: &JsonObject, key: &str) -> (algorithm: Option<RequestAlgorithm>)
    ensures
        algorithm == algorithm_field(object.fields(), key@),
{
    match object.get_text(key) {
        Some(tag) => RequestAlgorithm::from_tag(tag.as_str()),
        None => None,
    }
}

/// A request that says nothing beside the envelope.
impl FromJsonObject for () {
    open spec fn decoded(fields: Map<Seq<char>, JsonField>) -> Option<Self> {
        Some(())
    }

    fn decode(object: &JsonObject) -> (value: Option<Self>) {
        Some(())
    }
}

impl<T: FromJsonObject> FromJsonObject for GameRequestBody<T> {
    /// A request is spelled by the fields `game_uuid`, `request_uuid`,
    /// `request_timestamp` and `algo`, and beside them the fields of its
    /// body.
    open spec fn decoded(fields: Map<Seq<char>, JsonField>) -> Option<Self> {
        match (
            uuid_field(fields, "game_uuid"@),
            uuid_field(fields, "request_uuid"@),
            timestamp_field(fields, "request_timestamp"@),
            algorithm_field(fields, "algo"@),
            T::decoded(fields),
        ) {
            (
                Some(game_uuid),
                Some(request_uuid),
                Some(request_timestamp),
                Some(algo),
                Some(body),
            ) => Some(GameRequestBody { game_uuid, request_uuid, request_timestamp, algo, body }),
            _ => None,
        }
    }

    fn decode(object: &JsonObject) -> (value: Option<Self>) {
        let Some(game_uuid) = read_uuid(object, "game_uuid") else {
            return None;
        };
        let Some(request_uuid) = read_uuid(object, "request_uuid") else {
            return None;
        };
        let Some(request_timestamp) = read_timestamp(object, "request_timestamp") else {
            return None;
        };
        let Some(algo) = read_algorithm(object, "algo") else {
            return None;
        };
        let Some(body) = T::decode(object) else {
            return None;
        };
        Some(GameRequestBody { game_uuid, request_uuid, request_timestamp, algo, body })
    }
}

} // verus!
