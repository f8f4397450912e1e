//! Authorization primitives of the developer-facing API.

use crate::db::error::StoreError;
use crate::server::error::{ApiError, Status};
use crate::util::header::Authorization;
use crate::util::text::text_equal;
use crate::util::uuid::Uuid;
use vstd::prelude::*;
use vstd::string::StringExecFns;

verus! {

pub const X_API_KEY_HEADER: &'static str = "X-Api-Key";

pub const MISSING_AUTH_HEADER: &'static str = "Missing Authorization header";

pub const INVALID_AUTH_HEADER: &'static str = "Invalid Authorization header";

pub const SECRET_KEY_ENV_VAR: &'static str = "JWT_SECRET_KEY";

/// The lifetime of a token, in seconds: one hour.
pub const JWT_EXPIRATION_SECONDS: i64 = 3600;

/// The bit of [`UserFlags`] that marks an administrator.
pub const ADMIN_BIT: u32 = 0b00000001;

/// The value of the `X-Api-Key` header of a request.
#[derive(Debug, Clone, Copy)]
pub struct XApiKey<'r>(pub &'r str);

/// Flags associated with a user, as a set of bits.
#[derive(Debug, Clone, Copy, PartialEq, Eq, Structural)]
pub struct UserFlags {
    pub bits: u32,
}

impl UserFlags {
    /// Whether every flag of `other` is among the flags of `self`.
    pub open spec fn has(self, other: UserFlags) -> bool {
        self.bits & other.bits == other.bits
    }

    /// No flag.
    pub fn empty() -> (flags: UserFlags)
        ensures
            flags.bits == 0,
    {
        UserFlags { bits: 0 }
    }

    /// The flag of an administrator.
    pub fn admin() -> (flags: UserFlags)
        ensures
            flags.bits == ADMIN_BIT,
    {
        UserFlags { bits: ADMIN_BIT }
    }

    pub fn bits(&self) -> (bits: u32)
        ensures
            bits == self.bits,
    {
        self.bits
    }

    pub fn contains(&self, other: UserFlags) -> (contained: bool)
        ensures
            contained == self.has(other),
    {
        self.bits & other.bits == other.bits
    }
}

/// Why a token could not be made or read.
#[derive(Debug, Clone, Copy, PartialEq, Eq, Structural)]
#[non_exhaustive]
pub enum JwtError {
    /// The token library refused the token or the key.
    JsonWebTokenError,
    /// The environment does not name a secret key.
    MissingJwtSecretKeyEnvVar,
}

/// Why no token was issued for an API key.
#[derive(Debug)]
#[non_exhaustive]
pub enum AuthError {
    JwtError(JwtError),
    StoreError(StoreError),
    InvalidApiKey,
}

#[derive(Debug, Clone, Copy)]
pub struct JwtClaim {
    /// The user's UUID being claimed.
    pub sub: Uuid,
    /// Flags associated with the user.
    pub user_flags: UserFlags,
    /// Expiration time, in seconds since the Unix epoch.
    pub exp: usize,
}

/// A developer who has shown a valid token.
#[derive(Debug, Clone, Copy)]
pub struct DeveloperUser {
    claim: JwtClaim,
}

/// An administrator who has shown a valid token.
///
/// The users accepted as administrators are strictly a subset of those
/// accepted as developers.
#[derive(Debug, Clone, Copy)]
pub struct AdminUser {
    claim: JwtClaim,
}

/// Subset of the `Developer` model containing the columns needed to generate
/// a token.
#[derive(Debug, Clone, Copy)]
pub struct DeveloperPerms {
    pub developer_uuid: Uuid,
    pub is_admin: bool,
}

impl JwtError {
    /// What the error says.
    pub fn to_string(&self) -> (text: String)
        ensures
            text@ == match self {
                JwtError::JsonWebTokenError => "Invalid token"@,
                JwtError::MissingJwtSecretKeyEnvVar =>
                    "Missing JWT_SECRET_KEY environment variable"@,
            },
    {
        match self {
            JwtError::JsonWebTokenError => String::from_str("Invalid token"),
            JwtError::MissingJwtSecretKeyEnvVar => String::from_str(
                "Missing JWT_SECRET_KEY environment variable",
            ),
        }
    }
}

/// How a failure to issue a token is answered: an API key that no developer
/// has as a bad request, anything else as an internal error.
pub open spec fn auth_error_answer(error: AuthError) -> (Status, Seq<char>) {
    match error {
        AuthError::InvalidApiKey => (Status::BadRequest, "Invalid API key"@),
        AuthError::JwtError(JwtError::JsonWebTokenError) => (
            Status::InternalServerError,
            "Invalid token"@,
        ),
        AuthError::JwtError(JwtError::MissingJwtSecretKeyEnvVar) => (
            Status::InternalServerError,
            "Missing JWT_SECRET_KEY environment variable"@,
        ),
        AuthError::StoreError(_) => (
            Status::InternalServerError,
            "An unexpected database error occurred"@,
        ),
    }
}

/// Answers a failure to issue a token.
pub fn answer_auth_error(error: AuthError) -> (answer: ApiError)
    ensures
        answer@ == auth_error_answer(error),
{
    match error {
        AuthError::InvalidApiKey => ApiError::bad_request().with_message(
            String::from_str("Invalid API key"),
        ),
        AuthError::JwtError(inner) => {
            let message = inner.to_string();
            ApiError::internal_server_error(message.as_str())
        },
        AuthError::StoreError(_) => ApiError::internal_server_error(
            crate::server::error::messages::UNKNOWN_DB_ERROR,
        ),
    }
}

/// What a developer's row permits, or that the API key is no developer's.
pub fn perms_for_api_key(found: Option<DeveloperPerms>) -> (perms: Result<
    DeveloperPerms,
    AuthError,
>)
    ensures
        match perms {
            Ok(held) => found == Some(held),
            Err(error) => found is None && error is InvalidApiKey,
        },
{
    match found {
        Some(perms) => Ok(perms),
        None => Err(AuthError::InvalidApiKey),
    }
}

impl JwtClaim {
    /// The claim of a token issued at `issued_at`, in seconds since the
    /// epoch, which expires [`JWT_EXPIRATION_SECONDS`] later; `None` where
    /// that time is before the epoch or beyond what the claim can hold.
    pub fn issued(user_uuid: &Uuid, user_flags: UserFlags, issued_at: i64) -> (claim: Option<
        JwtClaim,
    >)
        ensures
            claim == if 0 <= issued_at + JWT_EXPIRATION_SECONDS <= i64::MAX && issued_at
                + JWT_EXPIRATION_SECONDS <= usize::MAX {
                Some(
                    JwtClaim {
                        sub: *user_uuid,
                        user_flags,
                        exp: (issued_at + JWT_EXPIRATION_SECONDS) as usize,
                    },
                )
            } else {
                None
            },
    {
        if issued_at < -JWT_EXPIRATION_SECONDS || issued_at > i64::MAX - JWT_EXPIRATION_SECONDS {
            return None;
        }
        let expires: i64 = issued_at + JWT_EXPIRATION_SECONDS;
        if expires as u64 > usize::MAX as u64 {
            return None;
        }
        Some(JwtClaim { sub: *user_uuid, user_flags, exp: expires as usize })
    }
}

impl DeveloperPerms {
    pub fn user_flags(&self) -> (flags: UserFlags)
        ensures
            flags.bits == if self.is_admin {
                ADMIN_BIT
            } else {
                0
            },
    {
        if self.is_admin {
            UserFlags::admin()
        } else {
            UserFlags::empty()
        }
    }
}

impl DeveloperUser {
    /// The claim that the user's token made.
    pub closed spec fn claim(&self) -> JwtClaim {
        self.claim
    }

    /// Whether the user's flags mark an administrator.
    pub open spec fn admin(&self) -> bool {
        self.claim().user_flags.has(UserFlags { bits: ADMIN_BIT })
    }

    /// The developer that a verified claim speaks for.
    pub fn from_claim(claim: JwtClaim) -> (user: DeveloperUser)
        ensures
            user.claim() == claim,
    {
        DeveloperUser { claim }
    }

    pub fn user_uuid(&self) -> (uuid: &Uuid)
        ensures
            *uuid == self.claim().sub,
    {
        &self.claim.sub
    }

    pub fn is_admin(&self) -> (admin: bool)
        ensures
            admin == self.admin(),
    {
        self.claim.user_flags.contains(UserFlags::admin())
    }

    pub fn as_ref(&self) -> (claim: &JwtClaim)
        ensures
            *claim == self.claim(),
    {
        &self.claim
    }
}

impl AdminUser {
    /// The claim that the user's token made.
    pub closed spec fn claim(&self) -> JwtClaim {
        self.claim
    }

    /// Accepts a developer as an administrator where the developer's flags
    /// say so, and answers anyone else that this is forbidden.
    pub fn from_developer(developer: DeveloperUser) -> (admin: Result<AdminUser, ApiError>)
        ensures
            match admin {
                Ok(user) => developer.admin() && user.claim() == developer.claim(),
                Err(error) => !developer.admin() && error@ == (Status::Forbidden, "Forbidden"@),
            },
    {
        if !developer.is_admin() {
            return Err(ApiError::forbidden());
        }
        Ok(AdminUser { claim: developer.claim })
    }

    pub fn user_uuid(&self) -> (uuid: &Uuid)
        ensures
            *uuid == self.claim().sub,
    {
        &self.claim.sub
    }

    pub fn as_ref(&self) -> (claim: &JwtClaim)
        ensures
            *claim == self.claim(),
    {
        &self.claim
    }
}

/// The token that an `Authorization` header carries under the scheme
/// `Bearer`.
///
/// A header that is absent or has no scheme is answered as missing, one with
/// another scheme as invalid; both answers are `401 Unauthorized`.
pub fn bearer_token(header: Option<&str>) -> (token: Result<String, ApiError>)
    ensures
        match token {
            Ok(params) => header is Some && header->Some_0@ == "Bearer"@ + seq![' '] + params@,
            Err(error) => if header is Some && header->Some_0@.contains(' ') {
                &&& error@ == (Status::Unauthorized, INVALID_AUTH_HEADER@)
                &&& !(exists|params: Seq<char>| header->Some_0@ == "Bearer"@ + seq![' '] + params)
            } else {
                error@ == (Status::Unauthorized, MISSING_AUTH_HEADER@)
            },
        },
{
    let Some(value) = header else {
        return Err(ApiError::unauthorized().with_message(String::from_str(MISSING_AUTH_HEADER)));
    };
    let Ok(auth_header) = Authorization::from_str(value) else {
        return Err(ApiError::unauthorized().with_message(String::from_str(MISSING_AUTH_HEADER)));
    };
    if !text_equal(auth_header.scheme.as_str(), "Bearer") {
        proof {
            reveal_strlit("Bearer");
            assert(value@[auth_header.scheme@.len() as int] == ' ');
            assert forall|params: Seq<char>|
                value@ == "Bearer"@ + seq![' '] + params implies false by {
                let scheme = auth_header.scheme@;
                let whole = "Bearer"@ + seq![' '] + params;
                assert(whole[6] == ' ');
                if scheme.len() < 6 {
                    // The space behind the scheme would stand within
                    // "Bearer", which has none.
                    assert(whole[scheme.len() as int] == "Bearer"@[scheme.len() as int]);
                } else if scheme.len() > 6 {
                    // The scheme would hold the space behind "Bearer".
                    assert(scheme[6] == value@[6]);
                    assert(scheme.contains(' '));
                } else {
                    assert(scheme =~= "Bearer"@) by {
                        assert forall|i: int| 0 <= i < 6 implies scheme[i] == "Bearer"@[i] by {
                            assert(scheme[i] == value@[i]);
                        }
                    }
                }
            }
        }
        return Err(ApiError::unauthorized().with_message(String::from_str(INVALID_AUTH_HEADER)));
    }
    Ok(auth_header.params)
}

} // verus!
