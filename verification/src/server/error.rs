//! The answers of the service to its callers: success, and what went wrong.

pub mod messages;

use crate::db::error::StoreError;
use crate::server::requests::RequestBodyVerifyError;
use vstd::prelude::*;
use vstd::std_specs::convert::FromSpecImpl;
use vstd::string::StringExecFns;

verus! {

#[derive(Debug, Clone, Copy, PartialEq, Eq, Structural)]
pub enum ApiStatus {
    Success,
    Error,
}

/// The HTTP statuses that the service answers with.
#[derive(Debug, Clone, Copy, PartialEq, Eq, Structural)]
pub enum Status {
    BadRequest,
    Unauthorized,
    Forbidden,
    NotFound,
    Conflict,
    InternalServerError,
}

impl Status {
    /// The number of the status.
    pub open spec fn code_of(self) -> u16 {
        match self {
            Status::BadRequest => 400,
            Status::Unauthorized => 401,
            Status::Forbidden => 403,
            Status::NotFound => 404,
            Status::Conflict => 409,
            Status::InternalServerError => 500,
        }
    }

    pub fn code(&self) -> (code: u16)
        ensures
            code == self.code_of(),
    {
        match self {
            Status::BadRequest => 400,
            Status::Unauthorized => 401,
            Status::Forbidden => 403,
            Status::NotFound => 404,
            Status::Conflict => 409,
            Status::InternalServerError => 500,
        }
    }
}

/// The body of a successful answer: the status beside the fields of `body`.
#[derive(Debug)]
pub struct ApiSuccessResponseBody<T> {
    pub status: ApiStatus,
    pub body: T,
}

#[derive(Debug)]
pub struct ApiSuccessResponse<T> {
    pub json: ApiSuccessResponseBody<T>,
}

/// An answer that says what went wrong.
#[derive(Debug)]
pub struct ApiError {
    status: Status,
    message: String,
}

#[derive(Debug)]
pub struct ErrorPayload {
    pub status: ApiStatus,
    pub reason: String,
}

impl<T> ApiSuccessResponse<T> {
    pub fn new(body: T) -> (response: ApiSuccessResponse<T>)
        ensures
            response.json.status == ApiStatus::Success,
            response.json.body == body,
    {
        let body = ApiSuccessResponseBody { status: ApiStatus::Success, body };
        ApiSuccessResponse { json: body }
    }
}

impl View for ApiError {
    type V = (Status, Seq<char>);

    closed spec fn view(&self) -> (Status, Seq<char>) {
        (self.status, self.message@)
    }
}

/// How a failure of the store is answered: a missing row as not found, a
/// violated constraint with the store's message behind a fixed prefix, and
/// anything else as an internal error that says nothing of its cause.
pub open spec fn store_error_answer(error: StoreError) -> (Status, Seq<char>) {
    match error {
        StoreError::NotFound => (Status::NotFound, messages::NOT_FOUND@),
        StoreError::UniqueViolation(info) => (Status::Conflict, "Uniqueness error: "@ + info@),
        StoreError::ForeignKeyViolation(info) => (
            Status::BadRequest,
            "Foreign key violation: "@ + info@,
        ),
        StoreError::Other => (Status::InternalServerError, messages::UNKNOWN_DB_ERROR@),
    }
}

/// How a request that was turned down is answered.
///
/// A request that cannot be read is a bad request, and one for a game that
/// does not exist is not found. A request that fails on its security level,
/// its signature, its timestamp or as a replay gets one and the same answer,
/// which does not tell the four apart. A failure of the store is an internal
/// error that says nothing of its cause.
pub open spec fn verify_error_answer(error: RequestBodyVerifyError) -> (Status, Seq<char>) {
    match error {
        RequestBodyVerifyError::PayloadError(_) => (Status::BadRequest, messages::BAD_REQUEST@),
        RequestBodyVerifyError::DeserializeError(_) => (Status::BadRequest, messages::BAD_REQUEST@),
        RequestBodyVerifyError::StoreError(_) => (
            Status::InternalServerError,
            messages::UNKNOWN_DB_ERROR@,
        ),
        RequestBodyVerifyError::NoSuchGame => (Status::NotFound, "No such game"@),
        RequestBodyVerifyError::VerificationError(_) => (Status::Forbidden, messages::FORBIDDEN@),
        RequestBodyVerifyError::BadRequestTimestamp => (Status::Forbidden, messages::FORBIDDEN@),
        RequestBodyVerifyError::RequestAlreadySeen => (Status::Forbidden, messages::FORBIDDEN@),
        RequestBodyVerifyError::SecurityLevelNotAttained => (
            Status::Forbidden,
            messages::FORBIDDEN@,
        ),
    }
}

/// A request that fails on its security level, its signature, its timestamp
/// or as a replay is answered in one and the same way, so that the answer
/// does not tell which check failed.
pub proof fn lemma_refusals_are_answered_alike(error: RequestBodyVerifyError)
    requires
        error is SecurityLevelNotAttained || error is VerificationError
            || error is BadRequestTimestamp || error is RequestAlreadySeen,
    ensures
        verify_error_answer(error) == (Status::Forbidden, messages::FORBIDDEN@),
{
}

impl ApiError {
    pub fn bad_request() -> (error: ApiError)
        ensures
            error@ == (Status::BadRequest, messages::BAD_REQUEST@),
    {
        ApiError { status: Status::BadRequest, message: String::from_str(messages::BAD_REQUEST) }
    }

    pub fn unauthorized() -> (error: ApiError)
        ensures
            error@ == (Status::Unauthorized, messages::UNAUTHORIZED@),
    {
        ApiError { status: Status::Unauthorized, message: String::from_str(messages::UNAUTHORIZED) }
    }

    pub fn forbidden() -> (error: ApiError)
        ensures
            error@ == (Status::Forbidden, messages::FORBIDDEN@),
    {
        ApiError { status: Status::Forbidden, message: String::from_str(messages::FORBIDDEN) }
    }

    pub fn not_found() -> (error: ApiError)
        ensures
            error@ == (Status::NotFound, messages::NOT_FOUND@),
    {
        ApiError { status: Status::NotFound, message: String::from_str(messages::NOT_FOUND) }
    }

    pub fn conflict(message: &str) -> (error: ApiError)
        ensures
            error@ == (Status::Conflict, message@),
    {
        ApiError { status: Status::Conflict, message: String::from_str(message) }
    }

    /// A 500 Internal Server Error.
    pub fn internal_server_error(message: &str) -> (error: ApiError)
        ensures
            error@ == (Status::InternalServerError, message@),
    {
        ApiError { status: Status::InternalServerError, message: String::from_str(message) }
    }

    pub fn status(&self) -> (status: Status)
        ensures
            status == self@.0,
    {
        self.status
    }

    pub fn message(&self) -> (message: &str)
        ensures
            message@ == self@.1,
    {
        self.message.as_str()
    }

    pub fn with_message(self, message: String) -> (error: ApiError)
        ensures
            error@ == (self@.0, message@),
    {
        ApiError { status: self.status, message }
    }

    /// Answers a failure of the store.
    pub fn from_store_error(err: StoreError) -> (error: ApiError)
        ensures
            error@ == store_error_answer(err),
    {
        match err {
            StoreError::NotFound => ApiError::not_found(),
            StoreError::UniqueViolation(info) => {
                let mut message = String::from_str("Uniqueness error: ");
                message.append(info.as_str());
                ApiError::conflict(message.as_str())
            },
            StoreError::ForeignKeyViolation(info) => {
                let mut message = String::from_str("Foreign key violation: ");
                message.append(info.as_str());
                ApiError::bad_request().with_message(message)
            },
            StoreError::Other => ApiError::internal_server_error(messages::UNKNOWN_DB_ERROR),
        }
    }

    /// As [`ApiError::from_store_error`] but treats a row that was not found
    /// as a bad request rather than as not found. This is suitable on
    /// creation requests, where the lookup is not the primary task and hence
    /// a failed lookup is a fault of the request.
    pub fn from_on_create(err: StoreError) -> (error: ApiError)
        ensures
            error@ == if err is NotFound {
                (Status::BadRequest, messages::NOT_FOUND@)
            } else {
                store_error_answer(err)
            },
    {
        match err {
            StoreError::NotFound => ApiError::bad_request().with_message(
                String::from_str(messages::NOT_FOUND),
            ),
            other => ApiError::from_store_error(other),
        }
    }

    /// Answers a request that was turned down.
    pub fn from_verify_error(err: RequestBodyVerifyError) -> (error: ApiError)
        ensures
            error@ == verify_error_answer(err),
    {
        match err {
            RequestBodyVerifyError::PayloadError(_) => ApiError::bad_request(),
            RequestBodyVerifyError::DeserializeError(_) => ApiError::bad_request(),
            RequestBodyVerifyError::StoreError(_) => ApiError::internal_server_error(
                messages::UNKNOWN_DB_ERROR,
            ),
            RequestBodyVerifyError::VerificationError(_) => ApiError::forbidden(),
            RequestBodyVerifyError::BadRequestTimestamp => ApiError::forbidden(),
            RequestBodyVerifyError::RequestAlreadySeen => ApiError::forbidden(),
            RequestBodyVerifyError::NoSuchGame => ApiError::not_found().with_message(
                String::from_str("No such game"),
            ),
            RequestBodyVerifyError::SecurityLevelNotAttained => ApiError::forbidden(),
        }
    }
}

impl From<StoreError> for ApiError {
    fn from(err: StoreError) -> (error: ApiError)
        ensures
            error@ == store_error_answer(err),
    {
        ApiError::from_store_error(err)
    }
}

/// What the conversion gives is stated on `from` itself, by the status and
/// the message of the answer.
impl FromSpecImpl<StoreError> for ApiError {
    open spec fn obeys_from_spec() -> bool {
        false
    }

    open spec fn from_spec(err: StoreError) -> Self {
        arbitrary()
    }
}

impl From<RequestBodyVerifyError> for ApiError {
    fn from(err: RequestBodyVerifyError) -> (error: ApiError)
        ensures
            error@ == verify_error_answer(err),
    {
        ApiError::from_verify_error(err)
    }
}

/// What the conversion gives is stated on `from` itself, by the status and
/// the message of the answer.
impl FromSpecImpl<RequestBodyVerifyError> for ApiError {
    open spec fn obeys_from_spec() -> bool {
        false
    }

    open spec fn from_spec(err: RequestBodyVerifyError) -> Self {
        arbitrary()
    }
}

impl Clone for ApiError {
    fn clone(&self) -> (copy: Self)
        ensures
            copy == *self,
    {
        ApiError { status: self.status, message: self.message.clone() }
    }
}

impl Clone for ErrorPayload {
    fn clone(&self) -> (copy: Self)
        ensures
            copy == *self,
    {
        ErrorPayload { status: self.status, reason: self.reason.clone() }
    }
}

impl ErrorPayload {
    pub fn new(message: String) -> (payload: ErrorPayload)
        ensures
            payload.status == ApiStatus::Error,
            payload.reason == message,
    {
        ErrorPayload { status: ApiStatus::Error, reason: message }
    }
}

} // verus!
