//! The verification of a game request, as a conversation with the store.
//!
//! Verifying a request takes up to three answers from the store: the game's
//! secret, whether the request was seen before, and whether recording it
//! succeeded. The functions here decide; whoever holds the store asks it what
//! [`VerifyStep::Ask`] names and hands the answer back.

use crate::db::error::StoreError;
use crate::server::requests::hasher::RequestSigningHasher;
use crate::server::requests::{
    FromJsonObject, GameRequestBody, GameRequestPayload, RequestBodyVerifyError, VerificationError,
};
use crate::util::time::Timestamp;
use crate::util::uuid::Uuid;
use vstd::prelude::*;

verus! {

/// Amount of time allowed between the system clock and a request's
/// timestamp: two days, in nanoseconds.
pub const TIME_SKEW_NANOS: u64 = 172_800_000_000_000;

/// What the store holds of a game for the verification of its requests.
#[derive(Debug)]
pub struct GameSecret {
    pub game_uuid: Uuid,
    pub secret_key: String,
    /// The lowest ordinal of a security level that the game accepts.
    pub minimum_security_level: i32,
}

impl Clone for GameSecret {
    fn clone(&self) -> (copy: Self)
        ensures
            copy == *self,
    {
        GameSecret {
            game_uuid: self.game_uuid,
            secret_key: self.secret_key.clone(),
            minimum_security_level: self.minimum_security_level,
        }
    }
}

/// A question to the store.
#[derive(Debug, Clone, Copy, PartialEq, Eq, Structural)]
pub enum StoreQuery {
    /// The secret of the game with this UUID.
    FindGameSecret(Uuid),
    /// Whether a request with this UUID was recorded before.
    ReplayExists(Uuid),
    /// Record this request UUID, unless it is recorded already.
    ReplayInsert(Uuid),
}

/// An answer of the store.
#[derive(Debug)]
pub enum StoreReply {
    /// To `FindGameSecret`: the game, or that there is none.
    GameSecret(Option<GameSecret>),
    /// To `ReplayExists`.
    ReplayExists(bool),
    /// To `ReplayInsert`: the UUID is now recorded and was not before.
    ReplayInserted,
    /// To `ReplayInsert`: the UUID was recorded already.
    ReplayConflict,
    /// To any question: the store failed.
    Failed(StoreError),
}

/// A verification that waits for an answer of the store.
#[derive(Debug)]
pub enum VerifyState<T> {
    AwaitingGame { payload: GameRequestPayload, body: GameRequestBody<T>, now: Timestamp },
    AwaitingReplayCheck { body: GameRequestBody<T> },
    AwaitingReplayInsert { body: GameRequestBody<T> },
}

/// Where a verification stands after a step.
#[derive(Debug)]
pub enum VerifyStep<T> {
    /// The store is to answer the query; the verification resumes from the
    /// state with its answer.
    Ask(StoreQuery, VerifyState<T>),
    /// The verification has ended.
    Done(Result<GameRequestBody<T>, RequestBodyVerifyError>),
}

impl<T> VerifyState<T> {
    /// The question that the state waits on.
    pub open spec fn query(self) -> StoreQuery {
        match self {
            VerifyState::AwaitingGame { payload, body, now } => StoreQuery::FindGameSecret(
                body.game_uuid,
            ),
            VerifyState::AwaitingReplayCheck { body } => StoreQuery::ReplayExists(
                body.request_uuid,
            ),
            VerifyState::AwaitingReplayInsert { body } => StoreQuery::ReplayInsert(
                body.request_uuid,
            ),
        }
    }

    /// How many answers the verification can still take.
    pub open spec fn answers_left(self) -> nat {
        match self {
            VerifyState::AwaitingGame { payload, body, now } => 3,
            VerifyState::AwaitingReplayCheck { body } => 2,
            VerifyState::AwaitingReplayInsert { body } => 1,
        }
    }
}

impl<T> VerifyStep<T> {
    /// How many answers the verification can still take.
    pub open spec fn answers_left(self) -> nat {
        match self {
            VerifyStep::Ask(_, state) => state.answers_left(),
            VerifyStep::Done(_) => 0,
        }
    }

    /// Whether the step asks what its state waits on.
    pub open spec fn well_formed(self) -> bool {
        match self {
            VerifyStep::Ask(query, state) => query == state.query(),
            VerifyStep::Done(_) => true,
        }
    }
}

/// Whether a request signed with `algorithm` meets a game's minimum level.
pub open spec fn level_attained<T>(body: GameRequestBody<T>, game: GameSecret) -> bool {
    body.algo.hasher().level().ordinal() >= game.minimum_security_level
}

/// Whether a request's timestamp is within the allowed skew of `now`.
pub open spec fn timestamp_current<T>(body: GameRequestBody<T>, now: Timestamp) -> bool {
    now.distance(body.request_timestamp) <= TIME_SKEW_NANOS
}

/// What the checks that need the game's secret make of a request: the first
/// that fails, in the order level, signature, timestamp.
pub open spec fn checked_against_game<T>(
    payload: GameRequestPayload,
    body: GameRequestBody<T>,
    game: GameSecret,
    now: Timestamp,
) -> Result<(), RequestBodyVerifyError> {
    if !level_attained(body, game) {
        Err(RequestBodyVerifyError::SecurityLevelNotAttained)
    } else if !payload.signature_matches(game.secret_key@, &body.algo.hasher()) {
        Err(RequestBodyVerifyError::VerificationError(VerificationError))
    } else if !timestamp_current(body, now) {
        Err(RequestBodyVerifyError::BadRequestTimestamp)
    } else {
        Ok(())
    }
}

/// The first step of a verification: opening the payload.
pub open spec fn begun<T: FromJsonObject>(
    payload: GameRequestPayload,
    now: Timestamp,
) -> VerifyStep<T> {
    match payload.deserialized::<GameRequestBody<T>>() {
        Err(error) => VerifyStep::Done(Err(RequestBodyVerifyError::DeserializeError(error))),
        Ok(body) => VerifyStep::Ask(
            StoreQuery::FindGameSecret(body.game_uuid),
            VerifyState::AwaitingGame { payload, body, now },
        ),
    }
}

/// The step that follows an answer of the store.
///
/// A failure of the store ends the verification with that failure, and so
/// does an answer to another question than the one asked. A conflict on
/// recording the request is a replay, as is finding it recorded.
pub open spec fn resumed<T>(state: VerifyState<T>, reply: StoreReply) -> VerifyStep<T> {
    match reply {
        StoreReply::Failed(error) => VerifyStep::Done(
            Err(RequestBodyVerifyError::StoreError(error)),
        ),
        StoreReply::GameSecret(found) => match state {
            VerifyState::AwaitingGame { payload, body, now } => match found {
                None => VerifyStep::Done(Err(RequestBodyVerifyError::NoSuchGame)),
                Some(game) => match checked_against_game(payload, body, game, now) {
                    Err(error) => VerifyStep::Done(Err(error)),
                    Ok(_) => VerifyStep::Ask(
                        StoreQuery::ReplayExists(body.request_uuid),
                        VerifyState::AwaitingReplayCheck { body },
                    ),
                },
            },
            _ => VerifyStep::Done(Err(RequestBodyVerifyError::StoreError(StoreError::Other))),
        },
        StoreReply::ReplayExists(seen) => match state {
            VerifyState::AwaitingReplayCheck { body } => if seen {
                VerifyStep::Done(Err(RequestBodyVerifyError::RequestAlreadySeen))
            } else {
                VerifyStep::Ask(
                    StoreQuery::ReplayInsert(body.request_uuid),
                    VerifyState::AwaitingReplayInsert { body },
                )
            },
            _ => VerifyStep::Done(Err(RequestBodyVerifyError::StoreError(StoreError::Other))),
        },
        StoreReply::ReplayInserted => match state {
            VerifyState::AwaitingReplayInsert { body } => VerifyStep::Done(Ok(body)),
            _ => VerifyStep::Done(Err(RequestBodyVerifyError::StoreError(StoreError::Other))),
        },
        StoreReply::ReplayConflict => match state {
            VerifyState::AwaitingReplayInsert { body } => VerifyStep::Done(
                Err(RequestBodyVerifyError::RequestAlreadySeen),
            ),
            _ => VerifyStep::Done(Err(RequestBodyVerifyError::StoreError(StoreError::Other))),
        },
    }
}

/// Runs the checks that need the game's secret: the security level first,
/// then the signature, then the timestamp.
pub fn check_against_game<T>(
    payload: &GameRequestPayload,
    body: &GameRequestBody<T>,
    game: &GameSecret,
    now: Timestamp,
) -> (verdict: Result<(), RequestBodyVerifyError>)
    ensures
        verdict == checked_against_game(*payload, *body, *game, now),
{
    let hasher = body.algo.into_hasher();
    // The level is judged before the signature, so that a forged signature
    // under a weaker algorithm learns nothing from the answer.
    if i32::from(hasher.security_level()) < game.minimum_security_level {
        return Err(RequestBodyVerifyError::SecurityLevelNotAttained);
    }
    match payload.verify(game.secret_key.as_str(), &hasher) {
        Ok(_) => {},
        Err(error) => {
            return Err(RequestBodyVerifyError::VerificationError(error));
        },
    }
    if now.is_farther_than(&body.request_timestamp, TIME_SKEW_NANOS) {
        return Err(RequestBodyVerifyError::BadRequestTimestamp);
    }
    Ok(())
}

impl<T: FromJsonObject> GameRequestBody<T> {
    /// Opens a payload and, where it spells a request, asks for the game
    /// that the request names.
    pub fn begin_verify(payload: &GameRequestPayload, now: Timestamp) -> (step: VerifyStep<T>)
        ensures
            step == begun::<T>(*payload, now),
    {
        match payload.deserialize::<GameRequestBody<T>>() {
            Err(error) => VerifyStep::Done(Err(RequestBodyVerifyError::DeserializeError(error))),
            Ok(body) => VerifyStep::Ask(
                StoreQuery::FindGameSecret(body.game_uuid),
                VerifyState::AwaitingGame { payload: payload.clone(), body, now },
            ),
        }
    }
}

impl<T> GameRequestBody<T> {
    /// Takes the store's answer to the question that `state` waits on and
    /// decides how the verification goes on.
    pub fn resume_verify(state: VerifyState<T>, reply: StoreReply) -> (step: VerifyStep<T>)
        ensures
            step == resumed(state, reply),
    {
        match reply {
            StoreReply::Failed(error) => VerifyStep::Done(
                Err(RequestBodyVerifyError::StoreError(error)),
            ),
            StoreReply::GameSecret(found) => match state {
                VerifyState::AwaitingGame { payload, body, now } => match found {
                    None => VerifyStep::Done(Err(RequestBodyVerifyError::NoSuchGame)),
                    Some(game) => match check_against_game(&payload, &body, &game, now) {
                        Err(error) => VerifyStep::Done(Err(error)),
                        Ok(_) => VerifyStep::Ask(
                            StoreQuery::ReplayExists(body.request_uuid),
                            VerifyState::AwaitingReplayCheck { body },
                        ),
                    },
                },
                _ => VerifyStep::Done(Err(RequestBodyVerifyError::StoreError(StoreError::Other))),
            },
            StoreReply::ReplayExists(seen) => match state {
                VerifyState::AwaitingReplayCheck { body } => if seen {
                    VerifyStep::Done(Err(RequestBodyVerifyError::RequestAlreadySeen))
                } else {
                    VerifyStep::Ask(
                        StoreQuery::ReplayInsert(body.request_uuid),
                        VerifyState::AwaitingReplayInsert { body },
                    )
                },
                _ => VerifyStep::Done(Err(RequestBodyVerifyError::StoreError(StoreError::Other))),
            },
            StoreReply::ReplayInserted => match state {
                VerifyState::AwaitingReplayInsert { body } => VerifyStep::Done(Ok(body)),
                _ => VerifyStep::Done(Err(RequestBodyVerifyError::StoreError(StoreError::Other))),
            },
            StoreReply::ReplayConflict => match state {
                VerifyState::AwaitingReplayInsert { body } => VerifyStep::Done(
                    Err(RequestBodyVerifyError::RequestAlreadySeen),
                ),
                _ => VerifyStep::Done(Err(RequestBodyVerifyError::StoreError(StoreError::Other))),
            },
        }
    }
}

} // verus!
