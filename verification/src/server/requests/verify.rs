//! Verifying a request against a store, from the raw payload to the record
//! that it was seen, and what holds of every such verification.

use crate::args::cleanup_cutoff_of;
use crate::db::store::{Store, StoreView};
use crate::server::requests::hasher::RequestSigningHasher;
use crate::server::requests::protocol::{
    begun, checked_against_game, level_attained, resumed, timestamp_current, VerifyStep,
    TIME_SKEW_NANOS,
};
use crate::server::requests::{
    DeserializeError, FromJsonObject, GameRequestBody, GameRequestPayload, RequestAlgorithm,
    RequestBodyVerifyError,
};
use crate::util::time::Timestamp;
use crate::util::uuid::Uuid;
use vstd::prelude::*;

verus! {

/// What verification makes of a request, against what the store holds at
/// the time `now`.
///
/// The checks come in a fixed order and the first that fails decides: the
/// payload must spell a request, the game that it names must exist, the
/// algorithm must attain the game's minimum level, the signature must be
/// the one expected under the game's secret, the timestamp must be within
/// the allowed skew of `now`, and the request must not have been seen.
pub open spec fn verified<T: FromJsonObject>(
    payload: GameRequestPayload,
    store: StoreView,
    now: Timestamp,
) -> Result<GameRequestBody<T>, RequestBodyVerifyError> {
    match payload.deserialized::<GameRequestBody<T>>() {
        Err(error) => Err(RequestBodyVerifyError::DeserializeError(error)),
        Ok(body) => match store.game_secret(body.game_uuid) {
            None => Err(RequestBodyVerifyError::NoSuchGame),
            Some(game) => match checked_against_game(payload, body, game, now) {
                Err(error) => Err(error),
                Ok(_) => if store.seen.contains_key(body.request_uuid) {
                    Err(RequestBodyVerifyError::RequestAlreadySeen)
                } else {
                    Ok(body)
                },
            },
        },
    }
}

/// The store after a verification at the time `now`: an accepted request is
/// recorded with that time, and nothing else changes.
pub open spec fn committed<T>(
    outcome: Result<GameRequestBody<T>, RequestBodyVerifyError>,
    store: StoreView,
    now: Timestamp,
) -> StoreView {
    match outcome {
        Ok(body) => store.replay_recorded(body.request_uuid, now),
        Err(_) => store,
    }
}

/// One turn of a verification against the store: the store answers what the
/// step asks, and the verification resumes with the answer. A verification
/// that has ended stays as it is.
pub open spec fn advanced<T>(step: VerifyStep<T>, store: StoreView, now: Timestamp) -> (
    VerifyStep<T>,
    StoreView,
) {
    match step {
        VerifyStep::Done(_) => (step, store),
        VerifyStep::Ask(query, state) => {
            let (reply, next) = store.answered(query, now);
            (resumed(state, reply), next)
        },
    }
}

/// How a verification ends that is carried on, turn by turn, against a store
/// that nothing else touches, and how it leaves the store.
pub open spec fn completed<T>(step: VerifyStep<T>, store: StoreView, now: Timestamp) -> (
    Result<GameRequestBody<T>, RequestBodyVerifyError>,
    StoreView,
)
    decreases step.answers_left(),
{
    match step {
        VerifyStep::Done(outcome) => (outcome, store),
        VerifyStep::Ask(query, state) => {
            let (next, after) = advanced(step, store, now);
            completed(next, after, now)
        },
    }
}

/// A verification that starts with opening the payload ends, after at most
/// three answers of the store, with what `verified` says, and leaves the
/// store as `committed` says.
pub proof fn lemma_completed_as_verified<T: FromJsonObject>(
    payload: GameRequestPayload,
    store: StoreView,
    now: Timestamp,
)
    ensures
        begun::<T>(payload, now).answers_left() <= 3,
        completed(begun::<T>(payload, now), store, now) == (
            verified::<T>(payload, store, now),
            committed(verified::<T>(payload, store, now), store, now),
        ),
{
    reveal_with_fuel(completed, 4);
}

impl<T: FromJsonObject> GameRequestBody<T> {
    /// Verifies a request against the store, as of the time `now`, and
    /// records it as seen where it is accepted.
    pub fn full_verify_at_time(
        payload: &GameRequestPayload,
        db: &mut Store,
        now: Timestamp,
    ) -> (outcome: Result<Self, RequestBodyVerifyError>)
        ensures
            outcome == verified::<T>(*payload, old(db)@, now),
            final(db)@ == committed(outcome, old(db)@, now),
    {
        let mut step = Self::begin_verify(payload, now);
        loop
            invariant
                completed(step, db@, now) == completed(begun::<T>(*payload, now), old(db)@, now),
            decreases step.answers_left(),
        {
            match step {
                VerifyStep::Done(outcome) => {
                    proof {
                        lemma_completed_as_verified::<T>(*payload, old(db)@, now);
                    }
                    return outcome;
                },
                VerifyStep::Ask(query, state) => {
                    let reply = db.answer(query, now);
                    step = Self::resume_verify(state, reply);
                },
            }
        }
    }

    /// Reads a request from its text, verifies it against the store as of
    /// the time `now`, records it as seen where it is accepted, and returns
    /// what it says beside the envelope.
    ///
    /// A text without a dot is turned down before anything else is looked
    /// at, and leaves the store as it is.
    pub fn verify_and_decode(raw_text: &str, db: &mut Store, now: Timestamp) -> (outcome: Result<
        T,
        RequestBodyVerifyError,
    >)
        ensures
            !raw_text@.contains('.') ==> outcome is Err && outcome->Err_0 is PayloadError
                && final(db)@ == old(db)@,
            raw_text@.contains('.') ==> exists|payload: GameRequestPayload|
                {
                    &&& #[trigger] payload.is_split_of(raw_text@)
                    &&& final(db)@ == committed(
                        verified::<T>(payload, old(db)@, now),
                        old(db)@,
                        now,
                    )
                    &&& match verified::<T>(payload, old(db)@, now) {
                        Ok(request) => outcome == Ok::<T, RequestBodyVerifyError>(request.body),
                        Err(error) => outcome == Err::<T, RequestBodyVerifyError>(error),
                    }
                },
    {
        let payload = match GameRequestPayload::from_str(raw_text) {
            Ok(payload) => payload,
            Err(error) => {
                return Err(RequestBodyVerifyError::PayloadError(error));
            },
        };
        proof {
            assert(raw_text@[payload.payload_text().len() as int] == '.');
        }
        match Self::full_verify_at_time(&payload, db, now) {
            Ok(request) => Ok(request.body),
            Err(error) => Err(error),
        }
    }

    /// Verifies a request against the store, as of the time that the system
    /// clock shows.
    pub fn full_verify(payload: &GameRequestPayload, db: &mut Store) -> (outcome: Result<
        Self,
        RequestBodyVerifyError,
    >)
        ensures
            exists|now: Timestamp|
                outcome == #[trigger] verified::<T>(*payload, old(db)@, now) && final(db)@
                    == committed(outcome, old(db)@, now),
    {
        let now = Timestamp::now();
        Self::full_verify_at_time(payload, db, now)
    }
}

/// A request that spells itself correctly, names a registered game, uses an
/// algorithm of the game's level, is signed with the game's secret, carries a
/// current timestamp and a request UUID that was never seen, is accepted;
/// and the same request, verified again at the same time against the store
/// that accepting it left, is turned down as seen already.
pub proof fn lemma_accepted_exactly_once<T: FromJsonObject>(
    payload: GameRequestPayload,
    store: StoreView,
    now: Timestamp,
)
    requires
        payload.deserialized::<GameRequestBody<T>>() is Ok,
        store.game_secret(payload.deserialized::<GameRequestBody<T>>()->Ok_0.game_uuid) is Some,
        ({
            let body = payload.deserialized::<GameRequestBody<T>>()->Ok_0;
            let game = store.game_secret(body.game_uuid)->Some_0;
            &&& level_attained(body, game)
            &&& payload.signature_matches(game.secret_key@, &body.algo.hasher())
            &&& timestamp_current(body, now)
            &&& !store.seen.contains_key(body.request_uuid)
        }),
    ensures
        ({
            let body = payload.deserialized::<GameRequestBody<T>>()->Ok_0;
            let first = verified::<T>(payload, store, now);
            let second = verified::<T>(payload, committed(first, store, now), now);
            &&& first == Ok::<GameRequestBody<T>, RequestBodyVerifyError>(body)
            &&& second == Err::<GameRequestBody<T>, RequestBodyVerifyError>(
                RequestBodyVerifyError::RequestAlreadySeen,
            )
        }),
{
}

/// A request is accepted only where every check holds: it spells itself
/// correctly, its game exists, its algorithm attains the game's minimum
/// level, its signature is the one expected under the game's secret, its
/// timestamp is current, and its request UUID was never seen.
pub proof fn lemma_accepted_request_passed_every_check<T: FromJsonObject>(
    payload: GameRequestPayload,
    store: StoreView,
    now: Timestamp,
)
    requires
        verified::<T>(payload, store, now) is Ok,
    ensures
        payload.deserialized::<GameRequestBody<T>>() == Ok::<GameRequestBody<T>, DeserializeError>(
            verified::<T>(payload, store, now)->Ok_0,
        ),
        store.game_secret(verified::<T>(payload, store, now)->Ok_0.game_uuid) is Some,
        ({
            let body = verified::<T>(payload, store, now)->Ok_0;
            let game = store.game_secret(body.game_uuid)->Some_0;
            &&& level_attained(body, game)
            &&& body.algo.hasher().level().ordinal() >= game.minimum_security_level
            &&& payload.signature_matches(game.secret_key@, &body.algo.hasher())
            &&& timestamp_current(body, now)
            &&& !store.seen.contains_key(body.request_uuid)
        }),
{
}

/// A request whose UUID the store has recorded is never accepted again,
/// whatever else it says and whenever it comes.
pub proof fn lemma_recorded_request_is_never_accepted<T: FromJsonObject>(
    payload: GameRequestPayload,
    store: StoreView,
    now: Timestamp,
)
    requires
        payload.deserialized::<GameRequestBody<T>>() is Ok,
        store.seen.contains_key(payload.deserialized::<GameRequestBody<T>>()->Ok_0.request_uuid),
    ensures
        verified::<T>(payload, store, now) is Err,
{
}

/// Verification forgets no request and rewrites no record: what was
/// recorded before is recorded after, with the time that it had, and an
/// accepted request is recorded with the time of its verification. Games
/// and tables are as they were.
pub proof fn lemma_verification_only_records<T: FromJsonObject>(
    payload: GameRequestPayload,
    store: StoreView,
    now: Timestamp,
)
    ensures
        ({
            let outcome = verified::<T>(payload, store, now);
            let after = committed(outcome, store, now);
            &&& forall|request_uuid: Uuid| #[trigger]
                store.seen.contains_key(request_uuid) ==> after.seen.contains_key(request_uuid)
                    && after.seen[request_uuid] == store.seen[request_uuid]
            &&& outcome is Ok ==> after.seen.contains_key(outcome->Ok_0.request_uuid)
                && after.seen[outcome->Ok_0.request_uuid] == now
            &&& after.games == store.games
            &&& after.tables == store.tables
            &&& after.rows == store.rows
        }),
{
}

/// Cleaning up re-admits no request. A request that was accepted is turned
/// down when it comes again, also after the records of old requests were
/// removed, provided that the cutoff of the cleaning lies at least twice the
/// allowed skew before the time at which the request comes again: where its
/// record is still there it is a replay, and where its record is gone its
/// timestamp is no longer current.
pub proof fn lemma_cleanup_readmits_no_request<T: FromJsonObject>(
    payload: GameRequestPayload,
    store: StoreView,
    accepted_at: Timestamp,
    cutoff: Timestamp,
    later: Timestamp,
)
    requires
        verified::<T>(payload, store, accepted_at) is Ok,
        cutoff.nanos + 2 * TIME_SKEW_NANOS <= later.nanos,
    ensures
        verified::<T>(
            payload,
            committed(verified::<T>(payload, store, accepted_at), store, accepted_at).cleaned_up(
                cutoff,
            ),
            later,
        ) is Err,
{
    let body = verified::<T>(payload, store, accepted_at)->Ok_0;
    let recorded = committed(verified::<T>(payload, store, accepted_at), store, accepted_at);
    let cleaned = recorded.cleaned_up(cutoff);
    if !cleaned.seen.contains_key(body.request_uuid) {
        // The record is gone, so it was older than the cutoff; the request's
        // timestamp, which was current then, is stale by now.
        assert(recorded.seen[body.request_uuid] == accepted_at);
        assert(accepted_at.is_before(cutoff));
        assert(!timestamp_current(body, later));
    }
}

/// The service cleans up with a cutoff of seven days, which is more than
/// twice the allowed skew of two days: a request that was accepted is turned
/// down when it comes again at or after the time of any such cleaning.
pub proof fn lemma_weekly_cleanup_readmits_no_request<T: FromJsonObject>(
    payload: GameRequestPayload,
    store: StoreView,
    accepted_at: Timestamp,
    cleaned_at: Timestamp,
    later: Timestamp,
)
    requires
        verified::<T>(payload, store, accepted_at) is Ok,
        cleanup_cutoff_of(cleaned_at) is Some,
        cleaned_at.nanos <= later.nanos,
    ensures
        verified::<T>(
            payload,
            committed(verified::<T>(payload, store, accepted_at), store, accepted_at).cleaned_up(
                cleanup_cutoff_of(cleaned_at)->Some_0,
            ),
            later,
        ) is Err,
{
    lemma_cleanup_readmits_no_request::<T>(
        payload,
        store,
        accepted_at,
        cleanup_cutoff_of(cleaned_at)->Some_0,
        later,
    );
}

/// A request signed with the legacy algorithm for a game whose minimum level
/// is that of the modern one is turned down for its level, whether or not
/// its signature is the one expected.
pub proof fn lemma_legacy_algorithm_below_high_minimum<T: FromJsonObject>(
    payload: GameRequestPayload,
    store: StoreView,
    now: Timestamp,
)
    requires
        payload.deserialized::<GameRequestBody<T>>() is Ok,
        payload.deserialized::<GameRequestBody<T>>()->Ok_0.algo == RequestAlgorithm::Sha1,
        store.game_secret(payload.deserialized::<GameRequestBody<T>>()->Ok_0.game_uuid) is Some,
        store.game_secret(
            payload.deserialized::<GameRequestBody<T>>()->Ok_0.game_uuid,
        )->Some_0.minimum_security_level == 10,
    ensures
        verified::<T>(payload, store, now) == Err::<GameRequestBody<T>, RequestBodyVerifyError>(
            RequestBodyVerifyError::SecurityLevelNotAttained,
        ),
{
}

/// A timestamp exactly two days before or after the clock is current; one
/// nanosecond farther it is not.
pub proof fn lemma_skew_boundary<T>(body: GameRequestBody<T>, now: Timestamp)
    ensures
        now.distance(body.request_timestamp) == TIME_SKEW_NANOS ==> timestamp_current(body, now),
        now.distance(body.request_timestamp) == TIME_SKEW_NANOS + 1 ==> !timestamp_current(
            body,
            now,
        ),
        timestamp_current(body, now) <==> -172_800_000_000_000 <= now.nanos
            - body.request_timestamp.nanos <= 172_800_000_000_000,
{
}

} // verus!
