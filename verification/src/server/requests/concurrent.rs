//! Two verifications at once against one store.
//!
//! Verifications run side by side; what they share is the store, which
//! answers one question at a time. Recording a request is one step of the
//! store, so of two requests with one UUID at most one can be recorded,
//! however their questions interleave.

use crate::db::store::StoreView;
use crate::server::requests::protocol::{begun, StoreQuery, VerifyState, VerifyStep};
use crate::server::requests::verify::{advanced, verified};
use crate::server::requests::{
    FromJsonObject, GameRequestBody, GameRequestPayload, RequestBodyVerifyError,
};
use crate::util::time::Timestamp;
use vstd::prelude::*;

verus! {

/// Two verifications and the store after their turns were taken in the
/// order of `schedule`: `true` gives the first verification a turn, `false`
/// the second. Each verification runs at its own time.
pub open spec fn interleaved<T>(
    first: VerifyStep<T>,
    second: VerifyStep<T>,
    first_now: Timestamp,
    second_now: Timestamp,
    store: StoreView,
    schedule: Seq<bool>,
) -> (VerifyStep<T>, VerifyStep<T>, StoreView)
    decreases schedule.len(),
{
    if schedule.len() == 0 {
        (first, second, store)
    } else {
        let (one, other, before) = interleaved(
            first,
            second,
            first_now,
            second_now,
            store,
            schedule.drop_last(),
        );
        if schedule.last() {
            let (next, after) = advanced(one, before, first_now);
            (next, other, after)
        } else {
            let (next, after) = advanced(other, before, second_now);
            (one, next, after)
        }
    }
}

/// Whether a verification has ended with the request accepted.
pub open spec fn is_accepted<T>(step: VerifyStep<T>) -> bool {
    step is Done && step->Done_0 is Ok
}

/// Whether a verification has ended with the request turned down as seen
/// already.
pub open spec fn is_replay<T>(step: VerifyStep<T>) -> bool {
    step == VerifyStep::<T>::Done(Err(RequestBodyVerifyError::RequestAlreadySeen))
}

/// Where a verification of a request that would be accepted alone can
/// stand while another with the same request UUID runs beside it.
spec fn on_course<T: FromJsonObject>(
    step: VerifyStep<T>,
    payload: GameRequestPayload,
    body: GameRequestBody<T>,
    now: Timestamp,
) -> bool {
    ||| step == begun::<T>(payload, now)
    ||| step == VerifyStep::Ask(
        StoreQuery::ReplayExists(body.request_uuid),
        VerifyState::AwaitingReplayCheck { body },
    )
    ||| step == VerifyStep::Ask(
        StoreQuery::ReplayInsert(body.request_uuid),
        VerifyState::AwaitingReplayInsert { body },
    )
    ||| step == VerifyStep::Done(Ok(body))
    ||| is_replay(step)
}

/// What holds of two such verifications and their store at every moment.
spec fn in_step<T: FromJsonObject>(
    one: VerifyStep<T>,
    other: VerifyStep<T>,
    now_store: StoreView,
    first: GameRequestPayload,
    second: GameRequestPayload,
    first_now: Timestamp,
    second_now: Timestamp,
    store: StoreView,
) -> bool {
    let a = verified::<T>(first, store, first_now)->Ok_0;
    let b = verified::<T>(second, store, second_now)->Ok_0;
    &&& on_course(one, first, a, first_now)
    &&& on_course(other, second, b, second_now)
    &&& now_store.games == store.games
    &&& now_store.seen.contains_key(a.request_uuid) <==> (is_accepted(one) || is_accepted(other))
    &&& !(is_accepted(one) && is_accepted(other))
    &&& (is_replay(one) || is_replay(other)) ==> now_store.seen.contains_key(a.request_uuid)
}

proof fn lemma_in_step<T: FromJsonObject>(
    first: GameRequestPayload,
    second: GameRequestPayload,
    first_now: Timestamp,
    second_now: Timestamp,
    store: StoreView,
    schedule: Seq<bool>,
)
    requires
        verified::<T>(first, store, first_now) is Ok,
        verified::<T>(second, store, second_now) is Ok,
        verified::<T>(first, store, first_now)->Ok_0.request_uuid == verified::<T>(
            second,
            store,
            second_now,
        )->Ok_0.request_uuid,
    ensures
        ({
            let (one, other, now_store) = interleaved(
                begun::<T>(first, first_now),
                begun::<T>(second, second_now),
                first_now,
                second_now,
                store,
                schedule,
            );
            in_step(one, other, now_store, first, second, first_now, second_now, store)
        }),
    decreases schedule.len(),
{
    if schedule.len() > 0 {
        lemma_in_step::<T>(first, second, first_now, second_now, store, schedule.drop_last());
    }
}

/// Of two requests with one request UUID, each of which would be accepted
/// were it alone, at most one is accepted, in whatever order the store
/// answers their questions; and once both verifications have ended, one
/// was accepted and the other turned down as seen already.
pub proof fn lemma_one_of_two_is_accepted<T: FromJsonObject>(
    first: GameRequestPayload,
    second: GameRequestPayload,
    first_now: Timestamp,
    second_now: Timestamp,
    store: StoreView,
    schedule: Seq<bool>,
)
    requires
        verified::<T>(first, store, first_now) is Ok,
        verified::<T>(second, store, second_now) is Ok,
        verified::<T>(first, store, first_now)->Ok_0.request_uuid == verified::<T>(
            second,
            store,
            second_now,
        )->Ok_0.request_uuid,
    ensures
        ({
            let (one, other, after) = interleaved(
                begun::<T>(first, first_now),
                begun::<T>(second, second_now),
                first_now,
                second_now,
                store,
                schedule,
            );
            &&& !(is_accepted(one) && is_accepted(other))
            &&& one is Done && other is Done ==> {
                ||| is_accepted(one) && is_replay(other)
                ||| is_replay(one) && is_accepted(other)
            }
        }),
{
    lemma_in_step::<T>(first, second, first_now, second_now, store, schedule);
}

} // verus!
