//! A request about a highscore table, as a conversation with the store.
//!
//! Every game-facing endpoint of a table starts in the same way: the request
//! is verified, and the table that it names is looked up among the tables of
//! the game that signed it. The functions here decide; whoever holds the
//! store asks it what [`TableStep::Ask`] names and hands the answer back.

use crate::db::error::StoreError;
use crate::db::store::{Store, StoreView};
use crate::server::error::{store_error_answer, verify_error_answer, ApiError, Status};
use crate::server::requests::protocol::{
    begun, resumed, StoreQuery, StoreReply, VerifyState, VerifyStep,
};
use crate::server::requests::verify::{
    advanced, committed, completed, lemma_completed_as_verified, verified,
};
use crate::server::requests::{
    FromJsonObject, GameRequestBody, GameRequestPayload, RequestBodyVerifyError,
};
use crate::util::time::Timestamp;
use crate::util::uuid::Uuid;
use vstd::prelude::*;

verus! {

/// What a request about a table says beside the envelope: at least, which
/// table.
pub trait NamesTable: Sized {
    /// The UUID of the table that the request is about.
    spec fn named_table(&self) -> Uuid;

    fn table_uuid(&self) -> (table_uuid: Uuid)
        ensures
            table_uuid == self.named_table(),
    ;
}

/// A question to the store.
#[derive(Debug, Clone, Copy, PartialEq, Eq, Structural)]
pub enum TableQuery {
    /// A question of the verification of the request.
    Verify(StoreQuery),
    /// The id of the table with this UUID among the tables of the game with
    /// that UUID, and the number of rows that it keeps.
    FindOwnedTable { table_uuid: Uuid, game_uuid: Uuid },
}

/// An answer of the store.
#[derive(Debug)]
pub enum TableReply {
    /// To `Verify`: the answer to the question of the verification.
    Verify(StoreReply),
    /// To `FindOwnedTable`: the table's id and the number of rows that it
    /// keeps, or that the game has no such table.
    OwnedTable(Option<(i32, Option<i32>)>),
    /// To `FindOwnedTable`: the store failed.
    Failed(StoreError),
}

/// Why a request about a table came to nothing.
#[derive(Debug)]
pub enum TableError {
    /// The request was turned down.
    Request(RequestBodyVerifyError),
    /// The store failed, or has no such table for the game; the latter is
    /// `StoreError::NotFound`.
    Store(StoreError),
}

/// A verified request and the table that it is about.
#[derive(Debug)]
pub struct FoundTable<P> {
    pub request: GameRequestBody<P>,
    pub highscore_table_id: i32,
    /// The number of rows that the table keeps; `None` keeps all.
    pub maximum_scores_retained: Option<i32>,
}

/// A request about a table that waits for an answer of the store.
#[derive(Debug)]
pub enum TableState<P> {
    Verifying(VerifyState<P>),
    FindingTable(GameRequestBody<P>),
}

/// Where a request about a table stands after a step.
#[derive(Debug)]
pub enum TableStep<P> {
    /// The store is to answer the query; the request resumes from the state
    /// with its answer.
    Ask(TableQuery, TableState<P>),
    /// The request is through, with its table or with the reason why not.
    Done(Result<FoundTable<P>, TableError>),
}

impl<P> TableStep<P> {
    /// How many answers the request can still take.
    pub open spec fn answers_left(self) -> nat {
        match self {
            TableStep::Ask(_, TableState::Verifying(state)) => state.answers_left() + 1,
            TableStep::Ask(_, TableState::FindingTable(_)) => 1,
            TableStep::Done(_) => 0,
        }
    }
}

/// How a request about a table goes on after a step of its verification: it
/// carries the verification on, gives up with it, or, once the request is
/// accepted, asks for the table.
pub open spec fn carried_on<P: NamesTable>(step: VerifyStep<P>) -> TableStep<P> {
    match step {
        VerifyStep::Ask(query, state) => TableStep::Ask(
            TableQuery::Verify(query),
            TableState::Verifying(state),
        ),
        VerifyStep::Done(Err(error)) => TableStep::Done(Err(TableError::Request(error))),
        VerifyStep::Done(Ok(request)) => TableStep::Ask(
            TableQuery::FindOwnedTable {
                table_uuid: request.body.named_table(),
                game_uuid: request.game_uuid,
            },
            TableState::FindingTable(request),
        ),
    }
}

/// The first step of a request about a table: opening the payload.
pub open spec fn table_begun<P: FromJsonObject + NamesTable>(
    payload: GameRequestPayload,
    now: Timestamp,
) -> TableStep<P> {
    carried_on(begun::<P>(payload, now))
}

/// The step that follows an answer of the store.
///
/// A table that the game does not have is a row that was not found. A
/// failure of the store ends the request with that failure, and so does an
/// answer to another question than the one asked.
pub open spec fn table_resumed<P: NamesTable>(state: TableState<P>, reply: TableReply) -> TableStep<
    P,
> {
    match reply {
        TableReply::Failed(error) => TableStep::Done(Err(TableError::Store(error))),
        TableReply::Verify(answer) => match state {
            TableState::Verifying(verifying) => carried_on(resumed(verifying, answer)),
            TableState::FindingTable(_) => TableStep::Done(
                Err(TableError::Store(StoreError::Other)),
            ),
        },
        TableReply::OwnedTable(found) => match state {
            TableState::FindingTable(request) => match found {
                Some((highscore_table_id, maximum_scores_retained)) => TableStep::Done(
                    Ok(FoundTable { request, highscore_table_id, maximum_scores_retained }),
                ),
                None => TableStep::Done(Err(TableError::Store(StoreError::NotFound))),
            },
            TableState::Verifying(_) => TableStep::Done(Err(TableError::Store(StoreError::Other))),
        },
    }
}

/// The answer of the store to a question that it gets at the time `now`,
/// and the store after it.
pub open spec fn table_answered(store: StoreView, query: TableQuery, now: Timestamp) -> (
    TableReply,
    StoreView,
) {
    match query {
        TableQuery::Verify(question) => (
            TableReply::Verify(store.answered(question, now).0),
            store.answered(question, now).1,
        ),
        TableQuery::FindOwnedTable { table_uuid, game_uuid } => (
            TableReply::OwnedTable(
                match store.owned_table_position(table_uuid, game_uuid) {
                    Some(at) => Some(
                        (store.tables[at].id, store.tables[at].maximum_scores_retained),
                    ),
                    None => None,
                },
            ),
            store,
        ),
    }
}

/// One turn of a request against the store: the store answers what the step
/// asks, and the request resumes with the answer.
pub open spec fn table_advanced<P: NamesTable>(
    step: TableStep<P>,
    store: StoreView,
    now: Timestamp,
) -> (TableStep<P>, StoreView) {
    match step {
        TableStep::Done(_) => (step, store),
        TableStep::Ask(query, state) => {
            let (reply, next) = table_answered(store, query, now);
            (table_resumed(state, reply), next)
        },
    }
}

/// How a request ends that is carried on, turn by turn, against a store
/// that nothing else touches, and how it leaves the store.
pub open spec fn table_completed<P: NamesTable>(
    step: TableStep<P>,
    store: StoreView,
    now: Timestamp,
) -> (Result<FoundTable<P>, TableError>, StoreView)
    decreases step.answers_left(),
{
    match step {
        TableStep::Done(outcome) => (outcome, store),
        TableStep::Ask(query, state) => {
            let (next, after) = table_advanced(step, store, now);
            table_completed(next, after, now)
        },
    }
}

/// What a request about a table comes to, against what the store holds at
/// the time `now`.
///
/// The request is verified first. Its table must be a table of the game
/// that signed it: where the game has no table with that UUID, the table was
/// not found, whether or not another game has one.
pub open spec fn table_requested<P: FromJsonObject + NamesTable>(
    payload: GameRequestPayload,
    store: StoreView,
    now: Timestamp,
) -> Result<FoundTable<P>, TableError> {
    match verified::<P>(payload, store, now) {
        Err(error) => Err(TableError::Request(error)),
        Ok(request) => match store.owned_table_position(
            request.body.named_table(),
            request.game_uuid,
        ) {
            Some(at) => Ok(
                FoundTable {
                    request,
                    highscore_table_id: store.tables[at].id,
                    maximum_scores_retained: store.tables[at].maximum_scores_retained,
                },
            ),
            None => Err(TableError::Store(StoreError::NotFound)),
        },
    }
}

/// What a request about a table comes to once its verification has ended.
pub open spec fn table_looked_up<P: NamesTable>(
    verification: (Result<GameRequestBody<P>, RequestBodyVerifyError>, StoreView),
) -> (Result<FoundTable<P>, TableError>, StoreView) {
    let store = verification.1;
    match verification.0 {
        Err(error) => (Err(TableError::Request(error)), store),
        Ok(request) => match store.owned_table_position(
            request.body.named_table(),
            request.game_uuid,
        ) {
            Some(at) => (
                Ok(
                    FoundTable {
                        request,
                        highscore_table_id: store.tables[at].id,
                        maximum_scores_retained: store.tables[at].maximum_scores_retained,
                    },
                ),
                store,
            ),
            None => (Err(TableError::Store(StoreError::NotFound)), store),
        },
    }
}

/// A request about a table goes through its verification as the
/// verification goes alone, and then looks up its table.
proof fn lemma_table_follows_verification<P: NamesTable>(
    step: VerifyStep<P>,
    store: StoreView,
    now: Timestamp,
)
    ensures
        table_completed(carried_on(step), store, now) == table_looked_up(
            completed(step, store, now),
        ),
    decreases step.answers_left(),
{
    reveal_with_fuel(table_completed, 3);
    match step {
        VerifyStep::Ask(query, state) => {
            let (next, after) = advanced(step, store, now);
            lemma_table_follows_verification(next, after, now);
        },
        VerifyStep::Done(_) => {},
    }
}

/// A request about a table that starts with opening the payload ends, after
/// at most four answers of the store, with what `table_requested` says, and
/// leaves the store as its verification leaves it: the request is recorded
/// where it was accepted, whether or not its table was found.
pub proof fn lemma_table_completed_as_requested<P: FromJsonObject + NamesTable>(
    payload: GameRequestPayload,
    store: StoreView,
    now: Timestamp,
)
    ensures
        table_begun::<P>(payload, now).answers_left() <= 4,
        table_completed(table_begun::<P>(payload, now), store, now) == (
            table_requested::<P>(payload, store, now),
            committed(verified::<P>(payload, store, now), store, now),
        ),
{
    lemma_completed_as_verified::<P>(payload, store, now);
    lemma_table_follows_verification(begun::<P>(payload, now), store, now);
}

/// How a request about a table that came to nothing is answered: a request
/// that was turned down as any such request, a failure of the store as any
/// such failure, and a table that was not found as not found.
pub open spec fn table_error_answer(error: TableError) -> (Status, Seq<char>) {
    match error {
        TableError::Request(error) => verify_error_answer(error),
        TableError::Store(error) => store_error_answer(error),
    }
}

impl From<TableError> for ApiError {
    fn from(err: TableError) -> (error: ApiError)
        ensures
            error@ == table_error_answer(err),
    {
        match err {
            TableError::Request(error) => ApiError::from_verify_error(error),
            TableError::Store(error) => ApiError::from_store_error(error),
        }
    }
}

/// What the conversion gives is stated on `from` itself, by the status and
/// the message of the answer.
impl vstd::std_specs::convert::FromSpecImpl<TableError> for ApiError {
    open spec fn obeys_from_spec() -> bool {
        false
    }

    open spec fn from_spec(err: TableError) -> Self {
        arbitrary()
    }
}

/// Opens a payload and, where it spells a request, asks for the game that
/// the request names.
pub fn begin_table_request<P: FromJsonObject + NamesTable>(
    payload: &GameRequestPayload,
    now: Timestamp,
) -> (step: TableStep<P>)
    ensures
        step == table_begun::<P>(*payload, now),
{
    carry_on(GameRequestBody::<P>::begin_verify(payload, now))
}

/// Takes the store's answer to the question that `state` waits on and
/// decides how the request goes on.
pub fn resume_table_request<P: NamesTable>(state: TableState<P>, reply: TableReply) -> (step:
    TableStep<P>)
    ensures
        step == table_resumed(state, reply),
{
    match reply {
        TableReply::Failed(error) => TableStep::Done(Err(TableError::Store(error))),
        TableReply::Verify(answer) => match state {
            TableState::Verifying(verifying) => carry_on(
                GameRequestBody::resume_verify(verifying, answer),
            ),
            TableState::FindingTable(_) => TableStep::Done(
                Err(TableError::Store(StoreError::Other)),
            ),
        },
        TableReply::OwnedTable(found) => match state {
            TableState::FindingTable(request) => match found {
                Some((highscore_table_id, maximum_scores_retained)) => TableStep::Done(
                    Ok(FoundTable { request, highscore_table_id, maximum_scores_retained }),
                ),
                None => TableStep::Done(Err(TableError::Store(StoreError::NotFound))),
            },
            TableState::Verifying(_) => TableStep::Done(Err(TableError::Store(StoreError::Other))),
        },
    }
}

/// Goes on after a step of the verification.
fn carry_on<P: NamesTable>(step: VerifyStep<P>) -> (next: TableStep<P>)
    ensures
        next == carried_on(step),
{
    match step {
        VerifyStep::Ask(query, state) => TableStep::Ask(
            TableQuery::Verify(query),
            TableState::Verifying(state),
        ),
        VerifyStep::Done(Err(error)) => TableStep::Done(Err(TableError::Request(error))),
        VerifyStep::Done(Ok(request)) => {
            // Note: the table is looked up among the tables of the game that
            // signed the request. A table of another game must not be
            // found, whatever its UUID.
            let table_uuid = request.body.table_uuid();
            TableStep::Ask(
                TableQuery::FindOwnedTable { table_uuid, game_uuid: request.game_uuid },
                TableState::FindingTable(request),
            )
        },
    }
}

/// Answers a question of a request about a table from the store.
pub fn answer_table(db: &mut Store, query: TableQuery, now: Timestamp) -> (reply: TableReply)
    ensures
        (reply, final(db)@) == table_answered(old(db)@, query, now),
{
    match query {
        TableQuery::Verify(question) => TableReply::Verify(db.answer(question, now)),
        TableQuery::FindOwnedTable { table_uuid, game_uuid } => TableReply::OwnedTable(
            db.find_owned_table(table_uuid, game_uuid),
        ),
    }
}

/// Verifies a request about a table against the store, as of the time
/// `now`, records it as seen where it is accepted, and looks up the table
/// that it names among the tables of its game.
pub fn request_table<P: FromJsonObject + NamesTable>(
    payload: &GameRequestPayload,
    db: &mut Store,
    now: Timestamp,
) -> (outcome: Result<FoundTable<P>, TableError>)
    ensures
        outcome == table_requested::<P>(*payload, old(db)@, now),
        final(db)@ == committed(verified::<P>(*payload, old(db)@, now), old(db)@, now),
{
    let mut step = begin_table_request::<P>(payload, now);
    loop
        invariant
            table_completed(step, db@, now) == table_completed(
                table_begun::<P>(*payload, now),
                old(db)@,
                now,
            ),
        decreases step.answers_left(),
    {
        match step {
            TableStep::Done(outcome) => {
                proof {
                    lemma_table_completed_as_requested::<P>(*payload, old(db)@, now);
                }
                return outcome;
            },
            TableStep::Ask(query, state) => {
                let reply = answer_table(db, query, now);
                step = resume_table_request(state, reply);
            },
        }
    }
}

} // verus!
