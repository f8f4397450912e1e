//! The game-facing endpoints of a highscore table: posting a score, which
//! keeps the table within its number of retained rows, and listing the
//! scores.

pub mod table_request;

use crate::db::error::StoreError;
use crate::db::models::{
    duplicate_optional_text, HighscoreTable, HighscoreTableEntry, NewHighscoreTableEntry,
};
use crate::db::ranking::{
    beyond, is_ranked, lemma_kept_rows_are_top, lemma_ranked_insert_adds_one,
    lemma_ranked_insert_is_ranked, limited, ranked, ranked_insert, ranks_before, Leaderboard,
};
use crate::db::store::{is_owned_table, Store, StoreView};
use crate::server::api::{get_scores_for_table, row_limit, shown, ScoresResponse};
use crate::server::error::{store_error_answer, ApiError, ApiSuccessResponse, Status};
use crate::server::highscore_tables::table_request::{
    request_table, table_error_answer, table_requested, NamesTable,
};
use crate::server::requests::verify::{committed, verified};
use crate::server::requests::{
    read_uuid, uuid_field, FromJsonObject, GameRequestBody, GameRequestPayload,
};
use crate::util::json::{double_field, optional_text_field, text_field, JsonField, JsonObject};
use crate::util::score::Score;
use crate::util::search::lemma_first_where;
use crate::util::time::Timestamp;
use crate::util::uuid::Uuid;
use vstd::prelude::*;

verus! {

/// What a request for the scores of a table says beside the envelope.
#[derive(Debug, Clone, Copy)]
pub struct GetHighscoreTableParams {
    pub table_uuid: Uuid,
}

/// What a request that posts a score says beside the envelope.
#[derive(Debug)]
pub struct PostHighscoreTableParams {
    pub table_uuid: Uuid,
    pub player_name: String,
    pub player_score: Score,
    pub player_score_metadata: Option<String>,
}

#[derive(Debug, Clone, Copy)]
pub struct PostHighscoreTableResponse {
    pub message: &'static str,
}

impl Clone for PostHighscoreTableParams {
    fn clone(&self) -> (copy: Self)
        ensures
            copy == *self,
    {
        PostHighscoreTableParams {
            table_uuid: self.table_uuid,
            player_name: self.player_name.clone(),
            player_score: self.player_score,
            player_score_metadata: duplicate_optional_text(&self.player_score_metadata),
        }
    }
}

impl PostHighscoreTableParams {
    /// The entry that the request asks to add to the table with the given
    /// id.
    pub fn into_entry(self, highscore_table_id: i32) -> (entry: NewHighscoreTableEntry)
        ensures
            entry == (NewHighscoreTableEntry {
                highscore_table_id,
                player_name: self.player_name,
                player_score: self.player_score,
                player_score_metadata: self.player_score_metadata,
            }),
    {
        NewHighscoreTableEntry {
            highscore_table_id,
            player_name: self.player_name,
            player_score: self.player_score,
            player_score_metadata: self.player_score_metadata,
        }
    }
}

impl NamesTable for GetHighscoreTableParams {
    open spec fn named_table(&self) -> Uuid {
        self.table_uuid
    }

    fn table_uuid(&self) -> (table_uuid: Uuid) {
        self.table_uuid
    }
}

impl NamesTable for PostHighscoreTableParams {
    open spec fn named_table(&self) -> Uuid {
        self.table_uuid
    }

    fn table_uuid(&self) -> (table_uuid: Uuid) {
        self.table_uuid
    }
}

impl FromJsonObject for GetHighscoreTableParams {
    /// The field `table_uuid` spells the table.
    open spec fn decoded(fields: Map<Seq<char>, JsonField>) -> Option<Self> {
        match uuid_field(fields, "table_uuid"@) {
            Some(table_uuid) => Some(GetHighscoreTableParams { table_uuid }),
            None => None,
        }
    }

    fn decode(object: &JsonObject) -> (value: Option<Self>) {
        match read_uuid(object, "table_uuid") {
            Some(table_uuid) => Some(GetHighscoreTableParams { table_uuid }),
            None => None,
        }
    }
}

impl FromJsonObject for PostHighscoreTableParams {
    /// The fields `table_uuid`, `player_name` and `player_score` must be
    /// there, as a UUID, a text and a number; `player_score_metadata` may be
    /// left out or null, and is a text otherwise.
    open spec fn decoded(fields: Map<Seq<char>, JsonField>) -> Option<Self> {
        match (
            uuid_field(fields, "table_uuid"@),
            text_field(fields, "player_name"@),
            double_field(fields, "player_score"@),
            optional_text_field(fields, "player_score_metadata"@),
        ) {
            (
                Some(table_uuid),
                Some(player_name),
                Some(bits),
                Some(player_score_metadata),
            ) => Some(
                PostHighscoreTableParams {
                    table_uuid,
                    player_name,
                    player_score: Score { bits },
                    player_score_metadata,
                },
            ),
            _ => None,
        }
    }

    fn decode(object: &JsonObject) -> (value: Option<Self>) {
        let Some(table_uuid) = read_uuid(object, "table_uuid") else {
            return None;
        };
        let Some(player_name) = object.get_text("player_name") else {
            return None;
        };
        let Some(bits) = object.get_double_bits("player_score") else {
            return None;
        };
        let Some(player_score_metadata) = object.get_optional_text("player_score_metadata") else {
            return None;
        };
        Some(
            PostHighscoreTableParams {
                table_uuid,
                player_name,
                player_score: Score::from_bits(bits),
                player_score_metadata,
            },
        )
    }
}

/// The store after the retention rule was applied to a table: cut down to
/// its top rows where a number of retained rows is set, unchanged where none
/// is.
pub open spec fn retention_applied(
    store: StoreView,
    table_id: i32,
    maximum_scores_retained: Option<i32>,
) -> StoreView {
    match maximum_scores_retained {
        Some(keep) => store.top_retained(table_id, keep as int),
        None => store,
    }
}

/// Whether a score can be added to a table: the table exists, the store has
/// an id left for the row, and the number of retained rows is not negative.
pub open spec fn can_add_score(
    store: StoreView,
    table_id: i32,
    maximum_scores_retained: Option<i32>,
) -> bool {
    &&& store.table_position(table_id) is Some
    &&& store.next_entry_id < i32::MAX
    &&& maximum_scores_retained is Some ==> maximum_scores_retained->Some_0 >= 0
}

/// The store after a score was added to a table and the retention rule
/// applied; the store as it was where the score cannot be added.
pub open spec fn score_added(
    store: StoreView,
    new_entry: NewHighscoreTableEntry,
    maximum_scores_retained: Option<i32>,
    now: Timestamp,
) -> StoreView {
    if can_add_score(store, new_entry.highscore_table_id, maximum_scores_retained) {
        retention_applied(
            store.entry_inserted(new_entry, now),
            new_entry.highscore_table_id,
            maximum_scores_retained,
        )
    } else {
        store
    }
}

/// The ids of the rows that a table has to give up under its retention
/// rule: those that rank behind its top `maximum_scores_retained`, and none
/// where no such number is set. A negative number is refused, as the store
/// refuses it.
pub fn extra_highscore_rows(
    rows: &Vec<HighscoreTableEntry>,
    maximum_scores_retained: Option<i32>,
) -> (extra: Result<Vec<i32>, StoreError>)
    ensures
        match extra {
            Ok(ids) => match maximum_scores_retained {
                Some(keep) => keep >= 0 && ids@ == beyond(ranked(rows@), keep as int).map_values(
                    |row: HighscoreTableEntry| row.id,
                ),
                None => ids@ == Seq::<i32>::empty(),
            },
            Err(error) => {
                &&& maximum_scores_retained is Some
                &&& maximum_scores_retained->Some_0 < 0
                &&& error is Other
            },
        },
{
    let Some(keep) = maximum_scores_retained else {
        // Nothing to do.
        return Ok(Vec::new());
    };
    if keep < 0 {
        return Err(StoreError::Other);
    }
    let board = Leaderboard::from_rows(rows);
    if keep as u64 >= board.len() as u64 {
        return Ok(Vec::new());
    }
    Ok(board.ids_beyond(keep as usize))
}

/// Removes the rows of a table beyond its top `maximum_scores_retained`;
/// with no such number there is nothing to do.
pub fn remove_extra_highscore_rows(
    table_id: i32,
    maximum_scores_retained: Option<i32>,
    db: &mut Store,
) -> (removed: Result<(), StoreError>)
    ensures
        final(db)@ == retention_applied(old(db)@, table_id, maximum_scores_retained),
        removed is Err <==> maximum_scores_retained is Some && maximum_scores_retained->Some_0 < 0,
        removed is Err ==> removed->Err_0 is Other,
        is_ranked(final(db)@.rows_of(table_id)),
        removed is Ok && maximum_scores_retained is Some ==> final(db)@.rows_of(table_id).len()
            <= maximum_scores_retained->Some_0,
{
    proof {
        db.lemma_well_formed();
    }
    let Some(maximum_scores_retained) = maximum_scores_retained else {
        // Nothing to do.
        return Ok(());
    };
    db.highscore_retain_top_n(table_id, maximum_scores_retained as i64)
}

/// Adds a score to a table and applies the retention rule, as one step:
/// where either part fails, the store is as it was.
///
/// Afterwards the table holds the top `maximum_scores_retained` of the rows
/// that it held and the new one, in ranking order.
pub fn insert_and_retain(
    db: &mut Store,
    new_entry: NewHighscoreTableEntry,
    maximum_scores_retained: Option<i32>,
    now: Timestamp,
) -> (added: Result<(), StoreError>)
    ensures
        final(db)@ == score_added(old(db)@, new_entry, maximum_scores_retained, now),
        added is Ok <==> can_add_score(
            old(db)@,
            new_entry.highscore_table_id,
            maximum_scores_retained,
        ),
        added is Err ==> if old(db)@.table_position(new_entry.highscore_table_id) is None {
            added->Err_0 is ForeignKeyViolation
        } else {
            added->Err_0 is Other
        },
        is_ranked(final(db)@.rows_of(new_entry.highscore_table_id)),
        added is Ok && maximum_scores_retained is Some ==> final(db)@.rows_of(
            new_entry.highscore_table_id,
        ).len() <= maximum_scores_retained->Some_0,
{
    proof {
        db.lemma_well_formed();
    }
    let table_id = new_entry.highscore_table_id;
    let refused = match maximum_scores_retained {
        Some(keep) => keep < 0,
        None => false,
    };
    if refused && db.find_table(table_id).is_some() {
        // The store would insert the row and then refuse to cut the table
        // down to a negative number of rows, which undoes the insertion.
        return Err(StoreError::Other);
    }
    match db.highscore_insert(new_entry, now) {
        Ok(_) => {},
        Err(error) => {
            return Err(error);
        },
    }
    remove_extra_highscore_rows(table_id, maximum_scores_retained, db)
}

/// The entry that a verified request to post a score asks to add to the
/// table with the given id.
pub open spec fn entry_of(
    request: GameRequestBody<PostHighscoreTableParams>,
    table_id: i32,
) -> NewHighscoreTableEntry {
    NewHighscoreTableEntry {
        highscore_table_id: table_id,
        player_name: request.body.player_name,
        player_score: request.body.player_score,
        player_score_metadata: request.body.player_score_metadata,
    }
}

/// What posting a score comes to: the answer, as nothing or as the status
/// and message of an error, and the store afterwards.
///
/// The request is verified first, and recorded as seen where it is accepted.
/// Its table must be a table of the game that signed it: any other table is
/// answered as not found. The score is then added under the table's
/// retention rule; where the store refuses that, the answer is an internal
/// error and no row has changed.
pub open spec fn score_posted(payload: GameRequestPayload, store: StoreView, now: Timestamp) -> (
    Result<(), (Status, Seq<char>)>,
    StoreView,
) {
    let recorded = committed(verified::<PostHighscoreTableParams>(payload, store, now), store, now);
    match table_requested::<PostHighscoreTableParams>(payload, store, now) {
        Err(error) => (Err(table_error_answer(error)), recorded),
        Ok(found) => if can_add_score(
            recorded,
            found.highscore_table_id,
            found.maximum_scores_retained,
        ) {
            (
                Ok(()),
                score_added(
                    recorded,
                    entry_of(found.request, found.highscore_table_id),
                    found.maximum_scores_retained,
                    now,
                ),
            )
        } else {
            (Err(store_error_answer(StoreError::Other)), recorded)
        },
    }
}

/// What listing the scores of a table comes to: the rows listed, or the
/// status and message of an error, and the store afterwards.
///
/// The request is verified first, and recorded as seen where it is accepted.
/// Its table must be a table of the game that signed it: any other table is
/// answered as not found.
pub open spec fn scores_listed(
    payload: GameRequestPayload,
    limit: Option<u32>,
    store: StoreView,
    now: Timestamp,
) -> (Result<Seq<HighscoreTableEntry>, (Status, Seq<char>)>, StoreView) {
    let recorded = committed(verified::<GetHighscoreTableParams>(payload, store, now), store, now);
    match table_requested::<GetHighscoreTableParams>(payload, store, now) {
        Err(error) => (Err(table_error_answer(error)), recorded),
        Ok(found) => (
            Ok(limited(recorded.rows_of(found.highscore_table_id), row_limit(limit))),
            recorded,
        ),
    }
}

/// Verifies a request to post a score, as of the time `now`, and adds the
/// score to the table that it names, keeping the table within its number of
/// retained rows.
pub fn post_new_highscore_table_score(
    params: &GameRequestPayload,
    db: &mut Store,
    now: Timestamp,
) -> (answer: Result<ApiSuccessResponse<PostHighscoreTableResponse>, ApiError>)
    ensures
        final(db)@ == score_posted(*params, old(db)@, now).1,
        match answer {
            Ok(response) => {
                &&& score_posted(*params, old(db)@, now).0 is Ok
                &&& response.json.body.message@ == "New score added successfully"@
            },
            Err(error) => score_posted(*params, old(db)@, now).0 == Err::<(), (Status, Seq<char>)>(
                error@,
            ),
        },
{
    let found = match request_table::<PostHighscoreTableParams>(params, db, now) {
        Ok(found) => found,
        Err(error) => {
            return Err(ApiError::from(error));
        },
    };
    let highscore_table_id = found.highscore_table_id;
    let new_entry = found.request.body.into_entry(highscore_table_id);
    proof {
        let table_uuid = found.request.body.table_uuid;
        let wanted = is_owned_table(db@.games, table_uuid, found.request.game_uuid);
        lemma_first_where(db@.tables, wanted);
        lemma_first_where(db@.tables, |table: HighscoreTable| table.id == highscore_table_id);
    }
    match insert_and_retain(db, new_entry, found.maximum_scores_retained, now) {
        Ok(_) => {},
        Err(error) => {
            return Err(ApiError::from_store_error(error));
        },
    }
    let resp = PostHighscoreTableResponse { message: "New score added successfully" };
    Ok(ApiSuccessResponse::new(resp))
}

/// Verifies a request for the scores of a table, as of the time `now`, and
/// lists them in ranking order, the first `limit` of them where a limit is
/// set.
pub fn get_highscore_table_scores_impl(
    params: &GameRequestPayload,
    limit: Option<u32>,
    db: &mut Store,
    now: Timestamp,
) -> (answer: Result<ApiSuccessResponse<ScoresResponse>, ApiError>)
    ensures
        final(db)@ == scores_listed(*params, limit, old(db)@, now).1,
        match answer {
            Ok(response) => {
                &&& scores_listed(*params, limit, old(db)@, now).0 is Ok
                &&& response.json.body.scores@ == scores_listed(
                    *params,
                    limit,
                    old(db)@,
                    now,
                ).0->Ok_0.map_values(|entry: HighscoreTableEntry| shown(entry))
                &&& is_ranked(scores_listed(*params, limit, old(db)@, now).0->Ok_0)
            },
            Err(error) => scores_listed(*params, limit, old(db)@, now).0 == Err::<
                Seq<HighscoreTableEntry>,
                (Status, Seq<char>),
            >(error@),
        },
{
    let found = match request_table::<GetHighscoreTableParams>(params, db, now) {
        Ok(found) => found,
        Err(error) => {
            return Err(ApiError::from(error));
        },
    };
    match get_scores_for_table(found.highscore_table_id, limit, db) {
        Ok(scores) => Ok(ApiSuccessResponse::new(scores)),
        Err(error) => Err(ApiError::from_store_error(error)),
    }
}

/// Lists all scores of the table that a request names.
pub fn get_highscore_table_scores(
    params: &GameRequestPayload,
    db: &mut Store,
    now: Timestamp,
) -> (answer: Result<ApiSuccessResponse<ScoresResponse>, ApiError>)
    ensures
        final(db)@ == scores_listed(*params, None, old(db)@, now).1,
        match answer {
            Ok(response) => {
                &&& scores_listed(*params, None, old(db)@, now).0 is Ok
                &&& response.json.body.scores@ == scores_listed(
                    *params,
                    None,
                    old(db)@,
                    now,
                ).0->Ok_0.map_values(|entry: HighscoreTableEntry| shown(entry))
            },
            Err(error) => scores_listed(*params, None, old(db)@, now).0 == Err::<
                Seq<HighscoreTableEntry>,
                (Status, Seq<char>),
            >(error@),
        },
{
    get_highscore_table_scores_impl(params, None, db, now)
}

/// Lists the first `limit` scores of the table that a request names.
pub fn get_highscore_table_scores_with_limit(
    params: &GameRequestPayload,
    limit: u32,
    db: &mut Store,
    now: Timestamp,
) -> (answer: Result<ApiSuccessResponse<ScoresResponse>, ApiError>)
    ensures
        final(db)@ == scores_listed(*params, Some(limit), old(db)@, now).1,
        match answer {
            Ok(response) => {
                &&& scores_listed(*params, Some(limit), old(db)@, now).0 is Ok
                &&& response.json.body.scores@ == scores_listed(
                    *params,
                    Some(limit),
                    old(db)@,
                    now,
                ).0->Ok_0.map_values(|entry: HighscoreTableEntry| shown(entry))
                &&& response.json.body.scores@.len() <= limit
            },
            Err(error) => scores_listed(*params, Some(limit), old(db)@, now).0 == Err::<
                Seq<HighscoreTableEntry>,
                (Status, Seq<char>),
            >(error@),
        },
{
    get_highscore_table_scores_impl(params, Some(limit), db, now)
}

/// After a score was added to a table that keeps `keep` rows, the table
/// holds at most `keep` rows, in ranking order, and they are the top `keep`
/// of the rows that it held and the new one: no row that had to go ranks
/// before a row that stayed. No other table has changed.
pub proof fn lemma_table_keeps_its_top_rows(
    store: StoreView,
    new_entry: NewHighscoreTableEntry,
    keep: i32,
    now: Timestamp,
)
    requires
        store.well_formed(),
        can_add_score(store, new_entry.highscore_table_id, Some(keep)),
    ensures
        ({
            let table_id = new_entry.highscore_table_id;
            let row = HighscoreTableEntry::stored(new_entry, store.next_entry_id as i32, now);
            let candidates = ranked_insert(store.rows_of(table_id), row);
            let after = score_added(store, new_entry, Some(keep), now);
            let kept = after.rows_of(table_id);
            &&& after.well_formed()
            &&& candidates.to_multiset() == store.rows_of(table_id).to_multiset().insert(row)
            &&& is_ranked(candidates)
            &&& kept.len() <= keep
            &&& kept.len() <= candidates.len()
            &&& kept == candidates.take(kept.len() as int)
            &&& kept.len() < keep ==> kept == candidates
            &&& forall|i: int, j: int|
                0 <= i < kept.len() <= j < candidates.len() ==> !ranks_before(
                    #[trigger] candidates[j],
                    #[trigger] candidates[i],
                )
            &&& forall|other: i32|
                store.table_position(other) != store.table_position(table_id)
                    ==> #[trigger] after.rows_of(other) == store.rows_of(other)
        }),
{
    let table_id = new_entry.highscore_table_id;
    let at = store.table_position(table_id)->Some_0;
    lemma_first_where(store.tables, |table: HighscoreTable| table.id == table_id);
    let row = HighscoreTableEntry::stored(new_entry, store.next_entry_id as i32, now);
    let candidates = ranked_insert(store.rows_of(table_id), row);
    lemma_ranked_insert_is_ranked(store.rows_of(table_id), row);
    lemma_ranked_insert_adds_one(store.rows_of(table_id), row);
    // Inserting puts the candidates in the table's place, and the
    // retention rule cuts them after the first `keep`.
    let inserted = store.entry_inserted(new_entry, now);
    assert(inserted.rows[at] == candidates);
    let after = score_added(store, new_entry, Some(keep), now);
    assert(after.rows_of(table_id) == limited(candidates, Some(keep as int)));
    if keep < candidates.len() {
        lemma_kept_rows_are_top(candidates, keep as int);
    }
}

} // verus!
