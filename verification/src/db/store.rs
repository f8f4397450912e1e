//! The store that the service's rules are stated against, held in memory.
//!
//! The service keeps its state in a relational store. [`Store`] holds the
//! same tables in memory and answers the same questions, so that the rules
//! that span several questions (a request is accepted once, a table keeps
//! its top rows) can be stated and proved, and exercised without a database.

use crate::db::error::StoreError;
use crate::db::ledger::{not_older_than, ReplayLedger};
use crate::db::models::{Game, HighscoreTable, HighscoreTableEntry, NewHighscoreTableEntry};
use crate::db::ranking::{
    is_ranked, lemma_ranked_is_ranked, lemma_ranked_of_ranked, limited, ranked, ranked_insert,
    Leaderboard,
};
use crate::server::requests::protocol::{GameSecret, StoreQuery, StoreReply};
use crate::util::search::{first_where, lemma_first_where_absent, lemma_first_where_found};
use crate::util::time::Timestamp;
use crate::util::uuid::Uuid;
use vstd::prelude::*;
use vstd::string::StringExecFns;

verus! {

/// A highscore table with its rows.
#[derive(Debug)]
struct StoredTable {
    table: HighscoreTable,
    board: Leaderboard,
}

/// The service's tables, in memory.
#[derive(Debug)]
pub struct Store {
    games: Vec<Game>,
    tables: Vec<StoredTable>,
    historical_requests: ReplayLedger,
    next_entry_id: i32,
}

/// What a store holds.
pub struct StoreView {
    /// The games, in the order in which they were added.
    pub games: Seq<Game>,
    /// The highscore tables, in the order in which they were added.
    pub tables: Seq<HighscoreTable>,
    /// The rows of each table, in ranking order; `rows[i]` belongs to
    /// `tables[i]`.
    pub rows: Seq<Seq<HighscoreTableEntry>>,
    /// The UUIDs of the requests that were accepted, each with the time at
    /// which it was recorded.
    pub seen: Map<Uuid, Timestamp>,
    /// The id that the next row gets.
    pub next_entry_id: int,
}

/// Whether a table belongs to the game with the given UUID among the games.
pub open spec fn is_table_of_game(
    games: Seq<Game>,
    table: HighscoreTable,
    game_uuid: Uuid,
) -> bool {
    exists|i: int|
        0 <= i < games.len() && (#[trigger] games[i]).id == table.game_id && games[i].game_uuid
            == game_uuid
}

/// The tables with the given UUID that belong to the game with the given
/// UUID among the games.
pub open spec fn is_owned_table(games: Seq<Game>, table_uuid: Uuid, game_uuid: Uuid) -> spec_fn(
    HighscoreTable,
) -> bool {
    |table: HighscoreTable|
        table.table_uuid == table_uuid && is_table_of_game(games, table, game_uuid)
}

impl StoreView {
    /// Whether every table has its rows, and has them in ranking order.
    pub open spec fn well_formed(self) -> bool {
        &&& self.rows.len() == self.tables.len()
        &&& forall|i: int| 0 <= i < self.rows.len() ==> is_ranked(#[trigger] self.rows[i])
    }

    /// The position of the first game with the given UUID.
    pub open spec fn game_position(self, game_uuid: Uuid) -> Option<int> {
        first_where(self.games, |game: Game| game.game_uuid == game_uuid)
    }

    /// The secret of the game with the given UUID, if there is such a game.
    pub open spec fn game_secret(self, game_uuid: Uuid) -> Option<GameSecret> {
        match self.game_position(game_uuid) {
            Some(at) => Some(
                GameSecret {
                    game_uuid: self.games[at].game_uuid,
                    secret_key: self.games[at].game_secret_key,
                    minimum_security_level: self.games[at].security_level,
                },
            ),
            None => None,
        }
    }

    /// The store after the request UUID was recorded at the time `now`.
    pub open spec fn replay_recorded(self, request_uuid: Uuid, now: Timestamp) -> StoreView {
        StoreView { seen: self.seen.insert(request_uuid, now), ..self }
    }

    /// The store after the records of requests that are older than the
    /// cutoff were removed.
    pub open spec fn cleaned_up(self, cutoff: Timestamp) -> StoreView {
        StoreView { seen: not_older_than(self.seen, cutoff), ..self }
    }

    /// The answer of the store to a question that it gets at the time `now`,
    /// and the store after it.
    pub open spec fn answered(self, query: StoreQuery, now: Timestamp) -> (StoreReply, StoreView) {
        match query {
            StoreQuery::FindGameSecret(game_uuid) => (
                StoreReply::GameSecret(self.game_secret(game_uuid)),
                self,
            ),
            StoreQuery::ReplayExists(request_uuid) => (
                StoreReply::ReplayExists(self.seen.contains_key(request_uuid)),
                self,
            ),
            StoreQuery::ReplayInsert(request_uuid) => if self.seen.contains_key(request_uuid) {
                (StoreReply::ReplayConflict, self)
            } else {
                (StoreReply::ReplayInserted, self.replay_recorded(request_uuid, now))
            },
        }
    }

    /// Whether a table belongs to the game with the given UUID.
    pub open spec fn table_of_game(self, table: HighscoreTable, game_uuid: Uuid) -> bool {
        is_table_of_game(self.games, table, game_uuid)
    }

    /// The position of the first table with the given UUID that belongs to
    /// the game with the given UUID.
    pub open spec fn owned_table_position(self, table_uuid: Uuid, game_uuid: Uuid) -> Option<int> {
        first_where(self.tables, is_owned_table(self.games, table_uuid, game_uuid))
    }

    /// The position of the first table with the given id.
    pub open spec fn table_position(self, table_id: i32) -> Option<int> {
        first_where(self.tables, |table: HighscoreTable| table.id == table_id)
    }

    /// The rows of the table with the given id, in ranking order; none where
    /// there is no such table.
    pub open spec fn rows_of(self, table_id: i32) -> Seq<HighscoreTableEntry> {
        match self.table_position(table_id) {
            Some(at) => self.rows[at],
            None => Seq::empty(),
        }
    }

    /// The store with other rows for the table at a position.
    pub open spec fn with_rows(self, at: int, rows: Seq<HighscoreTableEntry>) -> StoreView {
        StoreView { rows: self.rows.update(at, rows), ..self }
    }

    /// The store after a new entry was inserted: the entry has become a row
    /// of its table, with the next id and the time of insertion. Nothing
    /// changes where the entry's table does not exist or the ids have run
    /// out.
    pub open spec fn entry_inserted(
        self,
        entry: NewHighscoreTableEntry,
        now: Timestamp,
    ) -> StoreView {
        match self.table_position(entry.highscore_table_id) {
            Some(at) if self.next_entry_id < i32::MAX => StoreView {
                rows: self.rows.update(
                    at,
                    ranked_insert(
                        self.rows[at],
                        HighscoreTableEntry::stored(entry, self.next_entry_id as i32, now),
                    ),
                ),
                next_entry_id: self.next_entry_id + 1,
                ..self
            },
            _ => self,
        }
    }

    /// The store after the table with the given id was cut down to its top
    /// `keep` rows. Nothing changes where there is no such table or `keep`
    /// is negative.
    pub open spec fn top_retained(self, table_id: i32, keep: int) -> StoreView {
        match self.table_position(table_id) {
            Some(at) if keep >= 0 => self.with_rows(at, limited(self.rows[at], Some(keep))),
            _ => self,
        }
    }
}

impl View for Store {
    type V = StoreView;

    closed spec fn view(&self) -> StoreView {
        StoreView {
            games: self.games@,
            tables: self.tables@.map_values(|stored: StoredTable| stored.table),
            rows: self.tables@.map_values(|stored: StoredTable| ranked(stored.board@)),
            seen: self.historical_requests@,
            next_entry_id: self.next_entry_id as int,
        }
    }
}

impl Store {
    /// Every table of a store has its rows, and has them in ranking order.
    pub proof fn lemma_well_formed(&self)
        ensures
            self@.well_formed(),
            forall|table_id: i32| is_ranked(#[trigger] self@.rows_of(table_id)),
    {
        assert forall|i: int| 0 <= i < self@.rows.len() implies is_ranked(
            #[trigger] self@.rows[i],
        ) by {
            lemma_ranked_is_ranked(self.tables@[i].board@);
        }
    }

    /// A store without games, tables or requests.
    pub fn new() -> (store: Store)
        ensures
            store@.games == Seq::<Game>::empty(),
            store@.tables == Seq::<HighscoreTable>::empty(),
            store@.rows == Seq::<Seq<HighscoreTableEntry>>::empty(),
            store@.seen == Map::<Uuid, Timestamp>::empty(),
            store@.next_entry_id == 1,
    {
        let store = Store {
            games: Vec::new(),
            tables: Vec::new(),
            historical_requests: ReplayLedger::new(),
            next_entry_id: 1,
        };
        store
    }

    /// Adds a game.
    pub fn add_game(&mut self, game: Game)
        ensures
            final(self)@ == (StoreView { games: old(self)@.games.push(game), ..old(self)@ }),
    {
        self.games.push(game);
    }

    /// Adds a highscore table, without rows.
    pub fn add_table(&mut self, table: HighscoreTable)
        ensures
            final(self)@ == (StoreView {
                tables: old(self)@.tables.push(table),
                rows: old(self)@.rows.push(Seq::empty()),
                ..old(self)@
            }),
    {
        self.tables.push(StoredTable { table, board: Leaderboard::new() });
        assert(self@.tables =~= old(self)@.tables.push(table));
        assert(self@.rows =~= old(self)@.rows.push(Seq::empty()));
    }

    /// Looks up the secret of the game with the given UUID.
    pub fn find_game_secret(&self, game_uuid: Uuid) -> (found: Option<GameSecret>)
        ensures
            found == self@.game_secret(game_uuid),
    {
        let ghost wanted = |game: Game| game.game_uuid == game_uuid;
        let mut at: usize = 0;
        while at < self.games.len()
            invariant
                at <= self.games@.len(),
                forall|j: int| 0 <= j < at ==> !wanted(#[trigger] self.games@[j]),
                wanted == (|game: Game| game.game_uuid == game_uuid),
            decreases self.games@.len() - at,
        {
            if self.games[at].game_uuid == game_uuid {
                proof {
                    lemma_first_where_found(self.games@, wanted, at as int);
                }
                return Some(
                    GameSecret {
                        game_uuid: self.games[at].game_uuid,
                        secret_key: self.games[at].game_secret_key.clone(),
                        minimum_security_level: self.games[at].security_level,
                    },
                );
            }
            at = at + 1;
        }
        proof {
            lemma_first_where_absent(self.games@, wanted);
        }
        None
    }

    /// Whether a request with the given UUID was recorded.
    pub fn replay_exists(&self, request_uuid: Uuid) -> (seen: bool)
        ensures
            seen == self@.seen.contains_key(request_uuid),
    {
        self.historical_requests.contains(request_uuid)
    }

    /// Records a request UUID with the time `now`, unless it is recorded
    /// already: the check and the insertion are one step.
    pub fn replay_insert(&mut self, request_uuid: Uuid, now: Timestamp) -> (inserted: Result<
        (),
        StoreError,
    >)
        ensures
            inserted is Ok <==> !old(self)@.seen.contains_key(request_uuid),
            inserted is Ok ==> final(self)@ == old(self)@.replay_recorded(request_uuid, now),
            inserted is Err ==> final(self)@ == old(self)@ && inserted->Err_0 is UniqueViolation,
    {
        self.historical_requests.insert(request_uuid, now)
    }

    /// Removes the records of the requests that were recorded before the
    /// cutoff, and returns how many there were.
    pub fn cleanup_historical_requests(&mut self, cutoff: Timestamp) -> (removed: usize)
        ensures
            final(self)@ == old(self)@.cleaned_up(cutoff),
            removed == old(self)@.seen.dom().len() - final(self)@.seen.dom().len(),
    {
        self.historical_requests.remove_older_than(cutoff)
    }

    /// Whether the game with the given id has the given UUID.
    fn game_has_uuid(&self, game_id: i32, game_uuid: Uuid) -> (has: bool)
        ensures
            has == exists|i: int|
                0 <= i < self@.games.len() && (#[trigger] self@.games[i]).id == game_id
                    && self@.games[i].game_uuid == game_uuid,
    {
        let mut at: usize = 0;
        while at < self.games.len()
            invariant
                at <= self.games@.len(),
                forall|j: int|
                    0 <= j < at ==> !((#[trigger] self.games@[j]).id == game_id
                        && self.games@[j].game_uuid == game_uuid),
            decreases self.games@.len() - at,
        {
            if self.games[at].id == game_id && self.games[at].game_uuid == game_uuid {
                assert(self@.games[at as int].id == game_id);
                return true;
            }
            at = at + 1;
        }
        false
    }

    /// Looks up the table with the given UUID among the tables of the game
    /// with the given UUID, and returns its id and the number of rows that
    /// it keeps.
    pub fn find_owned_table(&self, table_uuid: Uuid, game_uuid: Uuid) -> (found: Option<
        (i32, Option<i32>),
    >)
        ensures
            found == match self@.owned_table_position(table_uuid, game_uuid) {
                Some(at) => Some((self@.tables[at].id, self@.tables[at].maximum_scores_retained)),
                None => None,
            },
    {
        let ghost wanted = is_owned_table(self@.games, table_uuid, game_uuid);
        let mut at: usize = 0;
        while at < self.tables.len()
            invariant
                at <= self.tables@.len(),
                self@.tables.len() == self.tables@.len(),
                forall|j: int| 0 <= j < at ==> !wanted(#[trigger] self@.tables[j]),
                wanted == is_owned_table(self@.games, table_uuid, game_uuid),
            decreases self.tables@.len() - at,
        {
            let table = &self.tables[at].table;
            if table.table_uuid == table_uuid && self.game_has_uuid(table.game_id, game_uuid) {
                proof {
                    lemma_first_where_found(self@.tables, wanted, at as int);
                }
                return Some((table.id, table.maximum_scores_retained));
            }
            at = at + 1;
        }
        proof {
            lemma_first_where_absent(self@.tables, wanted);
        }
        None
    }

    /// The position of the first table with the given id.
    fn table_index(&self, table_id: i32) -> (found: Option<usize>)
        ensures
            match found {
                Some(at) => at < self.tables@.len() && self@.table_position(table_id) == Some(
                    at as int,
                ),
                None => self@.table_position(table_id) is None,
            },
    {
        let ghost wanted = |table: HighscoreTable| table.id == table_id;
        let mut at: usize = 0;
        while at < self.tables.len()
            invariant
                at <= self.tables@.len(),
                self@.tables.len() == self.tables@.len(),
                forall|j: int| 0 <= j < at ==> !wanted(#[trigger] self@.tables[j]),
                wanted == (|table: HighscoreTable| table.id == table_id),
            decreases self.tables@.len() - at,
        {
            if self.tables[at].table.id == table_id {
                proof {
                    lemma_first_where_found(self@.tables, wanted, at as int);
                }
                return Some(at);
            }
            at = at + 1;
        }
        proof {
            lemma_first_where_absent(self@.tables, wanted);
        }
        None
    }

    /// Whether there is a table with the given id, and the number of rows
    /// that it keeps.
    pub fn find_table(&self, table_id: i32) -> (found: Option<Option<i32>>)
        ensures
            found == match self@.table_position(table_id) {
                Some(at) => Some(self@.tables[at].maximum_scores_retained),
                None => None,
            },
    {
        match self.table_index(table_id) {
            Some(at) => {
                Some(self.tables[at].table.maximum_scores_retained)
            },
            None => None,
        }
    }

    /// Inserts a new entry as a row of its table. The store gives the row
    /// the next id and `now` as the time of its creation.
    ///
    /// Fails, and changes nothing, where the entry's table does not exist or
    /// the ids have run out.
    pub fn highscore_insert(&mut self, entry: NewHighscoreTableEntry, now: Timestamp) -> (inserted:
        Result<i32, StoreError>)
        ensures
            final(self)@ == old(self)@.entry_inserted(entry, now),
            match inserted {
                Ok(id) => {
                    &&& old(self)@.table_position(entry.highscore_table_id) is Some
                    &&& old(self)@.next_entry_id < i32::MAX
                    &&& id == old(self)@.next_entry_id
                },
                Err(error) => if old(self)@.table_position(entry.highscore_table_id) is None {
                    error is ForeignKeyViolation
                } else {
                    old(self)@.next_entry_id == i32::MAX && error is Other
                },
            },
            is_ranked(final(self)@.rows_of(entry.highscore_table_id)),
    {
        proof {
            self.lemma_well_formed();
        }
        let Some(at) = self.table_index(entry.highscore_table_id) else {
            return Err(StoreError::ForeignKeyViolation(String::from_str("highscore_table_id")));
        };
        if self.next_entry_id == i32::MAX {
            return Err(StoreError::Other);
        }
        let id = self.next_entry_id;
        let row = HighscoreTableEntry {
            id,
            highscore_table_id: entry.highscore_table_id,
            player_name: entry.player_name,
            player_score: entry.player_score,
            player_score_metadata: entry.player_score_metadata,
            creation_timestamp: now,
        };
        let mut stored = self.tables.remove(at);
        let ghost rows_before = stored.board@;
        stored.board.insert(row);
        proof {
            lemma_ranked_of_ranked(rows_before);
            lemma_ranked_of_ranked(stored.board@);
        }
        self.tables.insert(at, stored);
        self.next_entry_id = id + 1;
        proof {
            let after = old(self)@.entry_inserted(entry, now);
            assert(self@.tables =~= after.tables);
            assert(self@.rows =~= after.rows);
            self.lemma_well_formed();
        }
        Ok(id)
    }

    /// Cuts the table with the given id down to its top `keep` rows.
    ///
    /// Fails, and changes nothing, where `keep` is negative.
    pub fn highscore_retain_top_n(&mut self, table_id: i32, keep: i64) -> (retained: Result<
        (),
        StoreError,
    >)
        ensures
            final(self)@ == old(self)@.top_retained(table_id, keep as int),
            retained is Ok <==> keep >= 0,
            retained is Err ==> retained->Err_0 is Other,
            is_ranked(final(self)@.rows_of(table_id)),
            keep >= 0 ==> final(self)@.rows_of(table_id).len() <= keep,
    {
        proof {
            self.lemma_well_formed();
        }
        if keep < 0 {
            return Err(StoreError::Other);
        }
        let Some(at) = self.table_index(table_id) else {
            return Ok(());
        };
        let count = self.tables[at].board.len();
        proof {
            lemma_ranked_of_ranked(self.tables@[at as int].board@);
        }
        if (keep as u64) < count as u64 {
            let mut stored = self.tables.remove(at);
            stored.board.retain_top(keep as usize);
            proof {
                lemma_ranked_of_ranked(stored.board@);
            }
            self.tables.insert(at, stored);
        }
        proof {
            self.lemma_well_formed();
            let after = old(self)@.top_retained(table_id, keep as int);
            assert(self@.tables =~= after.tables);
            assert(self@.rows =~= after.rows);
        }
        Ok(())
    }

    /// The rows of the table with the given id in ranking order, the first
    /// `limit` of them where a limit is set.
    pub fn highscore_list(&self, table_id: i32, limit: Option<u32>) -> (rows: Vec<
        HighscoreTableEntry,
    >)
        ensures
            rows@ == limited(
                self@.rows_of(table_id),
                match limit {
                    Some(count) => Some(count as int),
                    None => None,
                },
            ),
            is_ranked(rows@),
    {
        match self.table_index(table_id) {
            Some(at) => {
                let rows = self.tables[at].board.list(limit);
                proof {
                    lemma_ranked_of_ranked(self.tables@[at as int].board@);
                }
                rows
            },
            None => Vec::new(),
        }
    }

    /// Answers a question of a verification that it gets at the time `now`.
    pub fn answer(&mut self, query: StoreQuery, now: Timestamp) -> (reply: StoreReply)
        ensures
            (reply, final(self)@) == old(self)@.answered(query, now),
    {
        match query {
            StoreQuery::FindGameSecret(game_uuid) => StoreReply::GameSecret(
                self.find_game_secret(game_uuid),
            ),
            StoreQuery::ReplayExists(request_uuid) => StoreReply::ReplayExists(
                self.replay_exists(request_uuid),
            ),
            StoreQuery::ReplayInsert(request_uuid) => match self.replay_insert(request_uuid, now) {
                Ok(_) => StoreReply::ReplayInserted,
                Err(_) => StoreReply::ReplayConflict,
            },
        }
    }
}

} // verus!
