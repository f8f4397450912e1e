//! What the developer API shares with the game-facing endpoints: the listing
//! of a table's scores and the limit on retained rows.

use crate::db::error::StoreError;
use crate::db::models::{duplicate_optional_text, HighscoreTableEntry};
use crate::db::ranking::{is_ranked, limited, ranked, Leaderboard};
use crate::db::store::Store;
use crate::server::auth::DeveloperUser;
use crate::util::score::Score;
use crate::util::time::Timestamp;
use vstd::prelude::*;
use vstd::std_specs::convert::FromSpecImpl;

verus! {

pub const MAX_HIGHSCORES_RETAINED_FOR_NON_ADMIN: i32 = 100;

#[derive(Debug)]
pub struct AuthResponse {
    /// A fresh JWT token associated to the user.
    pub token: String,
}

#[derive(Debug)]
pub struct ScoresResponse {
    /// All highscores in the table, sorted in descending order by score
    /// value. Tied scores are sorted by creation timestamp, with earlier
    /// scores ranking higher.
    pub scores: Vec<ScoresResponseEntry>,
}

#[derive(Debug)]
pub struct ScoresResponseEntry {
    /// The name of the player who submitted the score.
    pub player_name: String,
    /// The player's score.
    pub player_score: Score,
    /// Optional metadata supplied with the player's submission. The meaning
    /// of this field is game-specific.
    pub player_score_metadata: Option<String>,
    /// When the score was submitted.
    pub creation_timestamp: Timestamp,
}

impl From<HighscoreTableEntry> for ScoresResponseEntry {
    fn from(entry: HighscoreTableEntry) -> (shown: Self) {
        Self {
            player_name: entry.player_name,
            player_score: entry.player_score,
            player_score_metadata: entry.player_score_metadata,
            creation_timestamp: entry.creation_timestamp,
        }
    }
}

impl FromSpecImpl<HighscoreTableEntry> for ScoresResponseEntry {
    open spec fn obeys_from_spec() -> bool {
        true
    }

    open spec fn from_spec(entry: HighscoreTableEntry) -> Self {
        ScoresResponseEntry {
            player_name: entry.player_name,
            player_score: entry.player_score,
            player_score_metadata: entry.player_score_metadata,
            creation_timestamp: entry.creation_timestamp,
        }
    }
}

/// What is shown of a row.
pub open spec fn shown(entry: HighscoreTableEntry) -> ScoresResponseEntry {
    ScoresResponseEntry {
        player_name: entry.player_name,
        player_score: entry.player_score,
        player_score_metadata: entry.player_score_metadata,
        creation_timestamp: entry.creation_timestamp,
    }
}

/// The limit of a listing as a number of rows.
pub open spec fn row_limit(limit: Option<u32>) -> Option<int> {
    match limit {
        Some(count) => Some(count as int),
        None => None,
    }
}

/// The number of rows that a new table keeps.
///
/// An administrator's wish stands as it is. For anyone else a table keeps at
/// most [`MAX_HIGHSCORES_RETAINED_FOR_NON_ADMIN`] rows: that many where no
/// number is asked for, or one that is negative or greater.
pub open spec fn normalized_max_scores(maximum_scores_retained: Option<i32>, admin: bool) -> Option<
    i32,
> {
    if admin {
        maximum_scores_retained
    } else {
        match maximum_scores_retained {
            Some(n) if 0 <= n <= MAX_HIGHSCORES_RETAINED_FOR_NON_ADMIN => Some(n),
            _ => Some(MAX_HIGHSCORES_RETAINED_FOR_NON_ADMIN),
        }
    }
}

/// Non-admin users are not permitted to make highscore tables with no limit,
/// or tables with a limit higher than
/// [`MAX_HIGHSCORES_RETAINED_FOR_NON_ADMIN`]. This function enforces that
/// limit. Admin users are not subject to this restriction.
pub fn normalize_max_scores(
    maximum_scores_retained: Option<i32>,
    requesting_user: &DeveloperUser,
) -> (normalized: Option<i32>)
    ensures
        normalized == normalized_max_scores(maximum_scores_retained, requesting_user.admin()),
{
    if requesting_user.is_admin() {
        // Implicitly trust admin users. Do not restrict their inputs.
        return maximum_scores_retained;
    }
    let Some(n) = maximum_scores_retained else {
        return Some(MAX_HIGHSCORES_RETAINED_FOR_NON_ADMIN);
    };
    if n < 0 || n > MAX_HIGHSCORES_RETAINED_FOR_NON_ADMIN {
        return Some(MAX_HIGHSCORES_RETAINED_FOR_NON_ADMIN);
    }
    Some(n)
}

/// The rows of a table as they are shown: in ranking order, the first
/// `limit` of them where a limit is set.
pub fn rank_scores(rows: &Vec<HighscoreTableEntry>, limit: Option<u32>) -> (response:
    ScoresResponse)
    ensures
        response.scores@ == limited(ranked(rows@), row_limit(limit)).map_values(
            |entry: HighscoreTableEntry| shown(entry),
        ),
        is_ranked(limited(ranked(rows@), row_limit(limit))),
{
    let board = Leaderboard::from_rows(rows);
    show_scores(&board.list(limit))
}

/// The scores of a table in ranking order, the first `limit` of them where
/// a limit is set. A table that does not exist has no scores.
pub fn get_scores_for_table(highscore_table_id: i32, limit: Option<u32>, db: &Store) -> (listed:
    Result<ScoresResponse, StoreError>)
    ensures
        listed is Ok,
        listed->Ok_0.scores@ == limited(
            db@.rows_of(highscore_table_id),
            row_limit(limit),
        ).map_values(|entry: HighscoreTableEntry| shown(entry)),
        is_ranked(limited(db@.rows_of(highscore_table_id), row_limit(limit))),
{
    Ok(show_scores(&db.highscore_list(highscore_table_id, limit)))
}

/// What is shown of rows, in their order.
pub fn show_scores(entries: &Vec<HighscoreTableEntry>) -> (response: ScoresResponse)
    ensures
        response.scores@ == entries@.map_values(|entry: HighscoreTableEntry| shown(entry)),
{
    let mut scores: Vec<ScoresResponseEntry> = Vec::new();
    let mut at: usize = 0;
    while at < entries.len()
        invariant
            at <= entries@.len(),
            scores@ == entries@.take(at as int).map_values(
                |entry: HighscoreTableEntry| shown(entry),
            ),
        decreases entries@.len() - at,
    {
        let entry = &entries[at];
        scores.push(
            ScoresResponseEntry {
                player_name: entry.player_name.clone(),
                player_score: entry.player_score,
                player_score_metadata: duplicate_optional_text(&entry.player_score_metadata),
                creation_timestamp: entry.creation_timestamp,
            },
        );
        at = at + 1;
    }
    ScoresResponse { scores }
}

} // verus!
