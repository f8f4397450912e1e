//! The canonical ranking of highscores, and tables kept in that order.
//!
//! A row ranks before another when its score is higher; between equal scores
//! the earlier submission ranks first, and between rows of one instant the
//! one that the store numbered first.

use crate::db::models::HighscoreTableEntry;
use vstd::prelude::*;

verus! {

/// Whether `first` ranks strictly before `second`.
pub open spec fn ranks_before(first: HighscoreTableEntry, second: HighscoreTableEntry) -> bool {
    let first_rank = first.player_score.rank();
    let second_rank = second.player_score.rank();
    let first_time = first.creation_timestamp.nanos;
    let second_time = second.creation_timestamp.nanos;
    ||| first_rank > second_rank
    ||| first_rank == second_rank && first_time < second_time
    ||| first_rank == second_rank && first_time == second_time && first.id < second.id
}

/// Whether rows stand in ranking order: no row ranks before one that
/// precedes it.
pub open spec fn is_ranked(rows: Seq<HighscoreTableEntry>) -> bool {
    forall|i: int, j: int|
        0 <= i < j < rows.len() ==> !ranks_before(#[trigger] rows[j], #[trigger] rows[i])
}

/// Where a row goes among ranked rows: before the first row that it ranks
/// before, and last where there is none.
pub open spec fn insertion_point(rows: Seq<HighscoreTableEntry>, entry: HighscoreTableEntry) -> int
    decreases rows.len(),
{
    if rows.len() == 0 || ranks_before(entry, rows[0]) {
        0
    } else {
        1 + insertion_point(rows.drop_first(), entry)
    }
}

/// Ranked rows with one more row, at its place.
pub open spec fn ranked_insert(
    rows: Seq<HighscoreTableEntry>,
    entry: HighscoreTableEntry,
) -> Seq<HighscoreTableEntry> {
    rows.insert(insertion_point(rows, entry), entry)
}

/// Rows in ranking order; rows that rank alike keep their order.
pub open spec fn ranked(rows: Seq<HighscoreTableEntry>) -> Seq<HighscoreTableEntry>
    decreases rows.len(),
{
    if rows.len() == 0 {
        Seq::empty()
    } else {
        ranked_insert(ranked(rows.drop_last()), rows.last())
    }
}

/// The first `limit` rows, or all of them where there are fewer or no limit
/// is set.
pub open spec fn limited(rows: Seq<HighscoreTableEntry>, limit: Option<int>) -> Seq<
    HighscoreTableEntry,
> {
    match limit {
        Some(count) if 0 <= count < rows.len() => rows.take(count),
        _ => rows,
    }
}

/// The rows behind the first `keep` rows; none where there are no more than
/// `keep`.
pub open spec fn beyond(rows: Seq<HighscoreTableEntry>, keep: int) -> Seq<HighscoreTableEntry> {
    if 0 <= keep < rows.len() {
        rows.skip(keep)
    } else {
        Seq::empty()
    }
}

/// The insertion point lies within the rows, the row ranks before none of
/// the rows ahead of it, and it ranks before the row that stands there.
pub proof fn lemma_insertion_point(rows: Seq<HighscoreTableEntry>, entry: HighscoreTableEntry)
    ensures
        0 <= insertion_point(rows, entry) <= rows.len(),
        forall|i: int|
            0 <= i < insertion_point(rows, entry) ==> !ranks_before(entry, #[trigger] rows[i]),
        insertion_point(rows, entry) < rows.len() ==> ranks_before(
            entry,
            rows[insertion_point(rows, entry)],
        ),
    decreases rows.len(),
{
    if rows.len() > 0 && !ranks_before(entry, rows[0]) {
        let rest = rows.drop_first();
        lemma_insertion_point(rest, entry);
        let at = insertion_point(rest, entry);
        assert forall|i: int| 0 <= i < at + 1 implies !ranks_before(entry, #[trigger] rows[i]) by {
            if i > 0 {
                assert(rows[i] == rest[i - 1]);
            }
        }
        if at + 1 < rows.len() {
            assert(rows[at + 1] == rest[at]);
        }
    }
}

/// Inserting a row at its place keeps ranked rows ranked.
pub proof fn lemma_ranked_insert_is_ranked(
    rows: Seq<HighscoreTableEntry>,
    entry: HighscoreTableEntry,
)
    requires
        is_ranked(rows),
    ensures
        is_ranked(ranked_insert(rows, entry)),
{
    lemma_insertion_point(rows, entry);
}

/// Ranking puts rows in ranking order.
pub proof fn lemma_ranked_is_ranked(rows: Seq<HighscoreTableEntry>)
    ensures
        is_ranked(ranked(rows)),
        ranked(rows).len() == rows.len(),
    decreases rows.len(),
{
    if rows.len() > 0 {
        lemma_ranked_is_ranked(rows.drop_last());
        lemma_insertion_point(ranked(rows.drop_last()), rows.last());
        lemma_ranked_insert_is_ranked(ranked(rows.drop_last()), rows.last());
    }
}

/// A row that ranks before none of the rows goes last.
pub proof fn lemma_insertion_point_last(rows: Seq<HighscoreTableEntry>, entry: HighscoreTableEntry)
    requires
        forall|i: int| 0 <= i < rows.len() ==> !ranks_before(entry, #[trigger] rows[i]),
    ensures
        insertion_point(rows, entry) == rows.len(),
    decreases rows.len(),
{
    if rows.len() > 0 {
        lemma_insertion_point_last(rows.drop_first(), entry);
    }
}

/// Ranking leaves rows that stand in ranking order as they are.
pub proof fn lemma_ranked_of_ranked(rows: Seq<HighscoreTableEntry>)
    requires
        is_ranked(rows),
    ensures
        ranked(rows) == rows,
    decreases rows.len(),
{
    if rows.len() > 0 {
        let front = rows.drop_last();
        lemma_ranked_of_ranked(front);
        lemma_insertion_point_last(front, rows.last());
    }
}

/// Inserting a row at its place adds that row and no other.
pub proof fn lemma_ranked_insert_adds_one(
    rows: Seq<HighscoreTableEntry>,
    entry: HighscoreTableEntry,
)
    ensures
        ranked_insert(rows, entry).to_multiset() == rows.to_multiset().insert(entry),
{
    broadcast use vstd::seq_lib::group_to_multiset_ensures;

    lemma_insertion_point(rows, entry);
}

/// Ranking keeps every row, as often as it occurs, and adds none.
pub proof fn lemma_ranked_permutes(rows: Seq<HighscoreTableEntry>)
    ensures
        ranked(rows).to_multiset() == rows.to_multiset(),
    decreases rows.len(),
{
    broadcast use vstd::seq_lib::group_to_multiset_ensures;

    if rows.len() > 0 {
        lemma_ranked_permutes(rows.drop_last());
        lemma_ranked_insert_adds_one(ranked(rows.drop_last()), rows.last());
        assert(rows =~= rows.drop_last().push(rows.last()));
    }
}

/// Whether no two rows have one id.
pub open spec fn has_distinct_ids(rows: Seq<HighscoreTableEntry>) -> bool {
    forall|i: int, j: int|
        0 <= i < j < rows.len() ==> (#[trigger] rows[i]).id != (#[trigger] rows[j]).id
}

/// Ranking rows whose ids are distinct leaves their ids distinct.
pub proof fn lemma_ranked_keeps_ids_distinct(rows: Seq<HighscoreTableEntry>)
    requires
        has_distinct_ids(rows),
    ensures
        has_distinct_ids(ranked(rows)),
    decreases rows.len(),
{
    broadcast use vstd::seq_lib::group_to_multiset_ensures;

    if rows.len() > 0 {
        let front = rows.drop_last();
        let last = rows.last();
        lemma_ranked_keeps_ids_distinct(front);
        lemma_ranked_permutes(front);
        lemma_insertion_point(ranked(front), last);
        let before = ranked(front);
        assert forall|i: int| 0 <= i < before.len() implies (#[trigger] before[i]).id
            != last.id by {
            assert(front.to_multiset().count(before[i]) > 0);
        }
    }
}

/// Of ranked rows with distinct ids, the ids of the rows behind the first
/// `keep` name those rows and no others: a row's id is among them exactly
/// where the row ranks behind the first `keep`.
pub proof fn lemma_ids_beyond_name_the_rows_beyond(rows: Seq<HighscoreTableEntry>, keep: int)
    requires
        has_distinct_ids(rows),
        0 <= keep,
    ensures
        forall|i: int|
            0 <= i < ranked(rows).len() ==> (beyond(ranked(rows), keep).map_values(
                |row: HighscoreTableEntry| row.id,
            ).contains((#[trigger] ranked(rows)[i]).id) <==> i >= keep),
{
    lemma_ranked_keeps_ids_distinct(rows);
    let ranking = ranked(rows);
    let ids = beyond(ranking, keep).map_values(|row: HighscoreTableEntry| row.id);
    assert forall|i: int| 0 <= i < ranking.len() implies (ids.contains((#[trigger] ranking[i]).id)
        <==> i >= keep) by {
        if i >= keep {
            assert(ids[i - keep] == ranking[i].id);
        }
        if ids.contains(ranking[i].id) {
            let k = choose|k: int| 0 <= k < ids.len() && ids[k] == ranking[i].id;
            assert(ids[k] == ranking[keep + k].id);
        }
    }
}

/// Of ranked rows cut after the first `keep`, no row that was cut off ranks
/// before a row that was kept: the rows kept are the top `keep`.
pub proof fn lemma_kept_rows_are_top(rows: Seq<HighscoreTableEntry>, keep: int)
    requires
        is_ranked(rows),
        0 <= keep <= rows.len(),
    ensures
        is_ranked(rows.take(keep)),
        forall|i: int, j: int|
            0 <= i < keep && 0 <= j < rows.len() - keep ==> !ranks_before(
                #[trigger] rows.skip(keep)[j],
                #[trigger] rows.take(keep)[i],
            ),
{
}

/// Whether `first` ranks strictly before `second`.
pub fn outranks(first: &HighscoreTableEntry, second: &HighscoreTableEntry) -> (before: bool)
    ensures
        before == ranks_before(*first, *second),
{
    let first_rank = first.player_score.rank_key();
    let second_rank = second.player_score.rank_key();
    if first_rank != second_rank {
        first_rank > second_rank
    } else if first.creation_timestamp.nanos != second.creation_timestamp.nanos {
        first.creation_timestamp.nanos < second.creation_timestamp.nanos
    } else {
        first.id < second.id
    }
}

/// The rows of one highscore table, kept in ranking order.
#[derive(Debug)]
pub struct Leaderboard {
    rows: Vec<HighscoreTableEntry>,
}

impl View for Leaderboard {
    type V = Seq<HighscoreTableEntry>;

    closed spec fn view(&self) -> Seq<HighscoreTableEntry> {
        self.rows@
    }
}

impl Leaderboard {
    #[verifier::type_invariant]
    spec fn rows_are_ranked(&self) -> bool {
        is_ranked(self.rows@)
    }

    /// A table without rows.
    pub fn new() -> (board: Leaderboard)
        ensures
            board@ == Seq::<HighscoreTableEntry>::empty(),
    {
        Leaderboard { rows: Vec::new() }
    }

    /// The table that holds the given rows: the same rows, each as often
    /// as it is given, in ranking order.
    pub fn from_rows(rows: &Vec<HighscoreTableEntry>) -> (board: Leaderboard)
        ensures
            board@ == ranked(rows@),
            is_ranked(board@),
            board@.to_multiset() == rows@.to_multiset(),
    {
        let mut board = Leaderboard::new();
        let mut at: usize = 0;
        while at < rows.len()
            invariant
                at <= rows.len(),
                board@ == ranked(rows@.take(at as int)),
            decreases rows.len() - at,
        {
            proof {
                assert(rows@.take(at as int + 1).drop_last() =~= rows@.take(at as int));
            }
            board.insert(rows[at].clone());
            at = at + 1;
        }
        proof {
            assert(rows@.take(at as int) =~= rows@);
            use_type_invariant(&board);
            lemma_ranked_permutes(rows@);
        }
        board
    }

    /// The number of rows.
    pub fn len(&self) -> (count: usize)
        ensures
            count == self@.len(),
            is_ranked(self@),
    {
        proof {
            use_type_invariant(self);
        }
        self.rows.len()
    }

    /// The row at a rank, counted from 0.
    pub fn get(&self, rank: usize) -> (row: &HighscoreTableEntry)
        requires
            rank < self@.len(),
        ensures
            *row == self@[rank as int],
    {
        &self.rows[rank]
    }

    /// Adds a row at its place in the ranking.
    pub fn insert(&mut self, entry: HighscoreTableEntry)
        ensures
            final(self)@ == ranked_insert(old(self)@, entry),
            is_ranked(old(self)@),
            is_ranked(final(self)@),
    {
        proof {
            use_type_invariant(&*self);
            lemma_insertion_point(self.rows@, entry);
            lemma_ranked_insert_is_ranked(self.rows@, entry);
        }
        let mut rows: Vec<HighscoreTableEntry> = Vec::new();
        core::mem::swap(&mut self.rows, &mut rows);
        let mut at: usize = 0;
        assert(rows@.skip(0) =~= rows@);
        while at < rows.len() && !outranks(&entry, &rows[at])
            invariant
                at <= rows@.len(),
                rows@ == old(self).rows@,
                insertion_point(rows@, entry) == at + insertion_point(rows@.skip(at as int), entry),
            decreases rows@.len() - at,
        {
            proof {
                assert(rows@.skip(at as int).drop_first() =~= rows@.skip(at as int + 1));
            }
            at = at + 1;
        }
        rows.insert(at, entry);
        self.rows = rows;
    }

    /// Keeps the first `keep` rows and removes the rest.
    pub fn retain_top(&mut self, keep: usize)
        ensures
            final(self)@ == limited(old(self)@, Some(keep as int)),
            is_ranked(old(self)@),
            is_ranked(final(self)@),
            final(self)@.len() <= keep,
    {
        proof {
            use_type_invariant(&*self);
            if keep < self.rows@.len() {
                lemma_kept_rows_are_top(self.rows@, keep as int);
            }
        }
        let mut rows: Vec<HighscoreTableEntry> = Vec::new();
        core::mem::swap(&mut self.rows, &mut rows);
        rows.truncate(keep);
        self.rows = rows;
    }

    /// The ids of the rows that rank behind the first `keep` rows, in
    /// ranking order.
    pub fn ids_beyond(&self, keep: usize) -> (ids: Vec<i32>)
        ensures
            ids@ == beyond(self@, keep as int).map_values(|row: HighscoreTableEntry| row.id),
    {
        let mut ids: Vec<i32> = Vec::new();
        if keep >= self.rows.len() {
            return ids;
        }
        let mut at: usize = keep;
        while at < self.rows.len()
            invariant
                keep <= at <= self.rows@.len(),
                ids@ == self.rows@.subrange(keep as int, at as int).map_values(
                    |row: HighscoreTableEntry| row.id,
                ),
            decreases self.rows@.len() - at,
        {
            ids.push(self.rows[at].id);
            at = at + 1;
        }
        ids
    }

    /// The rows in ranking order, the first `limit` of them where a limit
    /// is set.
    pub fn list(&self, limit: Option<u32>) -> (rows: Vec<HighscoreTableEntry>)
        ensures
            rows@ == limited(
                self@,
                match limit {
                    Some(count) => Some(count as int),
                    None => None,
                },
            ),
            is_ranked(self@),
            is_ranked(rows@),
    {
        proof {
            use_type_invariant(self);
        }
        let wanted: usize = match limit {
            Some(count) => if (count as usize) < self.rows.len() {
                count as usize
            } else {
                self.rows.len()
            },
            None => self.rows.len(),
        };
        let mut rows: Vec<HighscoreTableEntry> = Vec::new();
        let mut at: usize = 0;
        while at < wanted
            invariant
                at <= wanted <= self.rows@.len(),
                rows@ == self.rows@.take(at as int),
            decreases wanted - at,
        {
            rows.push(self.rows[at].clone());
            at = at + 1;
        }
        proof {
            lemma_kept_rows_are_top(self.rows@, wanted as int);
        }
        rows
    }
}

} // verus!
