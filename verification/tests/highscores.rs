use base64::Engine;
use sha2::Digest;
use topbanana::db::error::StoreError;
use topbanana::db::ledger::ReplayLedger;
use topbanana::db::models::{Game, HighscoreTable, HighscoreTableEntry, NewHighscoreTableEntry};
use topbanana::db::ranking::{outranks, Leaderboard};
use topbanana::db::store::Store;
use topbanana::server::api::{
    get_scores_for_table, normalize_max_scores, rank_scores, show_scores, ScoresResponseEntry,
    MAX_HIGHSCORES_RETAINED_FOR_NON_ADMIN,
};
use topbanana::server::auth::{DeveloperUser, JwtClaim, UserFlags};
use topbanana::server::error::{ApiError, Status};
use topbanana::server::highscore_tables::table_request::{
    begin_table_request, request_table, resume_table_request, TableError, TableQuery, TableReply,
    TableState, TableStep,
};
use topbanana::server::requests::protocol::{GameSecret, StoreQuery, StoreReply};
use topbanana::server::requests::RequestBodyVerifyError;
use topbanana::server::highscore_tables::{
    extra_highscore_rows, get_highscore_table_scores, GetHighscoreTableParams, get_highscore_table_scores_impl,
    get_highscore_table_scores_with_limit, insert_and_retain, post_new_highscore_table_score,
    remove_extra_highscore_rows,
};
use topbanana::server::requests::GameRequestPayload;
use topbanana::util::score::Score;
use topbanana::util::time::Timestamp;
use topbanana::util::uuid::Uuid;

const NOW: i64 = 1_700_000_000;
const SECRET: &str = "s3cr3t";
const TABLE: i32 = 7;

fn score(value: f64) -> Score {
    Score::from_bits(value.to_bits())
}

fn value(score: Score) -> f64 {
    f64::from_bits(score.to_bits())
}

fn store_with_table(maximum_scores_retained: Option<i32>) -> Store {
    let mut store = Store::new();
    store.add_game(Game {
        id: 1,
        developer_id: 1,
        game_uuid: Uuid::from_u128(1),
        game_secret_key: String::from(SECRET),
        name: String::from("Banana Quest"),
        security_level: 10,
    });
    store.add_table(HighscoreTable {
        id: TABLE,
        game_id: 1,
        name: String::from("Level 1"),
        table_uuid: Uuid::from_u128(0x77),
        maximum_scores_retained,
    });
    store
}

fn entry(name: &str, value: f64) -> NewHighscoreTableEntry {
    NewHighscoreTableEntry {
        highscore_table_id: TABLE,
        player_name: String::from(name),
        player_score: score(value),
        player_score_metadata: None,
    }
}

fn row(id: i32, value: f64, seconds: i64) -> HighscoreTableEntry {
    HighscoreTableEntry {
        id,
        highscore_table_id: TABLE,
        player_name: format!("player {}", id),
        player_score: score(value),
        player_score_metadata: None,
        creation_timestamp: Timestamp::from_seconds(seconds),
    }
}

fn listed(store: &Store, limit: Option<u32>) -> Vec<f64> {
    store
        .highscore_list(TABLE, limit)
        .iter()
        .map(|row| value(row.player_score))
        .collect()
}

fn names(store: &Store) -> Vec<String> {
    store
        .highscore_list(TABLE, None)
        .iter()
        .map(|row| row.player_name.clone())
        .collect()
}

#[test]
fn five_scores_into_a_table_of_three_leave_the_top_three() {
    let mut store = store_with_table(Some(3));
    let scores = [10.0, 20.0, 30.0, 40.0, 50.0];
    for (at, value) in scores.iter().enumerate() {
        let added = insert_and_retain(
            &mut store,
            entry("Ann", *value),
            Some(3),
            Timestamp::from_seconds(NOW + at as i64),
        );
        assert!(added.is_ok());
        assert!(store.highscore_list(TABLE, None).len() <= 3);
    }
    assert_eq!(listed(&store, None), vec![50.0, 40.0, 30.0]);
    let response = get_scores_for_table(TABLE, None, &store).unwrap();
    let shown: Vec<f64> = response.scores.iter().map(|row| value(row.player_score)).collect();
    assert_eq!(shown, vec![50.0, 40.0, 30.0]);
}

#[test]
fn the_top_rows_stay_whatever_the_order_of_arrival() {
    let mut store = store_with_table(Some(3));
    for (at, value) in [50.0, 10.0, 40.0, 20.0, 30.0].iter().enumerate() {
        insert_and_retain(
            &mut store,
            entry("Ann", *value),
            Some(3),
            Timestamp::from_seconds(NOW + at as i64),
        )
        .unwrap();
    }
    assert_eq!(listed(&store, None), vec![50.0, 40.0, 30.0]);
}

#[test]
fn a_score_below_a_full_table_is_not_kept() {
    let mut store = store_with_table(Some(2));
    for (at, value) in [30.0, 20.0, 10.0].iter().enumerate() {
        insert_and_retain(
            &mut store,
            entry("Ann", *value),
            Some(2),
            Timestamp::from_seconds(NOW + at as i64),
        )
        .unwrap();
    }
    assert_eq!(listed(&store, None), vec![30.0, 20.0]);
}

#[test]
fn a_table_without_a_maximum_keeps_every_row() {
    let mut store = store_with_table(None);
    for at in 0..150 {
        insert_and_retain(
            &mut store,
            entry("Ann", at as f64),
            None,
            Timestamp::from_seconds(NOW + at),
        )
        .unwrap();
    }
    let rows = listed(&store, None);
    assert_eq!(rows.len(), 150);
    assert_eq!(rows[0], 149.0);
    assert_eq!(rows[149], 0.0);
}

#[test]
fn a_maximum_of_zero_keeps_no_row() {
    let mut store = store_with_table(Some(0));
    insert_and_retain(&mut store, entry("Ann", 10.0), Some(0), Timestamp::from_seconds(NOW))
        .unwrap();
    assert!(listed(&store, None).is_empty());
}

#[test]
fn a_negative_maximum_fails_and_changes_nothing() {
    let mut store = store_with_table(None);
    insert_and_retain(&mut store, entry("Ann", 10.0), None, Timestamp::from_seconds(NOW)).unwrap();
    let added = insert_and_retain(
        &mut store,
        entry("Bob", 20.0),
        Some(-1),
        Timestamp::from_seconds(NOW + 1),
    );
    assert!(matches!(added, Err(StoreError::Other)));
    assert_eq!(listed(&store, None), vec![10.0]);
    let removed = remove_extra_highscore_rows(TABLE, Some(-1), &mut store);
    assert!(matches!(removed, Err(StoreError::Other)));
    assert_eq!(listed(&store, None), vec![10.0]);
}

#[test]
fn a_score_for_a_table_that_does_not_exist_is_refused() {
    let mut store = store_with_table(None);
    let mut stray = entry("Ann", 10.0);
    stray.highscore_table_id = 99;
    let added = insert_and_retain(&mut store, stray, Some(3), Timestamp::from_seconds(NOW));
    assert!(matches!(added, Err(StoreError::ForeignKeyViolation(_))));
    let mut stray = entry("Ann", 10.0);
    stray.highscore_table_id = 99;
    let added = insert_and_retain(&mut store, stray, Some(-3), Timestamp::from_seconds(NOW));
    assert!(matches!(added, Err(StoreError::ForeignKeyViolation(_))));
    assert!(store.highscore_list(99, None).is_empty());
    assert!(listed(&store, None).is_empty());
}

#[test]
fn equal_scores_rank_by_the_time_of_their_submission() {
    let mut store = store_with_table(Some(2));
    insert_and_retain(&mut store, entry("late", 10.0), Some(2), Timestamp::from_seconds(NOW + 9))
        .unwrap();
    insert_and_retain(&mut store, entry("early", 10.0), Some(2), Timestamp::from_seconds(NOW))
        .unwrap();
    insert_and_retain(&mut store, entry("middle", 10.0), Some(2), Timestamp::from_seconds(NOW + 5))
        .unwrap();
    assert_eq!(names(&store), vec![String::from("early"), String::from("middle")]);
}

#[test]
fn rows_of_one_instant_rank_by_their_ids() {
    let mut store = store_with_table(None);
    for name in ["first", "second", "third"] {
        insert_and_retain(&mut store, entry(name, 10.0), None, Timestamp::from_seconds(NOW))
            .unwrap();
    }
    assert_eq!(
        names(&store),
        vec![String::from("first"), String::from("second"), String::from("third")]
    );
    let ids: Vec<i32> = store.highscore_list(TABLE, None).iter().map(|row| row.id).collect();
    assert_eq!(ids, vec![1, 2, 3]);
}

#[test]
fn the_store_sets_the_time_of_creation() {
    let mut store = store_with_table(None);
    let id = store
        .highscore_insert(entry("Ann", 10.0), Timestamp::from_parts(NOW, 500))
        .unwrap();
    assert_eq!(id, 1);
    let rows = store.highscore_list(TABLE, None);
    assert_eq!(rows[0].creation_timestamp, Timestamp::from_parts(NOW, 500));
    assert_eq!(rows[0].creation_timestamp.nanos, 1_700_000_000_000_000_500);
    assert_eq!(rows[0].highscore_table_id, TABLE);
    assert_eq!(rows[0].player_name, "Ann");
}

#[test]
fn a_listing_is_cut_at_its_limit() {
    let mut store = store_with_table(None);
    for (at, value) in [10.0, 20.0, 30.0, 40.0, 50.0].iter().enumerate() {
        insert_and_retain(
            &mut store,
            entry("Ann", *value),
            None,
            Timestamp::from_seconds(NOW + at as i64),
        )
        .unwrap();
    }
    assert_eq!(listed(&store, Some(2)), vec![50.0, 40.0]);
    assert_eq!(listed(&store, Some(0)), Vec::<f64>::new());
    assert_eq!(listed(&store, Some(5)), vec![50.0, 40.0, 30.0, 20.0, 10.0]);
    assert_eq!(listed(&store, Some(u32::MAX)), vec![50.0, 40.0, 30.0, 20.0, 10.0]);
    assert_eq!(listed(&store, None), vec![50.0, 40.0, 30.0, 20.0, 10.0]);
}

#[test]
fn retention_leaves_other_tables_alone() {
    let mut store = store_with_table(Some(1));
    store.add_table(HighscoreTable {
        id: 8,
        game_id: 1,
        name: String::from("Level 2"),
        table_uuid: Uuid::from_u128(0x88),
        maximum_scores_retained: None,
    });
    for at in 0..3 {
        let mut other = entry("Bob", at as f64);
        other.highscore_table_id = 8;
        insert_and_retain(&mut store, other, None, Timestamp::from_seconds(NOW + at)).unwrap();
    }
    for at in 0..3 {
        insert_and_retain(
            &mut store,
            entry("Ann", at as f64),
            Some(1),
            Timestamp::from_seconds(NOW + at),
        )
        .unwrap();
    }
    assert_eq!(listed(&store, None), vec![2.0]);
    assert_eq!(store.highscore_list(8, None).len(), 3);
}

#[test]
fn retaining_more_rows_than_there_are_changes_nothing() {
    let mut store = store_with_table(None);
    insert_and_retain(&mut store, entry("Ann", 1.0), None, Timestamp::from_seconds(NOW)).unwrap();
    assert!(store.highscore_retain_top_n(TABLE, 5).is_ok());
    assert!(store.highscore_retain_top_n(TABLE, i64::MAX).is_ok());
    assert!(store.highscore_retain_top_n(99, 0).is_ok());
    assert_eq!(listed(&store, None), vec![1.0]);
    assert!(remove_extra_highscore_rows(TABLE, None, &mut store).is_ok());
    assert_eq!(listed(&store, None), vec![1.0]);
    assert!(remove_extra_highscore_rows(TABLE, Some(0), &mut store).is_ok());
    assert!(listed(&store, None).is_empty());
}

#[test]
fn scores_rank_as_numbers() {
    let ordered = [
        f64::NEG_INFINITY,
        -1.0e300,
        -2.0,
        -1.0,
        -f64::MIN_POSITIVE,
        0.0,
        f64::MIN_POSITIVE,
        0.5,
        1.0,
        1.5,
        1.0e300,
        f64::INFINITY,
    ];
    for low in 0..ordered.len() {
        for high in 0..ordered.len() {
            let below = score(ordered[low]).rank_key() < score(ordered[high]).rank_key();
            assert_eq!(below, low < high, "{} and {}", ordered[low], ordered[high]);
        }
    }
}

#[test]
fn the_two_zeros_rank_alike_and_what_is_no_number_ranks_highest() {
    assert_eq!(score(0.0).rank_key(), score(-0.0).rank_key());
    assert_eq!(score(0.0).rank_key(), 0x8000_0000_0000_0000);
    assert_eq!(score(f64::NAN).rank_key(), u64::MAX);
    assert_eq!(score(-f64::NAN).rank_key(), u64::MAX);
    assert!(score(f64::INFINITY).rank_key() < score(f64::NAN).rank_key());
    assert_eq!(score(1.0).rank_key(), 0xbff0_0000_0000_0000);
    assert_eq!(score(-1.0).rank_key(), 0x400f_ffff_ffff_ffff);
    assert_eq!(score(10.0).to_bits(), 0x4024_0000_0000_0000);
}

#[test]
fn a_row_outranks_another_by_score_then_time_then_id() {
    assert!(outranks(&row(1, 20.0, 5), &row(2, 10.0, 1)));
    assert!(!outranks(&row(2, 10.0, 1), &row(1, 20.0, 5)));
    assert!(outranks(&row(1, 10.0, 1), &row(2, 10.0, 5)));
    assert!(!outranks(&row(1, 10.0, 5), &row(2, 10.0, 1)));
    assert!(outranks(&row(1, 10.0, 5), &row(2, 10.0, 5)));
    assert!(!outranks(&row(2, 10.0, 5), &row(1, 10.0, 5)));
    assert!(!outranks(&row(1, 10.0, 5), &row(1, 10.0, 5)));
}

#[test]
fn a_leaderboard_ranks_the_rows_that_it_is_given() {
    let rows = vec![row(1, 10.0, 1), row(2, 30.0, 2), row(3, 20.0, 3), row(4, 30.0, 1)];
    let mut board = Leaderboard::from_rows(&rows);
    let ids: Vec<i32> = (0..board.len()).map(|rank| board.get(rank).id).collect();
    assert_eq!(ids, vec![4, 2, 3, 1]);
    board.insert(row(5, 25.0, 9));
    let ids: Vec<i32> = board.list(None).iter().map(|row| row.id).collect();
    assert_eq!(ids, vec![4, 2, 5, 3, 1]);
    board.retain_top(2);
    let ids: Vec<i32> = board.list(Some(7)).iter().map(|row| row.id).collect();
    assert_eq!(ids, vec![4, 2]);
    board.retain_top(5);
    assert_eq!(board.len(), 2);
    assert_eq!(Leaderboard::new().len(), 0);
}

#[test]
fn what_is_shown_of_a_row_leaves_out_its_ids() {
    let mut stored = row(3, 12.5, NOW);
    stored.player_score_metadata = Some(String::from("speedrun"));
    let shown = ScoresResponseEntry::from(stored);
    assert_eq!(shown.player_name, "player 3");
    assert_eq!(value(shown.player_score), 12.5);
    assert_eq!(shown.player_score_metadata.as_deref(), Some("speedrun"));
    assert_eq!(shown.creation_timestamp, Timestamp::from_seconds(NOW));
}

fn developer(bits: u32) -> DeveloperUser {
    DeveloperUser::from_claim(JwtClaim {
        sub: Uuid::from_u128(5),
        user_flags: UserFlags { bits },
        exp: 0,
    })
}

#[test]
fn a_non_admin_gets_at_most_a_hundred_retained_rows() {
    let user = developer(0);
    assert_eq!(MAX_HIGHSCORES_RETAINED_FOR_NON_ADMIN, 100);
    assert_eq!(normalize_max_scores(None, &user), Some(100));
    assert_eq!(normalize_max_scores(Some(101), &user), Some(100));
    assert_eq!(normalize_max_scores(Some(-1), &user), Some(100));
    assert_eq!(normalize_max_scores(Some(i32::MAX), &user), Some(100));
    assert_eq!(normalize_max_scores(Some(i32::MIN), &user), Some(100));
    assert_eq!(normalize_max_scores(Some(100), &user), Some(100));
    assert_eq!(normalize_max_scores(Some(0), &user), Some(0));
    assert_eq!(normalize_max_scores(Some(37), &user), Some(37));
}

#[test]
fn an_admin_gets_what_was_asked_for() {
    let admin = developer(1);
    assert_eq!(normalize_max_scores(None, &admin), None);
    assert_eq!(normalize_max_scores(Some(101), &admin), Some(101));
    assert_eq!(normalize_max_scores(Some(-1), &admin), Some(-1));
    assert_eq!(normalize_max_scores(Some(5), &admin), Some(5));
}

fn encode(bytes: &[u8]) -> String {
    base64::engine::general_purpose::URL_SAFE.encode(bytes)
}

fn signed(json: &str, secret: &str) -> GameRequestPayload {
    let payload = encode(json.as_bytes());
    let digest = sha2::Sha256::digest(format!("{}.{}", payload, secret).as_bytes());
    GameRequestPayload::from_str(&format!("{}.{}", payload, encode(&digest))).unwrap()
}

fn post(request: u128, table: u128, name: &str, value: &str) -> GameRequestPayload {
    let json = format!(
        "{{\"game_uuid\":\"00000000-0000-0000-0000-000000000001\",\"request_uuid\":\"{:032x}\",\"request_timestamp\":{},\"algo\":\"sha256\",\"table_uuid\":\"{:032x}\",\"player_name\":\"{}\",\"player_score\":{}}}",
        request, NOW, table, name, value
    );
    signed(&json, SECRET)
}

fn get(request: u128, table: u128) -> GameRequestPayload {
    let json = format!(
        "{{\"game_uuid\":\"00000000-0000-0000-0000-000000000001\",\"request_uuid\":\"{:032x}\",\"request_timestamp\":{},\"algo\":\"sha256\",\"table_uuid\":\"{:032x}\"}}",
        request, NOW, table
    );
    signed(&json, SECRET)
}

#[test]
fn posted_scores_are_kept_within_the_tables_maximum() {
    let mut store = store_with_table(Some(3));
    let now = Timestamp::from_seconds(NOW);
    for (at, value) in ["10.0", "20.0", "30.0", "40.0", "50.0"].iter().enumerate() {
        let answer =
            post_new_highscore_table_score(&post(100 + at as u128, 0x77, "Ann", value), &mut store, now)
                .unwrap();
        assert_eq!(answer.json.body.message, "New score added successfully");
    }
    assert_eq!(listed(&store, None), vec![50.0, 40.0, 30.0]);

    let all = get_highscore_table_scores(&get(200, 0x77), &mut store, now).unwrap();
    let shown: Vec<f64> = all.json.body.scores.iter().map(|row| value(row.player_score)).collect();
    assert_eq!(shown, vec![50.0, 40.0, 30.0]);

    let two = get_highscore_table_scores_with_limit(&get(201, 0x77), 2, &mut store, now).unwrap();
    let shown: Vec<f64> = two.json.body.scores.iter().map(|row| value(row.player_score)).collect();
    assert_eq!(shown, vec![50.0, 40.0]);
}

#[test]
fn a_posted_score_is_accepted_once() {
    let mut store = store_with_table(None);
    let now = Timestamp::from_seconds(NOW);
    let request = post(100, 0x77, "Ann", "10.0");
    assert!(post_new_highscore_table_score(&request, &mut store, now).is_ok());
    let again = post_new_highscore_table_score(&request, &mut store, now).unwrap_err();
    assert_eq!(again.status(), Status::Forbidden);
    assert_eq!(again.message(), "Forbidden");
    assert_eq!(listed(&store, None), vec![10.0]);
}

#[test]
fn a_table_of_another_game_is_not_found() {
    let mut store = store_with_table(None);
    store.add_game(Game {
        id: 2,
        developer_id: 1,
        game_uuid: Uuid::from_u128(2),
        game_secret_key: String::from("other"),
        name: String::from("Other Game"),
        security_level: 10,
    });
    store.add_table(HighscoreTable {
        id: 9,
        game_id: 2,
        name: String::from("Theirs"),
        table_uuid: Uuid::from_u128(0x99),
        maximum_scores_retained: None,
    });
    let now = Timestamp::from_seconds(NOW);
    let answer = post_new_highscore_table_score(&post(100, 0x99, "Ann", "10.0"), &mut store, now)
        .unwrap_err();
    assert_eq!(answer.status(), Status::NotFound);
    assert_eq!(answer.message(), "Not Found");
    assert!(store.highscore_list(9, None).is_empty());
    // The request was verified and is spent all the same.
    assert!(store.replay_exists(Uuid::from_u128(100)));

    let answer = get_highscore_table_scores_impl(&get(101, 0x99), None, &mut store, now).unwrap_err();
    assert_eq!(answer.status(), Status::NotFound);
    let answer = get_highscore_table_scores_impl(&get(102, 0x55), None, &mut store, now).unwrap_err();
    assert_eq!(answer.status(), Status::NotFound);
}

#[test]
fn a_table_with_a_negative_maximum_answers_a_post_with_an_internal_error() {
    let mut store = store_with_table(Some(-1));
    let now = Timestamp::from_seconds(NOW);
    let answer = post_new_highscore_table_score(&post(100, 0x77, "Ann", "10.0"), &mut store, now)
        .unwrap_err();
    assert_eq!(answer.status(), Status::InternalServerError);
    assert_eq!(answer.message(), "An unexpected database error occurred");
    assert!(listed(&store, None).is_empty());
}

#[test]
fn a_forged_post_adds_no_score() {
    let mut store = store_with_table(None);
    let now = Timestamp::from_seconds(NOW);
    let json = format!(
        "{{\"game_uuid\":\"00000000-0000-0000-0000-000000000001\",\"request_uuid\":\"{:032x}\",\"request_timestamp\":{},\"algo\":\"sha256\",\"table_uuid\":\"{:032x}\",\"player_name\":\"Eve\",\"player_score\":1e9}}",
        100, NOW, 0x77
    );
    let forged = signed(&json, "guess");
    let answer = post_new_highscore_table_score(&forged, &mut store, now).unwrap_err();
    assert_eq!(answer.status(), Status::Forbidden);
    assert!(listed(&store, None).is_empty());
    assert!(!store.replay_exists(Uuid::from_u128(100)));
}

#[test]
fn the_store_finds_a_table_by_its_game() {
    let store = store_with_table(Some(3));
    assert_eq!(
        store.find_owned_table(Uuid::from_u128(0x77), Uuid::from_u128(1)),
        Some((TABLE, Some(3)))
    );
    assert_eq!(store.find_owned_table(Uuid::from_u128(0x77), Uuid::from_u128(2)), None);
    assert_eq!(store.find_owned_table(Uuid::from_u128(0x78), Uuid::from_u128(1)), None);
    assert_eq!(store.find_table(TABLE), Some(Some(3)));
    assert_eq!(store.find_table(8), None);
    let secret = store.find_game_secret(Uuid::from_u128(1)).unwrap();
    assert_eq!(secret.secret_key, SECRET);
    assert_eq!(secret.minimum_security_level, 10);
    assert_eq!(secret.game_uuid, Uuid::from_u128(1));
    assert!(store.find_game_secret(Uuid::from_u128(2)).is_none());
}

#[test]
fn recording_a_request_twice_is_a_conflict() {
    let mut store = Store::new();
    let id = Uuid::from_u128(42);
    let now = Timestamp::from_seconds(NOW);
    assert!(!store.replay_exists(id));
    assert!(store.replay_insert(id, now).is_ok());
    assert!(store.replay_exists(id));
    assert!(matches!(store.replay_insert(id, now), Err(StoreError::UniqueViolation(_))));
    assert!(store.replay_exists(id));
    assert!(!store.replay_exists(Uuid::from_u128(43)));
    assert!(store.replay_insert(Uuid::from_u128(43), now).is_ok());
}

#[test]
fn the_ledger_keeps_the_time_of_the_first_record() {
    let mut ledger = ReplayLedger::new();
    let id = Uuid::from_u128(42);
    assert_eq!(ledger.len(), 0);
    assert_eq!(ledger.seen_at(id), None);
    assert!(ledger.insert(id, Timestamp::from_seconds(10)).is_ok());
    assert!(ledger.insert(id, Timestamp::from_seconds(20)).is_err());
    assert_eq!(ledger.seen_at(id), Some(Timestamp::from_seconds(10)));
    assert!(ledger.contains(id));
    assert!(!ledger.contains(Uuid::from_u128(43)));
    assert_eq!(ledger.len(), 1);
}

#[test]
fn the_ledger_drops_what_is_older_than_the_cutoff() {
    let mut ledger = ReplayLedger::new();
    for (id, seconds) in [(1u128, 10i64), (2, 20), (3, 30), (4, 20)] {
        assert!(ledger.insert(Uuid::from_u128(id), Timestamp::from_seconds(seconds)).is_ok());
    }
    assert_eq!(ledger.remove_older_than(Timestamp::from_seconds(10)), 0);
    assert_eq!(ledger.len(), 4);
    assert_eq!(ledger.remove_older_than(Timestamp::from_seconds(21)), 3);
    assert_eq!(ledger.len(), 1);
    assert!(ledger.contains(Uuid::from_u128(3)));
    assert!(!ledger.contains(Uuid::from_u128(1)));
    assert!(!ledger.contains(Uuid::from_u128(2)));
    assert!(!ledger.contains(Uuid::from_u128(4)));
    assert!(ledger.insert(Uuid::from_u128(1), Timestamp::from_seconds(40)).is_ok());
    assert_eq!(ledger.seen_at(Uuid::from_u128(1)), Some(Timestamp::from_seconds(40)));
    assert_eq!(ledger.remove_older_than(Timestamp::from_seconds(100)), 2);
    assert_eq!(ledger.len(), 0);
}

#[test]
fn the_rows_beyond_the_top_are_named_by_their_ids() {
    let rows = vec![
        row(1, 10.0, 1),
        row(2, 50.0, 2),
        row(3, 30.0, 3),
        row(4, 40.0, 4),
        row(5, 20.0, 5),
    ];
    assert_eq!(extra_highscore_rows(&rows, Some(3)).unwrap(), vec![5, 1]);
    assert_eq!(extra_highscore_rows(&rows, Some(0)).unwrap(), vec![2, 4, 3, 5, 1]);
    assert_eq!(extra_highscore_rows(&rows, Some(4)).unwrap(), vec![1]);
    assert_eq!(extra_highscore_rows(&rows, Some(5)).unwrap(), Vec::<i32>::new());
    assert_eq!(extra_highscore_rows(&rows, Some(i32::MAX)).unwrap(), Vec::<i32>::new());
    assert_eq!(extra_highscore_rows(&rows, None).unwrap(), Vec::<i32>::new());
    assert!(matches!(extra_highscore_rows(&rows, Some(-1)), Err(StoreError::Other)));
    assert_eq!(extra_highscore_rows(&Vec::new(), Some(0)).unwrap(), Vec::<i32>::new());
}

#[test]
fn rows_are_ranked_and_cut_for_showing() {
    let rows = vec![row(1, 10.0, 1), row(2, 50.0, 2), row(3, 30.0, 3), row(4, 50.0, 1)];
    let all = rank_scores(&rows, None);
    let names: Vec<&str> = all.scores.iter().map(|row| row.player_name.as_str()).collect();
    assert_eq!(names, vec!["player 4", "player 2", "player 3", "player 1"]);
    let two = rank_scores(&rows, Some(2));
    let shown: Vec<f64> = two.scores.iter().map(|row| value(row.player_score)).collect();
    assert_eq!(shown, vec![50.0, 50.0]);
    assert!(rank_scores(&rows, Some(0)).scores.is_empty());
    assert_eq!(show_scores(&rows).scores.len(), 4);
    assert_eq!(show_scores(&rows).scores[0].player_name, "player 1");
}

#[test]
fn a_payload_parses_as_a_text_does() {
    let payload: GameRequestPayload = "left.right".parse().unwrap();
    assert_eq!(payload.payload_base64(), "left");
    assert_eq!(payload.signature_base64(), "right");
    assert!("no dot".parse::<GameRequestPayload>().is_err());
}

fn asked_table(
    step: TableStep<GetHighscoreTableParams>,
    expected: TableQuery,
) -> TableState<GetHighscoreTableParams> {
    match step {
        TableStep::Ask(query, state) => {
            assert_eq!(query, expected);
            state
        }
        TableStep::Done(outcome) => panic!("ended early: {:?}", outcome),
    }
}

fn verified_listing() -> TableState<GetHighscoreTableParams> {
    let secret = GameSecret {
        game_uuid: Uuid::from_u128(1),
        secret_key: String::from(SECRET),
        minimum_security_level: 10,
    };
    let step =
        begin_table_request::<GetHighscoreTableParams>(&get(200, 0x77), Timestamp::from_seconds(NOW));
    let state = asked_table(step, TableQuery::Verify(StoreQuery::FindGameSecret(Uuid::from_u128(1))));
    let step = resume_table_request(state, TableReply::Verify(StoreReply::GameSecret(Some(secret))));
    let state = asked_table(step, TableQuery::Verify(StoreQuery::ReplayExists(Uuid::from_u128(200))));
    let step = resume_table_request(state, TableReply::Verify(StoreReply::ReplayExists(false)));
    let state = asked_table(step, TableQuery::Verify(StoreQuery::ReplayInsert(Uuid::from_u128(200))));
    let step = resume_table_request(state, TableReply::Verify(StoreReply::ReplayInserted));
    asked_table(
        step,
        TableQuery::FindOwnedTable { table_uuid: Uuid::from_u128(0x77), game_uuid: Uuid::from_u128(1) },
    )
}

#[test]
fn a_request_about_a_table_asks_for_the_table_once_it_is_verified() {
    let step = resume_table_request(verified_listing(), TableReply::OwnedTable(Some((TABLE, Some(3)))));
    match step {
        TableStep::Done(Ok(found)) => {
            assert_eq!(found.highscore_table_id, TABLE);
            assert_eq!(found.maximum_scores_retained, Some(3));
            assert_eq!(found.request.body.table_uuid, Uuid::from_u128(0x77));
            assert_eq!(found.request.request_uuid, Uuid::from_u128(200));
        }
        other => panic!("no table: {:?}", other),
    }
}

#[test]
fn a_table_that_the_game_does_not_have_was_not_found() {
    let step = resume_table_request(verified_listing(), TableReply::OwnedTable(None));
    assert!(matches!(step, TableStep::Done(Err(TableError::Store(StoreError::NotFound)))));
    let answer = ApiError::from(TableError::Store(StoreError::NotFound));
    assert_eq!(answer.status(), Status::NotFound);
    assert_eq!(answer.message(), "Not Found");
}

#[test]
fn a_failure_of_the_store_ends_a_request_about_a_table() {
    let step = resume_table_request(verified_listing(), TableReply::Failed(StoreError::Other));
    assert!(matches!(step, TableStep::Done(Err(TableError::Store(StoreError::Other)))));
    let step = resume_table_request(
        verified_listing(),
        TableReply::Verify(StoreReply::ReplayExists(false)),
    );
    assert!(matches!(step, TableStep::Done(Err(TableError::Store(StoreError::Other)))));
    let step =
        begin_table_request::<GetHighscoreTableParams>(&get(200, 0x77), Timestamp::from_seconds(NOW));
    let state = asked_table(step, TableQuery::Verify(StoreQuery::FindGameSecret(Uuid::from_u128(1))));
    let step = resume_table_request(state, TableReply::OwnedTable(Some((TABLE, None))));
    assert!(matches!(step, TableStep::Done(Err(TableError::Store(StoreError::Other)))));
}

#[test]
fn a_request_that_is_turned_down_asks_for_no_table() {
    let step =
        begin_table_request::<GetHighscoreTableParams>(&get(200, 0x77), Timestamp::from_seconds(NOW));
    let state = asked_table(step, TableQuery::Verify(StoreQuery::FindGameSecret(Uuid::from_u128(1))));
    let step = resume_table_request(state, TableReply::Verify(StoreReply::GameSecret(None)));
    assert!(matches!(
        step,
        TableStep::Done(Err(TableError::Request(RequestBodyVerifyError::NoSuchGame)))
    ));
    let answer = ApiError::from(TableError::Request(RequestBodyVerifyError::NoSuchGame));
    assert_eq!(answer.status(), Status::NotFound);
    assert_eq!(answer.message(), "No such game");
}

#[test]
fn a_table_is_requested_from_the_store_in_one_call() {
    let mut store = store_with_table(Some(3));
    let now = Timestamp::from_seconds(NOW);
    let found = request_table::<GetHighscoreTableParams>(&get(200, 0x77), &mut store, now).unwrap();
    assert_eq!(found.highscore_table_id, TABLE);
    assert_eq!(found.maximum_scores_retained, Some(3));
    assert!(store.replay_exists(Uuid::from_u128(200)));
    let again = request_table::<GetHighscoreTableParams>(&get(200, 0x77), &mut store, now);
    assert!(matches!(
        again,
        Err(TableError::Request(RequestBodyVerifyError::RequestAlreadySeen))
    ));
    let missing = request_table::<GetHighscoreTableParams>(&get(201, 0x78), &mut store, now);
    assert!(matches!(missing, Err(TableError::Store(StoreError::NotFound))));
    assert!(store.replay_exists(Uuid::from_u128(201)));
}
