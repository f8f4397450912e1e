use topbanana::args::{
    cleanup_cutoff, may_create_admin, CliArgs, Command, HISTORICAL_REQUEST_NANOS,
};
use topbanana::util::header::{Authorization, AuthorizationParseError};
use topbanana::util::json::{JsonField, JsonObject};
use topbanana::util::text::{bytes_equal, find_char, split_at_first, text_equal};
use topbanana::util::time::Timestamp;
use topbanana::util::{generate_key, generate_key_with, DataFromStr, ParamFromStr};

#[test]
fn a_header_is_split_at_its_first_space() {
    let header = Authorization::from_str("Bearer abc def").unwrap();
    assert_eq!(header.scheme, "Bearer");
    assert_eq!(header.params, "abc def");
    assert_eq!(header.to_string(), "Bearer abc def");
}

#[test]
fn a_header_without_a_space_has_no_scheme() {
    assert_eq!(
        Authorization::from_str("Bearer").unwrap_err(),
        AuthorizationParseError::MissingScheme
    );
    assert_eq!(
        Authorization::from_str("").unwrap_err(),
        AuthorizationParseError::MissingScheme
    );
    assert_eq!(
        AuthorizationParseError::MissingScheme.to_string(),
        "Could not find authorization scheme"
    );
}

#[test]
fn a_leading_space_gives_an_empty_scheme() {
    let header = Authorization::from_str(" token").unwrap();
    assert_eq!(header.scheme, "");
    assert_eq!(header.params, "token");
}

#[test]
fn a_key_is_the_unpadded_base64url_of_its_bytes() {
    let mut counting = [0u8; 64];
    for (at, byte) in counting.iter_mut().enumerate() {
        *byte = at as u8;
    }
    assert_eq!(
        generate_key_with(&counting),
        "AAECAwQFBgcICQoLDA0ODxAREhMUFRYXGBkaGxwdHh8gISIjJCUmJygpKissLS4vMDEyMzQ1Njc4OTo7PD0-Pw"
    );
    assert_eq!(
        generate_key_with(&[0xff; 64]),
        "_____________________________________________________________________________________w"
    );
}

#[test]
fn a_generated_key_has_eighty_six_characters_of_the_alphabet() {
    let key = generate_key().unwrap();
    assert_eq!(key.len(), 86);
    assert!(key
        .chars()
        .all(|c| c.is_ascii_alphanumeric() || c == '-' || c == '_'));
    assert_ne!(generate_key().unwrap(), key);
}

#[test]
fn byte_strings_are_compared_in_full() {
    assert!(bytes_equal(b"", b""));
    assert!(bytes_equal(b"abc", b"abc"));
    assert!(!bytes_equal(b"abc", b"abd"));
    assert!(!bytes_equal(b"abc", b"xbc"));
    assert!(!bytes_equal(b"abc", b"ab"));
    assert!(!bytes_equal(b"ab", b"abc"));
    assert!(!bytes_equal(&[0x01, 0x02], &[0x02, 0x01]));
    assert!(!bytes_equal(&[0x00], &[0x80]));
}

#[test]
fn texts_are_compared_by_their_characters() {
    assert!(text_equal("sha256", "sha256"));
    assert!(!text_equal("sha256", "sha25"));
    assert!(!text_equal("sha1", "sha2"));
    assert!(text_equal("\u{e9}", "\u{e9}"));
    assert!(!text_equal("\u{e9}", "e"));
    assert!(text_equal("", ""));
}

#[test]
fn a_character_is_found_at_its_first_position() {
    assert_eq!(find_char("a.b.c", '.'), Some(1));
    assert_eq!(find_char("abc", '.'), None);
    assert_eq!(find_char("\u{e9}\u{e9}.x", '.'), Some(2));
    assert_eq!(find_char("", '.'), None);
    assert_eq!(split_at_first("a.b.c", '.'), Some(("a", "b.c")));
    assert_eq!(split_at_first("abc.", '.'), Some(("abc", "")));
    assert_eq!(split_at_first("abc", '.'), None);
}

#[test]
fn the_fields_of_an_object_are_read_by_key() {
    let object = JsonObject::parse(
        "{\"text\":\"hi\",\"nothing\":null,\"flag\":true,\"count\":7,\"debt\":-7,\"ratio\":0.5,\"list\":[1],\"nested\":{\"a\":1},\"big\":18446744073709551615}",
    )
    .unwrap();
    assert_eq!(object.get_text("text").as_deref(), Some("hi"));
    assert_eq!(object.get_text("count"), None);
    assert_eq!(object.get_text("absent"), None);
    assert_eq!(object.get_optional_text("text"), Some(Some(String::from("hi"))));
    assert_eq!(object.get_optional_text("nothing"), Some(None));
    assert_eq!(object.get_optional_text("absent"), Some(None));
    assert_eq!(object.get_optional_text("count"), None);
    assert_eq!(object.get_signed("count"), Some(7));
    assert_eq!(object.get_signed("debt"), Some(-7));
    assert_eq!(object.get_signed("ratio"), None);
    assert_eq!(object.get_signed("big"), None);
    assert_eq!(object.get_signed("text"), None);
    assert_eq!(object.get_double_bits("ratio"), Some(0.5f64.to_bits()));
    assert_eq!(object.get_double_bits("count"), Some(7.0f64.to_bits()));
    assert_eq!(object.get_double_bits("debt"), Some((-7.0f64).to_bits()));
    assert_eq!(object.get_double_bits("flag"), None);
    assert!(matches!(object.get("flag"), Some(JsonField::Bool(true))));
    assert!(matches!(object.get("nothing"), Some(JsonField::Null)));
    assert!(matches!(object.get("list"), Some(JsonField::Array)));
    assert!(matches!(object.get("nested"), Some(JsonField::Object)));
    assert!(matches!(
        object.get("big"),
        Some(JsonField::Number { unsigned: Some(u64::MAX), signed: None, double_bits: Some(_) })
    ));
    assert!(matches!(
        object.get("debt"),
        Some(JsonField::Number { unsigned: None, signed: Some(-7), double_bits: Some(_) })
    ));
    assert!(object.get("absent").is_none());
}

#[test]
fn only_an_object_parses_as_an_object() {
    assert!(JsonObject::parse("{}").is_some());
    assert!(JsonObject::parse(" { \"a\" : 1 } ").is_some());
    assert!(JsonObject::parse("[]").is_none());
    assert!(JsonObject::parse("null").is_none());
    assert!(JsonObject::parse("{\"a\":1").is_none());
    assert!(JsonObject::parse("{\"a\":1}x").is_none());
    assert!(JsonObject::parse("").is_none());
}

#[test]
fn times_are_counted_in_nanoseconds() {
    assert_eq!(Timestamp::from_seconds(1).nanos, 1_000_000_000);
    assert_eq!(Timestamp::from_parts(-1, 1).nanos, -999_999_999);
    assert_eq!(Timestamp::from_parts(i64::MAX, u32::MAX).nanos, 9_223_372_036_854_775_807_000_000_000 + 4_294_967_295);
    assert_eq!(Timestamp::from_seconds(i64::MIN).nanos, -9_223_372_036_854_775_808_000_000_000);
    assert!(Timestamp::from_seconds(1).precedes(&Timestamp::from_seconds(2)));
    assert!(!Timestamp::from_seconds(2).precedes(&Timestamp::from_seconds(2)));
}

#[test]
fn distances_are_judged_without_overflow() {
    let early = Timestamp { nanos: i128::MIN };
    let late = Timestamp { nanos: i128::MAX };
    assert!(early.is_farther_than(&late, u64::MAX));
    assert!(late.is_farther_than(&early, 0));
    assert!(!late.is_farther_than(&late, 0));
    let a = Timestamp { nanos: -5 };
    let b = Timestamp { nanos: 5 };
    assert!(!a.is_farther_than(&b, 10));
    assert!(a.is_farther_than(&b, 9));
    assert!(!b.is_farther_than(&a, 10));
    assert!(b.is_farther_than(&a, 9));
}

#[test]
fn the_clock_shows_a_time_after_the_year_2020() {
    let now = Timestamp::now();
    assert!(Timestamp::from_seconds(1_577_836_800).precedes(&now));
}

#[test]
fn the_arguments_choose_the_command() {
    let args = |generate_initial_user, cleanup_historical_requests, force| CliArgs {
        generate_initial_user,
        cleanup_historical_requests,
        force,
    };
    assert_eq!(args(false, false, false).command(), Command::RunServer);
    assert_eq!(args(false, false, true).command(), Command::RunServer);
    assert_eq!(args(false, true, false).command(), Command::CleanupHistoricalRequests);
    assert_eq!(
        args(true, false, false).command(),
        Command::GenerateInitialUser { force: false }
    );
    assert_eq!(
        args(true, true, true).command(),
        Command::GenerateInitialUser { force: true }
    );
}

#[test]
fn a_second_admin_needs_force() {
    assert!(may_create_admin(false, false));
    assert!(!may_create_admin(false, true));
    assert!(may_create_admin(true, true));
    assert!(may_create_admin(true, false));
}

#[test]
fn records_older_than_seven_days_are_cleaned_up() {
    assert_eq!(HISTORICAL_REQUEST_NANOS, 7 * 86_400 * 1_000_000_000);
    assert_eq!(
        cleanup_cutoff(Timestamp::from_seconds(1_700_000_000)),
        Some(Timestamp::from_seconds(1_700_000_000 - 604_800))
    );
    assert_eq!(cleanup_cutoff(Timestamp { nanos: i128::MIN }), None);
    assert_eq!(
        cleanup_cutoff(Timestamp { nanos: i128::MIN + HISTORICAL_REQUEST_NANOS }),
        Some(Timestamp { nanos: i128::MIN })
    );
}

#[test]
fn the_wrappers_hand_out_what_they_wrap() {
    assert_eq!(*ParamFromStr(5).deref(), 5);
    assert_eq!(*DataFromStr("text").deref(), "text");
    assert_eq!(ParamFromStr(5).0, 5);
}
