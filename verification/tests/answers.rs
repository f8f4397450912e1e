use topbanana::db::error::StoreError;
use topbanana::db::models::{Developer, NewDeveloper};
use topbanana::server::admin::{
    created_developer, initial_admin, new_developer, NewDeveloperParams,
};
use topbanana::server::auth::{
    answer_auth_error, bearer_token, perms_for_api_key, AdminUser, AuthError, DeveloperPerms,
    DeveloperUser, JwtClaim, JwtError, UserFlags, XApiKey, ADMIN_BIT, INVALID_AUTH_HEADER,
    MISSING_AUTH_HEADER,
};
use topbanana::server::data_access::{
    may_create_game_for, DeveloperOwned, DeveloperOwnedExt, DeveloperResponse, GameResponse,
};
use topbanana::server::error::messages;
use topbanana::server::error::{ApiError, ApiStatus, ApiSuccessResponse, ErrorPayload, Status};
use topbanana::server::requests::hasher::SecurityLevel;
use topbanana::server::requests::{
    DeserializeError, GameRequestPayload, RequestBodyVerifyError, VerificationError,
};
use topbanana::util::uuid::Uuid;

fn answer(error: RequestBodyVerifyError) -> (u16, String) {
    let answer = ApiError::from_verify_error(error);
    (answer.status().code(), answer.message().to_string())
}

#[test]
fn the_statuses_have_their_http_codes() {
    assert_eq!(Status::BadRequest.code(), 400);
    assert_eq!(Status::Unauthorized.code(), 401);
    assert_eq!(Status::Forbidden.code(), 403);
    assert_eq!(Status::NotFound.code(), 404);
    assert_eq!(Status::Conflict.code(), 409);
    assert_eq!(Status::InternalServerError.code(), 500);
}

#[test]
fn the_four_refusals_of_a_request_are_answered_alike() {
    let forbidden = (403, String::from("Forbidden"));
    assert_eq!(answer(RequestBodyVerifyError::SecurityLevelNotAttained), forbidden);
    assert_eq!(answer(RequestBodyVerifyError::VerificationError(VerificationError)), forbidden);
    assert_eq!(answer(RequestBodyVerifyError::BadRequestTimestamp), forbidden);
    assert_eq!(answer(RequestBodyVerifyError::RequestAlreadySeen), forbidden);
}

#[test]
fn an_unknown_game_is_answered_as_not_found() {
    assert_eq!(
        answer(RequestBodyVerifyError::NoSuchGame),
        (404, String::from("No such game"))
    );
}

#[test]
fn a_request_that_cannot_be_read_is_a_bad_request() {
    for error in [
        DeserializeError::JsonError,
        DeserializeError::Base64Error,
        DeserializeError::Utf8Error,
    ] {
        assert_eq!(
            answer(RequestBodyVerifyError::DeserializeError(error)),
            (400, String::from("Bad Request"))
        );
    }
}

#[test]
fn a_failure_of_the_store_during_verification_says_nothing_of_its_cause() {
    let opaque = (500, String::from("An unexpected database error occurred"));
    assert_eq!(answer(RequestBodyVerifyError::StoreError(StoreError::Other)), opaque);
    assert_eq!(answer(RequestBodyVerifyError::StoreError(StoreError::NotFound)), opaque);
    assert_eq!(
        answer(RequestBodyVerifyError::StoreError(StoreError::UniqueViolation(String::from(
            "historical_requests_request_uuid_key"
        )))),
        opaque
    );
}

#[test]
fn failures_of_the_store_have_their_answers() {
    let not_found = ApiError::from_store_error(StoreError::NotFound);
    assert_eq!(not_found.status(), Status::NotFound);
    assert_eq!(not_found.message(), "Not Found");

    let unique = ApiError::from_store_error(StoreError::UniqueViolation(String::from("dup key")));
    assert_eq!(unique.status(), Status::Conflict);
    assert_eq!(unique.message(), "Uniqueness error: dup key");

    let foreign =
        ApiError::from_store_error(StoreError::ForeignKeyViolation(String::from("no parent")));
    assert_eq!(foreign.status(), Status::BadRequest);
    assert_eq!(foreign.message(), "Foreign key violation: no parent");

    let other = ApiError::from_store_error(StoreError::Other);
    assert_eq!(other.status(), Status::InternalServerError);
    assert_eq!(other.message(), "An unexpected database error occurred");
}

#[test]
fn on_creation_a_missing_row_is_a_bad_request() {
    let missing = ApiError::from_on_create(StoreError::NotFound);
    assert_eq!(missing.status(), Status::BadRequest);
    assert_eq!(missing.message(), "Not Found");
    let unique = ApiError::from_on_create(StoreError::UniqueViolation(String::from("dup key")));
    assert_eq!(unique.status(), Status::Conflict);
    assert_eq!(unique.message(), "Uniqueness error: dup key");
    let other = ApiError::from_on_create(StoreError::Other);
    assert_eq!(other.status(), Status::InternalServerError);
}

#[test]
fn the_plain_answers_carry_their_messages() {
    assert_eq!(ApiError::bad_request().status(), Status::BadRequest);
    assert_eq!(ApiError::bad_request().message(), messages::BAD_REQUEST);
    assert_eq!(ApiError::unauthorized().status(), Status::Unauthorized);
    assert_eq!(ApiError::unauthorized().message(), messages::UNAUTHORIZED);
    assert_eq!(ApiError::forbidden().status(), Status::Forbidden);
    assert_eq!(ApiError::forbidden().message(), messages::FORBIDDEN);
    assert_eq!(ApiError::not_found().status(), Status::NotFound);
    assert_eq!(ApiError::not_found().message(), messages::NOT_FOUND);
    assert_eq!(ApiError::conflict("taken").status(), Status::Conflict);
    assert_eq!(ApiError::conflict("taken").message(), "taken");
    assert_eq!(
        ApiError::internal_server_error("boom").status(),
        Status::InternalServerError
    );
    assert_eq!(ApiError::internal_server_error("boom").message(), "boom");
    assert_eq!(messages::UNKNOWN_DB_ERROR, "An unexpected database error occurred");
}

#[test]
fn with_message_keeps_the_status() {
    let answer = ApiError::forbidden().with_message(String::from("no entry"));
    assert_eq!(answer.status(), Status::Forbidden);
    assert_eq!(answer.message(), "no entry");
}

#[test]
fn an_error_payload_has_the_status_error() {
    let payload = ErrorPayload::new(String::from("went wrong"));
    assert_eq!(payload.status, ApiStatus::Error);
    assert_eq!(payload.reason, "went wrong");
}

#[test]
fn a_success_response_has_the_status_success() {
    let response = ApiSuccessResponse::new(17);
    assert_eq!(response.json.status, ApiStatus::Success);
    assert_eq!(response.json.body, 17);
}

fn user(sub: u128, bits: u32) -> DeveloperUser {
    DeveloperUser::from_claim(JwtClaim { sub: Uuid::from_u128(sub), user_flags: UserFlags { bits }, exp: 0 })
}

#[test]
fn the_admin_bit_makes_an_admin() {
    assert_eq!(ADMIN_BIT, 1);
    assert!(user(1, 1).is_admin());
    assert!(user(1, 3).is_admin());
    assert!(!user(1, 0).is_admin());
    assert!(!user(1, 2).is_admin());
    assert_eq!(*user(9, 0).user_uuid(), Uuid::from_u128(9));
    assert_eq!(user(9, 0).as_ref().sub, Uuid::from_u128(9));
}

#[test]
fn flags_contain_their_subsets() {
    assert_eq!(UserFlags::empty().bits(), 0);
    assert_eq!(UserFlags::admin().bits(), 1);
    assert!(UserFlags::admin().contains(UserFlags::empty()));
    assert!(UserFlags::admin().contains(UserFlags::admin()));
    assert!(!UserFlags::empty().contains(UserFlags::admin()));
    assert!(UserFlags { bits: 6 }.contains(UserFlags { bits: 4 }));
    assert!(!UserFlags { bits: 6 }.contains(UserFlags { bits: 5 }));
}

#[test]
fn only_an_admin_becomes_an_admin_user() {
    let admin = AdminUser::from_developer(user(4, 1)).unwrap();
    assert_eq!(*admin.user_uuid(), Uuid::from_u128(4));
    assert_eq!(admin.as_ref().user_flags, UserFlags { bits: 1 });
    let refused = AdminUser::from_developer(user(4, 0)).unwrap_err();
    assert_eq!(refused.status(), Status::Forbidden);
    assert_eq!(refused.message(), "Forbidden");
}

#[test]
fn a_developers_row_gives_its_flags() {
    let admin = DeveloperPerms { developer_uuid: Uuid::from_u128(1), is_admin: true };
    let plain = DeveloperPerms { developer_uuid: Uuid::from_u128(1), is_admin: false };
    assert_eq!(admin.user_flags(), UserFlags { bits: 1 });
    assert_eq!(plain.user_flags(), UserFlags { bits: 0 });
    assert!(perms_for_api_key(Some(plain)).is_ok());
    assert!(matches!(perms_for_api_key(None), Err(AuthError::InvalidApiKey)));
}

#[test]
fn a_token_expires_an_hour_after_it_was_issued() {
    let claim = JwtClaim::issued(&Uuid::from_u128(3), UserFlags::admin(), 1_700_000_000).unwrap();
    assert_eq!(claim.exp, 1_700_003_600);
    assert_eq!(claim.sub, Uuid::from_u128(3));
    assert_eq!(claim.user_flags, UserFlags::admin());
    assert_eq!(
        JwtClaim::issued(&Uuid::from_u128(3), UserFlags::empty(), -3600).unwrap().exp,
        0
    );
    assert!(JwtClaim::issued(&Uuid::from_u128(3), UserFlags::empty(), -3601).is_none());
    assert!(JwtClaim::issued(&Uuid::from_u128(3), UserFlags::empty(), i64::MAX).is_none());
    assert!(JwtClaim::issued(&Uuid::from_u128(3), UserFlags::empty(), i64::MAX - 3600).is_some());
}

#[test]
fn failures_to_issue_a_token_have_their_answers() {
    let invalid = answer_auth_error(AuthError::InvalidApiKey);
    assert_eq!(invalid.status(), Status::BadRequest);
    assert_eq!(invalid.message(), "Invalid API key");
    let missing = answer_auth_error(AuthError::JwtError(JwtError::MissingJwtSecretKeyEnvVar));
    assert_eq!(missing.status(), Status::InternalServerError);
    assert_eq!(missing.message(), "Missing JWT_SECRET_KEY environment variable");
    let token = answer_auth_error(AuthError::JwtError(JwtError::JsonWebTokenError));
    assert_eq!(token.status(), Status::InternalServerError);
    assert_eq!(token.message(), "Invalid token");
    let store = answer_auth_error(AuthError::StoreError(StoreError::NotFound));
    assert_eq!(store.status(), Status::InternalServerError);
    assert_eq!(store.message(), "An unexpected database error occurred");
}

#[test]
fn a_bearer_header_gives_its_token() {
    assert_eq!(bearer_token(Some("Bearer abc.def.ghi")).unwrap(), "abc.def.ghi");
    assert_eq!(bearer_token(Some("Bearer two words")).unwrap(), "two words");
    assert_eq!(bearer_token(Some("Bearer ")).unwrap(), "");
}

#[test]
fn a_header_without_a_scheme_counts_as_missing() {
    for header in [None, Some("Bearer"), Some("")] {
        let refused = bearer_token(header).unwrap_err();
        assert_eq!(refused.status(), Status::Unauthorized);
        assert_eq!(refused.message(), MISSING_AUTH_HEADER);
    }
    assert_eq!(MISSING_AUTH_HEADER, "Missing Authorization header");
}

#[test]
fn another_scheme_is_invalid() {
    for header in ["Basic dXNlcjpwYXNz", "bearer abc", "Bearerx abc", " Bearer abc"] {
        let refused = bearer_token(Some(header)).unwrap_err();
        assert_eq!(refused.status(), Status::Unauthorized);
        assert_eq!(refused.message(), INVALID_AUTH_HEADER);
    }
    assert_eq!(INVALID_AUTH_HEADER, "Invalid Authorization header");
}

#[test]
fn an_api_key_wraps_its_text() {
    let key = XApiKey("k3y");
    assert_eq!(key.0, "k3y");
}

fn developer(uuid: u128) -> Developer {
    Developer {
        id: 1,
        developer_uuid: Uuid::from_u128(uuid),
        name: String::from("Dev"),
        email: String::from("dev@example.com"),
        url: None,
        is_admin: false,
        api_key: Some(String::from("key")),
    }
}

#[test]
fn an_owner_may_see_what_is_theirs() {
    let found = Developer::check_permission(Some(developer(5)), &user(5, 0)).unwrap();
    assert_eq!(found.developer_uuid, Uuid::from_u128(5));
    let tagged = <(i32, Uuid)>::check_permission(Some((7, Uuid::from_u128(5))), &user(5, 0)).unwrap();
    assert_eq!(tagged.0, 7);
    assert!(Uuid::check_permission(Some(Uuid::from_u128(5)), &user(5, 0)).is_ok());
}

#[test]
fn a_stranger_is_forbidden_whether_or_not_the_object_exists() {
    let other = Developer::check_permission(Some(developer(6)), &user(5, 0)).unwrap_err();
    assert_eq!(other.status(), Status::Forbidden);
    assert_eq!(other.message(), "Forbidden");
    let none = Developer::check_permission(None, &user(5, 0)).unwrap_err();
    assert_eq!(none.status(), Status::Forbidden);
}

#[test]
fn an_admin_may_see_everything_that_exists() {
    assert!(Developer::check_permission(Some(developer(6)), &user(5, 1)).is_ok());
    let none = Developer::check_permission(None, &user(5, 1)).unwrap_err();
    assert_eq!(none.status(), Status::NotFound);
    assert_eq!(none.message(), "Not Found");
}

#[test]
fn an_option_checks_the_permission_of_what_it_holds() {
    assert!(Some(developer(5)).check_permission(&user(5, 0)).is_ok());
    assert!(Some(developer(6)).check_permission(&user(5, 0)).is_err());
    let nothing: Option<Uuid> = None;
    assert_eq!(nothing.check_permission(&user(5, 1)).unwrap_err().status(), Status::NotFound);
    assert_eq!(*developer(8).get_developer_uuid(), Uuid::from_u128(8));
    assert_eq!(*(1, Uuid::from_u128(9)).get_developer_uuid(), Uuid::from_u128(9));
    assert_eq!(*Uuid::from_u128(3).get_developer_uuid(), Uuid::from_u128(3));
}

#[test]
fn a_game_is_created_for_oneself_or_by_an_admin() {
    assert!(may_create_game_for(&user(5, 0), &Uuid::from_u128(5)));
    assert!(!may_create_game_for(&user(5, 0), &Uuid::from_u128(6)));
    assert!(may_create_game_for(&user(5, 1), &Uuid::from_u128(6)));
}

#[test]
fn a_developer_is_shown_without_the_api_key() {
    let shown = DeveloperResponse::from(developer(5));
    assert_eq!(shown.api_key.as_deref(), Some("key"));
    assert_eq!(shown.name, "Dev");
    let hidden = shown.without_api_key();
    assert_eq!(hidden.api_key, None);
    assert_eq!(hidden.developer_uuid, Uuid::from_u128(5));
    assert_eq!(hidden.email, "dev@example.com");
}

#[test]
fn a_new_developer_is_shown_as_it_was_made() {
    let made = NewDeveloper {
        developer_uuid: Uuid::from_u128(2),
        name: String::from("New"),
        email: String::from("new@example.com"),
        url: Some(String::from("https://example.com")),
        is_admin: true,
        api_key: None,
    };
    let shown = DeveloperResponse::from(made);
    assert_eq!(shown.developer_uuid, Uuid::from_u128(2));
    assert_eq!(shown.url.as_deref(), Some("https://example.com"));
    assert!(shown.is_admin);
}

#[test]
fn a_game_is_shown_without_its_secret() {
    let game = GameResponse {
        developer_uuid: Uuid::from_u128(1),
        game_uuid: Uuid::from_u128(2),
        name: String::from("Game"),
        game_secret_key: Some(String::from("secret")),
        security_level: 10,
    };
    let hidden = game.without_secret_key();
    assert_eq!(hidden.game_secret_key, None);
    assert_eq!(hidden.name, "Game");
    assert_eq!(hidden.security_level, 10);
}

#[test]
fn a_developer_made_by_an_admin_is_no_admin() {
    let params = NewDeveloperParams {
        name: String::from("Dev"),
        email: String::from("dev@example.com"),
        url: None,
    };
    let made = new_developer(params, Uuid::from_u128(9), String::from("key"));
    assert!(!made.is_admin);
    assert_eq!(made.developer_uuid, Uuid::from_u128(9));
    assert_eq!(made.api_key.as_deref(), Some("key"));
    let answered = created_developer(made).unwrap();
    assert_eq!(answered.developer_uuid, Uuid::from_u128(9));
    assert_eq!(answered.api_key, "key");
}

#[test]
fn the_initial_user_is_the_system_administrator() {
    let admin = initial_admin(Uuid::from_u128(1), String::from("key"));
    assert!(admin.is_admin);
    assert_eq!(admin.name, "System Administrator");
    assert_eq!(admin.email, "admin@example.com");
    assert_eq!(admin.url, None);
    assert_eq!(admin.api_key.as_deref(), Some("key"));
}

#[test]
fn the_errors_say_what_went_wrong() {
    assert_eq!(
        GameRequestPayload::from_str("no dot").unwrap_err().to_string(),
        "Invalid GameRequestPayload"
    );
    assert_eq!(VerificationError.to_string(), "Invalid request signature");
    assert_eq!(DeserializeError::JsonError.to_string(), "Invalid JSON");
    assert_eq!(DeserializeError::Base64Error.to_string(), "Invalid base64");
    assert_eq!(DeserializeError::Utf8Error.to_string(), "Invalid UTF-8");
    assert_eq!(RequestBodyVerifyError::NoSuchGame.to_string(), "No such game");
    assert_eq!(
        RequestBodyVerifyError::BadRequestTimestamp.to_string(),
        "Request timestamp is not current"
    );
    assert_eq!(
        RequestBodyVerifyError::RequestAlreadySeen.to_string(),
        "Request has already been seen"
    );
    assert_eq!(
        RequestBodyVerifyError::SecurityLevelNotAttained.to_string(),
        "Security level not attained"
    );
    assert_eq!(
        RequestBodyVerifyError::VerificationError(VerificationError).to_string(),
        "Invalid request signature"
    );
    assert_eq!(
        RequestBodyVerifyError::DeserializeError(DeserializeError::Utf8Error).to_string(),
        "Invalid UTF-8"
    );
    assert_eq!(
        RequestBodyVerifyError::StoreError(StoreError::UniqueViolation(String::from("dup")))
            .to_string(),
        "dup"
    );
    assert_eq!(StoreError::NotFound.to_string(), "Record not found");
    assert_eq!(StoreError::ForeignKeyViolation(String::from("fk")).to_string(), "fk");
    assert_eq!(StoreError::Other.to_string(), "An unexpected database error occurred");
    assert_eq!(
        SecurityLevel::try_from(3).unwrap_err().to_string(),
        "Invalid SecurityLevel constant"
    );
    assert_eq!(
        JwtError::MissingJwtSecretKeyEnvVar.to_string(),
        "Missing JWT_SECRET_KEY environment variable"
    );
}

#[test]
fn a_text_without_a_dot_is_a_bad_request() {
    let refused = GameRequestPayload::from_str("nodot").unwrap_err();
    assert_eq!(
        answer(RequestBodyVerifyError::PayloadError(refused)),
        (400, String::from("Bad Request"))
    );
}

#[test]
fn errors_convert_into_their_answers() {
    let not_found: ApiError = StoreError::NotFound.into();
    assert_eq!(not_found.status(), Status::NotFound);
    assert_eq!(not_found.message(), "Not Found");
    let refused = ApiError::from(RequestBodyVerifyError::RequestAlreadySeen);
    assert_eq!(refused.status(), Status::Forbidden);
    assert_eq!(refused.message(), "Forbidden");
    let copy = refused.clone();
    assert_eq!(copy.status(), Status::Forbidden);
    assert_eq!(copy.message(), "Forbidden");
}
