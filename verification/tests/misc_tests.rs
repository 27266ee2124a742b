use books::cookie::{cookie_age, login_cookies, logout_cookies, SameSite, SessionCookie};
use books::password::{finish_hash, hash_password, verify_password, HashingFailed};
use books::registry::{session_entry, session_key};
use books::response::{ErrorKind, ErrorResponse, Failure};
use books::schema::{check_length, GenresSchema, LoginUserSchema, RegisterUserSchema};
use books::settings::{Settings, SettingsSource};
use books::amount::Amount;
use books::user::{copy_response, copy_text, copy_user, User, UserResponse};
use books::role::UserRole;

fn source() -> SettingsSource {
    SettingsSource {
        database_url: Some("postgres://db".to_string()),
        redis_url: Some("redis://cache".to_string()),
        access_token_private_key: Some("apriv".to_string()),
        access_token_public_key: Some("apub".to_string()),
        access_token_max_age: Some("7".to_string()),
        refresh_token_private_key: Some("rpriv".to_string()),
        refresh_token_public_key: Some("rpub".to_string()),
        refresh_token_max_age: Some("15".to_string()),
    }
}

fn registration() -> RegisterUserSchema {
    RegisterUserSchema {
        first_name: "Ann".to_string(),
        last_name: "Lee".to_string(),
        middle_name: Some("May".to_string()),
        age: 30,
        email: "a@b.com".to_string(),
        password: "password123".to_string(),
    }
}

fn user() -> User {
    User {
        id: 42,
        first_name: "Ann".to_string(),
        last_name: "Lee".to_string(),
        middle_name: Some("May".to_string()),
        age: 30,
        email: "a@b.com".to_string(),
        password: "digest".to_string(),
        biography: Some("Writes.".to_string()),
        file: "ann.png".to_string(),
        verified: true,
        role: UserRole::Author,
        balance: Amount { mantissa: 1250, scale: 2 },
        rating: Amount { mantissa: 45, scale: 1 },
        created_at: 1_700_000_000_000_000,
        updated_at: 1_700_000_000_000_001,
    }
}

#[test]
fn digest_verifies_for_its_password_only() {
    let digest = hash_password("password123").unwrap();
    assert!(digest.starts_with("$argon2id$"));
    assert!(verify_password("password123", &digest));
    assert!(!verify_password("password124", &digest));
    assert!(!verify_password("", &digest));
}

#[test]
fn two_digests_of_one_password_differ() {
    let first = hash_password("password123").unwrap();
    let second = hash_password("password123").unwrap();
    assert_ne!(first, second);
    assert!(verify_password("password123", &first));
    assert!(verify_password("password123", &second));
}

#[test]
fn malformed_digest_is_a_failed_check() {
    assert!(!verify_password("password123", "not a digest"));
    assert!(!verify_password("password123", ""));
    assert!(!verify_password("password123", "password123"));
    assert!(!verify_password("password123", "$argon2id$v=19$m=19456,t=2,p=1$"));
}

#[test]
fn lengths_are_counted_in_characters() {
    assert!(check_length("ab", 2, 100));
    assert!(!check_length("a", 2, 100));
    assert!(check_length(&"x".repeat(100), 2, 100));
    assert!(!check_length(&"x".repeat(101), 2, 100));
    // Two characters, four bytes.
    assert!(check_length("éé", 2, 2));
    assert!(check_length("", 0, 0));
}

#[test]
fn valid_registration_passes() {
    assert!(registration().validate());
    let mut body = registration();
    body.middle_name = None;
    assert!(body.validate());
    let mut body = registration();
    body.age = 0;
    assert!(body.validate());
    let mut body = registration();
    body.age = 150;
    assert!(body.validate());
    let mut body = registration();
    body.password = "12345678".to_string();
    assert!(body.validate());
}

#[test]
fn registration_rules_are_enforced() {
    let mut body = registration();
    body.first_name = "A".to_string();
    assert!(!body.validate());
    let mut body = registration();
    body.last_name = "x".repeat(101);
    assert!(!body.validate());
    let mut body = registration();
    body.middle_name = Some("M".to_string());
    assert!(!body.validate());
    let mut body = registration();
    body.age = -1;
    assert!(!body.validate());
    let mut body = registration();
    body.age = 151;
    assert!(!body.validate());
    let mut body = registration();
    body.email = "a.b.com".to_string();
    assert!(!body.validate());
    let mut body = registration();
    body.password = "1234567".to_string();
    assert!(!body.validate());
}

#[test]
fn login_rules_are_enforced() {
    let good = LoginUserSchema { email: "a@b.com".to_string(), password: "password123".to_string() };
    assert!(good.validate());
    let bad_email = LoginUserSchema { email: "@".to_string(), password: "password123".to_string() };
    assert!(!bad_email.validate());
    let no_email = LoginUserSchema { email: String::new(), password: "password123".to_string() };
    assert!(!no_email.validate());
    let short = LoginUserSchema { email: "a@b.com".to_string(), password: "short".to_string() };
    assert!(!short.validate());
}

#[test]
fn genre_needs_a_name() {
    assert!(GenresSchema { name: "Drama".to_string(), description: None }.validate());
    assert!(!GenresSchema { name: String::new(), description: Some("x".to_string()) }.validate());
}

#[test]
fn settings_are_built_from_the_variables() {
    let settings = Settings::init(source()).unwrap();
    assert_eq!(settings.database_url, "postgres://db");
    assert_eq!(settings.redis_url, "redis://cache");
    assert_eq!(settings.access_token_private_key, "apriv");
    assert_eq!(settings.access_token_public_key, "apub");
    assert_eq!(settings.access_token_max_age, 7);
    assert_eq!(settings.refresh_token_private_key, "rpriv");
    assert_eq!(settings.refresh_token_public_key, "rpub");
    assert_eq!(settings.refresh_token_max_age, 15);
}

#[test]
fn settings_need_every_variable() {
    let mut missing = source();
    missing.database_url = None;
    assert!(Settings::init(missing).is_none());
    let mut missing = source();
    missing.refresh_token_public_key = None;
    assert!(Settings::init(missing).is_none());
    let mut missing = source();
    missing.access_token_max_age = None;
    assert!(Settings::init(missing).is_none());
}

#[test]
fn ages_must_be_integers() {
    let mut wrong = source();
    wrong.access_token_max_age = Some("seven".to_string());
    assert!(Settings::init(wrong).is_none());
    let mut wrong = source();
    wrong.refresh_token_max_age = Some("1.5".to_string());
    assert!(Settings::init(wrong).is_none());
    let mut wrong = source();
    wrong.refresh_token_max_age = Some(String::new());
    assert!(Settings::init(wrong).is_none());
    let mut negative = source();
    negative.access_token_max_age = Some("-3".to_string());
    assert_eq!(Settings::init(negative).unwrap().access_token_max_age, -3);
}

#[test]
fn lifetimes_are_days_and_minutes_in_seconds() {
    let settings = Settings::init(source()).unwrap();
    assert_eq!(settings.access_ttl(), Some(604_800));
    assert_eq!(settings.refresh_ttl(), Some(900));
    let mut one = Settings::init(source()).unwrap();
    one.access_token_max_age = 1;
    one.refresh_token_max_age = 1;
    assert_eq!(one.access_ttl(), Some(86_400));
    assert_eq!(one.refresh_ttl(), Some(60));
}

#[test]
fn lifetimes_must_be_positive_and_fit() {
    let mut settings = Settings::init(source()).unwrap();
    settings.access_token_max_age = 0;
    settings.refresh_token_max_age = -1;
    assert_eq!(settings.access_ttl(), None);
    assert_eq!(settings.refresh_ttl(), None);
    settings.access_token_max_age = i64::MAX / 86_400;
    assert_eq!(settings.access_ttl(), Some((i64::MAX / 86_400) * 86_400));
    settings.access_token_max_age = i64::MAX / 86_400 + 1;
    assert_eq!(settings.access_ttl(), None);
    settings.refresh_token_max_age = i64::MAX;
    assert_eq!(settings.refresh_ttl(), None);
}

#[test]
fn cookies_print_as_set_cookie_values() {
    let cookie = SessionCookie::new("access_token", "abc", 86_400, true);
    assert_eq!(
        cookie.header_value(),
        "access_token=abc; HttpOnly; SameSite=Lax; Path=/; Max-Age=86400"
    );
    let flag = SessionCookie::new("logged_in", "true", -60, false);
    assert_eq!(flag.header_value(), "logged_in=true; SameSite=Lax; Path=/; Max-Age=-60");
    let strict = SessionCookie {
        name: "n".to_string(),
        value: "v".to_string(),
        path: "/api".to_string(),
        max_age: 1,
        same_site: SameSite::Strict,
        http_only: false,
    };
    assert_eq!(strict.header_value(), "n=v; SameSite=Strict; Path=/api; Max-Age=1");
}

#[test]
fn login_cookies_are_three() {
    let cookies = login_cookies("acc", "ref", 86_400, 900);
    assert_eq!(cookies.len(), 3);
    assert_eq!(cookies[0].header_value(), "access_token=acc; HttpOnly; SameSite=Lax; Path=/; Max-Age=86400");
    assert_eq!(cookies[1].header_value(), "refresh_token=ref; HttpOnly; SameSite=Lax; Path=/; Max-Age=900");
    assert_eq!(cookies[2].header_value(), "logged_in=true; SameSite=Lax; Path=/; Max-Age=86400");
}

#[test]
fn logout_cookies_are_cleared() {
    let cookies = logout_cookies();
    assert_eq!(cookies.len(), 3);
    assert_eq!(cookies[0].header_value(), "access_token=; HttpOnly; SameSite=Lax; Path=/; Max-Age=-60");
    assert_eq!(cookies[1].header_value(), "refresh_token=; HttpOnly; SameSite=Lax; Path=/; Max-Age=-60");
    assert_eq!(cookies[2].header_value(), "logged_in=true; SameSite=Lax; Path=/; Max-Age=-60");
}

#[test]
fn cookie_age_saturates() {
    assert_eq!(cookie_age(0), 0);
    assert_eq!(cookie_age(900), 900);
    assert_eq!(cookie_age(i64::MAX as u64), i64::MAX);
    assert_eq!(cookie_age(i64::MAX as u64 + 1), i64::MAX);
    assert_eq!(cookie_age(u64::MAX), i64::MAX);
}

#[test]
fn session_keys_are_hyphenated_identifiers() {
    assert_eq!(session_key(1), "00000000-0000-0000-0000-000000000001");
    assert_eq!(session_key(0), "00000000-0000-0000-0000-000000000000");
    assert_eq!(
        session_key(0x550e8400_e29b_41d4_a716_446655440000),
        "550e8400-e29b-41d4-a716-446655440000"
    );
    assert_eq!(session_key(u128::MAX), "ffffffff-ffff-ffff-ffff-ffffffffffff");
}

#[test]
fn session_entry_files_the_user_under_the_session() {
    let entry = session_entry(0xab, 0xcd, 900);
    assert_eq!(entry.key, "00000000-0000-0000-0000-0000000000ab");
    assert_eq!(entry.value, "00000000-0000-0000-0000-0000000000cd");
    assert_eq!(entry.ttl_seconds, 900);
}

#[test]
fn error_kinds_have_their_status() {
    assert_eq!(ErrorKind::ValidationError.status_code(), 400);
    assert_eq!(ErrorKind::Unauthenticated.status_code(), 401);
    assert_eq!(ErrorKind::Forbidden.status_code(), 403);
    assert_eq!(ErrorKind::NotFound.status_code(), 404);
    assert_eq!(ErrorKind::Conflict.status_code(), 409);
    assert_eq!(ErrorKind::InternalError.status_code(), 500);
}

#[test]
fn failures_have_their_kind_and_message() {
    let cases = [
        (Failure::InvalidInput, 400, "Invalid input data"),
        (Failure::WrongCredentials, 400, "Invalid email or password"),
        (Failure::EmailTaken, 409, "Email already registered"),
        (Failure::MissingRefreshToken, 401, "Token is invalid or session has expired"),
        (Failure::InvalidRefreshToken, 401, "Error verifying token"),
        (Failure::StoreFailure, 500, "Request failed"),
        (Failure::InsertFailure, 500, "Error when adding to the database record"),
        (Failure::HashingFailure, 500, "Password hashing failed"),
        (Failure::TokenFailure, 500, "Error token"),
        (Failure::RegistryUnreachable, 500, "Redis error"),
        (Failure::RegistryFailure, 500, "Redis error"),
    ];
    for (failure, status, message) in cases {
        assert_eq!(failure.kind().status_code(), status);
        let body = failure.response();
        assert_eq!(body.message, message);
        assert_eq!(body.error, "");
    }
}

#[test]
fn error_body_carries_the_message() {
    let body = ErrorResponse::with_message("Book not found");
    assert_eq!(body.message, "Book not found");
    assert_eq!(body.error, "");
}

#[test]
fn public_form_leaves_the_digest_out() {
    let user = user();
    let response = UserResponse::new(&user);
    assert_eq!(response.id, 42);
    assert_eq!(response.first_name, "Ann");
    assert_eq!(response.last_name, "Lee");
    assert_eq!(response.middle_name, Some("May".to_string()));
    assert_eq!(response.age, 30);
    assert_eq!(response.email, "a@b.com");
    assert_eq!(response.biography, Some("Writes.".to_string()));
    assert_eq!(response.file, "ann.png");
    assert!(response.verified);
    assert_eq!(response.role, UserRole::Author);
    assert_eq!(response.balance, Amount { mantissa: 1250, scale: 2 });
    assert_eq!(response.rating, Amount { mantissa: 45, scale: 1 });
    assert_eq!(response.created_at, 1_700_000_000_000_000);
    assert_eq!(response.updated_at, 1_700_000_000_000_001);
    let copy = copy_response(&response);
    assert_eq!(copy.email, response.email);
    assert_eq!(copy.id, response.id);
}

#[test]
fn copies_keep_every_field() {
    let user = user();
    let copy = copy_user(&user);
    assert_eq!(copy.id, user.id);
    assert_eq!(copy.password, user.password);
    assert_eq!(copy.middle_name, user.middle_name);
    assert_eq!(copy.role, user.role);
    assert_eq!(copy_text(&None), None);
    assert_eq!(copy_text(&Some("x".to_string())), Some("x".to_string()));
}

#[test]
fn amounts_are_bounded() {
    assert!(Amount::zero().is_wf());
    assert!(Amount { mantissa: 1250, scale: 28 }.is_wf());
    assert!(!Amount { mantissa: 1250, scale: 29 }.is_wf());
    let limit: i128 = 1 << 96;
    assert!(Amount { mantissa: limit - 1, scale: 0 }.is_wf());
    assert!(!Amount { mantissa: limit, scale: 0 }.is_wf());
    assert!(Amount { mantissa: 1 - limit, scale: 0 }.is_wf());
    assert!(!Amount { mantissa: -limit, scale: 0 }.is_wf());
}

#[test]
fn finish_hash_maps_each_outcome() {
    assert_eq!(finish_hash(Ok("$argon2id$digest".to_string())), Ok("$argon2id$digest".to_string()));
    assert_eq!(finish_hash(Ok(String::new())), Ok(String::new()));
    assert_eq!(finish_hash(Err(argon2::password_hash::Error::Password)), Err(HashingFailed));
    assert_eq!(finish_hash(Err(argon2::password_hash::Error::Algorithm)), Err(HashingFailed));
}

#[test]
fn hashing_succeeds_on_ordinary_passwords() {
    for password in ["", "password123", "пароль-пароль", "a much longer pass phrase with blanks"] {
        let digest = hash_password(password).unwrap();
        assert!(digest.starts_with("$argon2id$v=19$m=19456,t=2,p=1$"));
        assert!(verify_password(password, &digest));
    }
}

#[test]
fn cookie_text_is_spelled_out_for_every_rule_and_age() {
    let cookie = |value: &str, max_age: i64, same_site: SameSite, http_only: bool| SessionCookie {
        name: "n".to_string(),
        value: value.to_string(),
        path: "/".to_string(),
        max_age,
        same_site,
        http_only,
    };
    assert_eq!(
        cookie("v", 1, SameSite::Unrestricted, true).header_value(),
        "n=v; HttpOnly; SameSite=None; Secure; Path=/; Max-Age=1"
    );
    assert_eq!(
        cookie("v", 1, SameSite::Unrestricted, false).header_value(),
        "n=v; SameSite=None; Secure; Path=/; Max-Age=1"
    );
    assert_eq!(
        cookie("v", 0, SameSite::Strict, true).header_value(),
        "n=v; HttpOnly; SameSite=Strict; Path=/; Max-Age=0"
    );
    assert_eq!(
        cookie("", 10, SameSite::Lax, false).header_value(),
        "n=; SameSite=Lax; Path=/; Max-Age=10"
    );
    assert_eq!(
        cookie("a b=c", 1_000_000_007, SameSite::Lax, false).header_value(),
        "n=a b=c; SameSite=Lax; Path=/; Max-Age=1000000007"
    );
    assert_eq!(
        cookie("v", i64::MAX, SameSite::Lax, false).header_value(),
        "n=v; SameSite=Lax; Path=/; Max-Age=9223372036854775807"
    );
    assert_eq!(
        cookie("v", i64::MIN, SameSite::Lax, false).header_value(),
        "n=v; SameSite=Lax; Path=/; Max-Age=-9223372036854775808"
    );
    assert_eq!(
        cookie("v", -1, SameSite::Lax, true).header_value(),
        "n=v; HttpOnly; SameSite=Lax; Path=/; Max-Age=-1"
    );
}

#[test]
fn long_passwords_are_hashed_too() {
    let long = "p".repeat(100_000);
    let digest = hash_password(&long).unwrap();
    assert!(verify_password(&long, &digest));
    assert!(!verify_password(&long[1..], &digest));
    let wide = "\u{1F511}".repeat(1_000);
    let digest = hash_password(&wide).unwrap();
    assert!(verify_password(&wide, &digest));
}

#[test]
fn hashing_never_fails_on_passwords_of_a_registration() {
    for length in [8usize, 9, 64, 100, 1_000] {
        let password = "x".repeat(length);
        assert!(hash_password(&password).is_ok());
    }
}
