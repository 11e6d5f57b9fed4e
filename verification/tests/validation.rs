//! The validation state machine, the hash, and the rendered timestamps.

use session_auth::clock::{TTL_ISSUE_MILLIS, TTL_REFRESH_MILLIS};
use session_auth::database::{Database, LoginErrors, SessionTokenErrors, SignupErrors};
use session_auth::users::{generate_sha512_string, User};

// 2000-01-12 01:02:03.004 UTC, in milliseconds since the epoch.
const T0: i64 = 947_638_923_004;

fn seeded_db() -> Database {
    let mut db = Database::init();
    let u = User::new(
        "alice".to_string(),
        "longpassword1".to_string(),
        "a@x.com".to_string(),
    );
    db.add_user_at(u, "s1", T0).unwrap();
    db
}

#[test]
fn expiry_check_is_exact_and_never_reports_expired_error() {
    let db = seeded_db();
    let expiry = T0 + TTL_ISSUE_MILLIS;
    assert_eq!(db.is_sessionid_expired_at("s1", T0), Ok(false));
    assert_eq!(db.is_sessionid_expired_at("s1", expiry - 1), Ok(false));
    // The boundary is inclusive on the expired side.
    assert_eq!(db.is_sessionid_expired_at("s1", expiry), Ok(true));
    assert_eq!(db.is_sessionid_expired_at("s1", expiry + 1), Ok(true));
    let missing = db.is_sessionid_expired_at("nope", T0);
    assert!(matches!(
        missing,
        Err(SessionTokenErrors::InvalidSessionToken)
    ));
}

#[test]
fn validate_refreshes_live_token_in_place() {
    let mut db = seeded_db();
    // One second before expiry: still live, and the refresh window reaches
    // past the old expiry, so the refresh strictly extends the session.
    let now = T0 + TTL_ISSUE_MILLIS - 1_000;
    let before = db.token_expiry_stamp("s1").unwrap();
    assert_eq!(db.validate_token_at("s1", now), Ok(()));
    let after = db.token_expiry_stamp("s1").unwrap();
    assert_eq!(after, now + TTL_REFRESH_MILLIS);
    assert!(after > before);
    // The secret is untouched by a refresh.
    assert_eq!(db.user_token_secret("alice"), Some("s1".to_string()));
}

#[test]
fn repeated_validation_within_one_instant_is_idempotent() {
    let mut db = seeded_db();
    let now = T0 + TTL_ISSUE_MILLIS - 1_000;
    assert_eq!(db.validate_token_at("s1", now), Ok(()));
    let first = db.token_expiry_stamp("s1").unwrap();
    assert_eq!(db.validate_token_at("s1", now), Ok(()));
    let second = db.token_expiry_stamp("s1").unwrap();
    // The repeat neither shortens nor moves the session.
    assert_eq!(second, first);
    assert_eq!(first, now + TTL_REFRESH_MILLIS);
}

#[test]
fn validate_reports_expired_and_invalid_distinctly() {
    let mut db = seeded_db();
    let late = T0 + TTL_ISSUE_MILLIS;
    assert!(matches!(
        db.validate_token_at("s1", late),
        Err(SessionTokenErrors::ExpiredSessionToken)
    ));
    // Reporting expiry did not touch the token: it is still stored.
    assert_eq!(db.token_expiry_stamp("s1"), Some(late));
    assert!(matches!(
        db.validate_token_at("ghost", T0),
        Err(SessionTokenErrors::InvalidSessionToken)
    ));
}

#[test]
fn error_messages_match_their_outcomes() {
    assert_eq!(
        SessionTokenErrors::ExpiredSessionToken.message(),
        "Session token has expired!"
    );
    assert_eq!(
        SessionTokenErrors::InvalidSessionToken.message(),
        "Session token is invalid"
    );
    assert_eq!(
        SessionTokenErrors::_NoSessionToken.message(),
        "No session token has been provided"
    );
    assert_eq!(
        LoginErrors::NoSuchEntry.message(),
        "No such username/password found in the database!"
    );
    assert_eq!(SignupErrors::UsernameTaken.message(), "Username is already taken!");
}

#[test]
fn hash_is_deterministic_and_not_the_identity() {
    let a = generate_sha512_string("abc".to_string());
    let b = generate_sha512_string("abc".to_string());
    assert_eq!(a, b);
    assert_eq!(a.len(), 128);
    assert_ne!(a, "abc");
    // The well-known SHA-512 digest of "abc".
    assert_eq!(
        a,
        "ddaf35a193617abacc417349ae20413112e6fa4e89a97ea20a9eeee64b55d39a\
         2192992a274fc1a836ba3c23a3feebbd454d4423643ce80e2a9ac94fa54ca49f"
    );
    let c = generate_sha512_string("abd".to_string());
    assert_ne!(a, c);
}

#[test]
fn user_new_hashes_password_and_starts_without_token() {
    let u = User::new(
        "carol".to_string(),
        "secret-password".to_string(),
        "c@x.com".to_string(),
    );
    assert!(u.token.is_none());
    assert_eq!(u.username, "carol");
    assert_eq!(u.email, "c@x.com");
    assert_eq!(u.hashed_pass, generate_sha512_string("secret-password".to_string()));
    assert_ne!(u.hashed_pass, "secret-password");
}

#[test]
fn token_expiry_string_round_trips_to_millis() {
    let mut db = Database::init();
    let u = User::new(
        "dora".to_string(),
        "password-of-dora".to_string(),
        "d@x.com".to_string(),
    );
    let created = db.add_user_at(u, "s9", T0).unwrap();
    let tok = created.token.unwrap();
    assert_eq!(tok.expiry, "2000-01-14 01:02:03.004 UTC");
    assert_eq!(tok.expiry_millis(), Some(T0 + TTL_ISSUE_MILLIS));
}

#[test]
fn create_and_refresh_token_ops() {
    let mut db = seeded_db();
    // A direct re-issue supersedes the stored record under the same secret.
    db.create_token_at("s1", "alice", T0 + 5_000);
    assert_eq!(
        db.token_expiry_stamp("s1"),
        Some(T0 + 5_000 + TTL_ISSUE_MILLIS)
    );
    // A refresh moves the expiry to a refresh window after its instant.
    db.refresh_token_at("s1", T0 + 6_000);
    assert_eq!(
        db.token_expiry_stamp("s1"),
        Some(T0 + 6_000 + TTL_REFRESH_MILLIS)
    );
    // Refreshing an unknown secret changes nothing.
    db.refresh_token_at("ghost", T0 + 7_000);
    assert_eq!(db.token_expiry_stamp("ghost"), None);
}

#[test]
fn delete_token_clears_the_user_reference() {
    let mut db = seeded_db();
    db.delete_token("s1");
    assert_eq!(db.token_expiry_stamp("s1"), None);
    assert_eq!(db.user_token_secret("alice"), None);
    // A login after the deletion mints a fresh token again.
    let logged = db.login_at("alice", "longpassword1", T0, "f1").unwrap();
    assert_eq!(logged.token.unwrap().secret, "f1");
}

#[test]
fn wall_clock_entry_points_work_end_to_end() {
    let mut db = Database::init();
    let u = User::new(
        "erin".to_string(),
        "password-of-erin".to_string(),
        "e@x.com".to_string(),
    );
    // Seed a long-expired token (issued at the epoch), then call the
    // wall-clock entry points: the login must rotate it for a minted one.
    db.add_user_at(u, "old-secret", 0).unwrap();
    let logged = db.login("erin", "password-of-erin").unwrap();
    let tok = logged.token.unwrap();
    assert_eq!(tok.secret.len(), 32);
    assert_ne!(tok.secret, "old-secret");
    assert!(matches!(
        db.validate_token("old-secret"),
        Err(SessionTokenErrors::InvalidSessionToken)
    ));
    // The minted session is live right now.
    assert_eq!(db.validate_token(&tok.secret), Ok(()));
    assert!(matches!(
        db.login("erin", "wrong"),
        Err(LoginErrors::NoSuchEntry)
    ));
    let created = db.add_user(
        User::new(
            "frank".to_string(),
            "password-of-frank".to_string(),
            "f@x.com".to_string(),
        ),
        "frank-secret",
    );
    assert_eq!(created.unwrap().token.unwrap().secret, "frank-secret");
    assert_eq!(db.is_sessionid_expired("frank-secret"), Ok(false));
}
