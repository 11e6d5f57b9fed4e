//! End-to-end exercises of the session lifecycle against fixed instants.

use session_auth::clock::{TTL_ISSUE_MILLIS, TTL_REFRESH_MILLIS};
use session_auth::database::{Database, LoginErrors, SessionTokenErrors, SignupErrors};
use session_auth::users::User;

// 2000-01-12 01:02:03.004 UTC, in milliseconds since the epoch.
const T0: i64 = 947_638_923_004;

fn alice() -> User {
    User::new(
        "alice".to_string(),
        "longpassword1".to_string(),
        "a@x.com".to_string(),
    )
}

#[test]
fn signup_links_fresh_token() {
    let mut db = Database::init();
    let created = db.add_user_at(alice(), "s1", T0).unwrap();
    assert_eq!(created.username, "alice");
    assert_eq!(created.email, "a@x.com");
    let tok = created.token.unwrap();
    assert_eq!(tok.secret, "s1");
    assert_eq!(tok.expiry, "2000-01-14 01:02:03.004 UTC");
    assert_eq!(db.token_expiry_stamp("s1"), Some(T0 + TTL_ISSUE_MILLIS));
    assert_eq!(db.user_token_secret("alice"), Some("s1".to_string()));
}

#[test]
fn signup_then_login_succeeds_with_refreshed_token() {
    let mut db = Database::init();
    db.add_user_at(alice(), "s1", T0).unwrap();
    let logged = db.login_at("alice", "longpassword1", T0, "s2").unwrap();
    assert_eq!(logged.username, "alice");
    let tok = logged.token.unwrap();
    // Still live, so the secret is kept and the expiry moves to a refresh
    // window after the login instant.
    assert_eq!(tok.secret, "s1");
    assert_eq!(tok.expiry, "2000-01-13 01:02:03.004 UTC");
    assert_eq!(db.token_expiry_stamp("s1"), Some(T0 + TTL_REFRESH_MILLIS));
}

#[test]
fn wrong_password_and_unknown_user_are_indistinguishable() {
    let mut db = Database::init();
    db.add_user_at(alice(), "s1", T0).unwrap();
    let wrong_pass = db.login_at("alice", "wrongpass", T0, "s2").unwrap_err();
    let unknown_user = db.login_at("bob", "longpassword1", T0, "s3").unwrap_err();
    assert!(matches!(wrong_pass, LoginErrors::NoSuchEntry));
    assert!(matches!(unknown_user, LoginErrors::NoSuchEntry));
    assert_eq!(wrong_pass.message(), unknown_user.message());
    // The failed attempts left the stored token alone.
    assert_eq!(db.token_expiry_stamp("s1"), Some(T0 + TTL_ISSUE_MILLIS));
}

#[test]
fn expired_token_is_rotated_and_old_secret_invalid() {
    let mut db = Database::init();
    db.add_user_at(alice(), "s1", T0).unwrap();
    let later = T0 + TTL_ISSUE_MILLIS + 1;
    let logged = db.login_at("alice", "longpassword1", later, "s2").unwrap();
    let tok = logged.token.unwrap();
    assert_eq!(tok.secret, "s2");
    assert_ne!(tok.secret, "s1");
    assert_eq!(db.user_token_secret("alice"), Some("s2".to_string()));
    assert_eq!(db.token_expiry_stamp("s2"), Some(later + TTL_ISSUE_MILLIS));
    // The old secret is gone and now resolves to an invalid session.
    assert_eq!(db.token_expiry_stamp("s1"), None);
    assert!(matches!(
        db.validate_token_at("s1", later),
        Err(SessionTokenErrors::InvalidSessionToken)
    ));
}

#[test]
fn login_at_expiry_boundary_rotates() {
    let mut db = Database::init();
    db.add_user_at(alice(), "s1", T0).unwrap();
    // Expiry is checked inclusively: at the stored instant the token is
    // already expired.
    let boundary = T0 + TTL_ISSUE_MILLIS;
    let logged = db.login_at("alice", "longpassword1", boundary, "s2").unwrap();
    assert_eq!(logged.token.unwrap().secret, "s2");
}

#[test]
fn duplicate_username_is_reported_taken() {
    let mut db = Database::init();
    db.add_user_at(alice(), "s1", T0).unwrap();
    let again = User::new(
        "alice".to_string(),
        "otherpassword".to_string(),
        "b@x.com".to_string(),
    );
    let r = db.add_user_at(again, "s2", T0);
    assert!(matches!(r, Err(SignupErrors::UsernameTaken)));
    // Nothing changed: the original token still stands, the clashing one
    // was never written.
    assert_eq!(db.token_expiry_stamp("s1"), Some(T0 + TTL_ISSUE_MILLIS));
    assert_eq!(db.token_expiry_stamp("s2"), None);
    assert_eq!(db._get_all_users().unwrap().len(), 1);
}

#[test]
fn scenario_full_session_story() {
    let mut db = Database::init();
    let created = db.add_user_at(alice(), "s1", T0).unwrap();
    assert_eq!(created.username, "alice");
    let s1 = created.token.unwrap().secret;
    assert_eq!(s1, "s1");

    // Immediate login with the right password: same secret, refreshed.
    let logged = db.login_at("alice", "longpassword1", T0, "f1").unwrap();
    assert_eq!(logged.token.unwrap().secret, s1);

    // Wrong password: the one generic rejection.
    assert!(matches!(
        db.login_at("alice", "wrongpass", T0, "f2"),
        Err(LoginErrors::NoSuchEntry)
    ));

    // Past the (refreshed) expiry the next login mints a new secret.
    let later = T0 + 2 * TTL_ISSUE_MILLIS;
    let rotated = db.login_at("alice", "longpassword1", later, "f3").unwrap();
    let s2 = rotated.token.unwrap().secret;
    assert_eq!(s2, "f3");
    assert_ne!(s2, s1);
    assert!(matches!(
        db.validate_token_at(&s1, later),
        Err(SessionTokenErrors::InvalidSessionToken)
    ));
}

#[test]
fn get_all_users_reports_records_with_tokens() {
    let mut db = Database::init();
    db.add_user_at(alice(), "s1", T0).unwrap();
    let bob = User::new(
        "bob".to_string(),
        "password-of-bob".to_string(),
        "b@x.com".to_string(),
    );
    db.add_user_at(bob, "s2", T0).unwrap();
    let all = db._get_all_users().unwrap();
    assert_eq!(all.len(), 2);
    assert_eq!(all[0].username, "alice");
    assert_eq!(all[0].email, "a@x.com");
    assert_eq!(all[0].token.as_ref().unwrap().secret, "s1");
    assert_eq!(all[1].username, "bob");
    assert_eq!(all[1].token.as_ref().unwrap().secret, "s2");
}
