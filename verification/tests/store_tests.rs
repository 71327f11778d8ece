use auth_core::errors::AuthError;
use auth_core::gate::verify_api_key;
use auth_core::hash::{generate_salt, hash_password, verify_password};
use auth_core::models::{EmailLogin, SignUp, UsernameLogin};
use auth_core::root;
use auth_core::store::Database;

fn signup_request(email: &str, username: &str, password: &str) -> SignUp {
    SignUp {
        email: email.to_string(),
        username: username.to_string(),
        password: password.to_string(),
        api_key: "unchecked-by-the-store".to_string(),
    }
}

fn email_login_request(email: &str, password: &str) -> EmailLogin {
    EmailLogin {
        email: email.to_string(),
        password: password.to_string(),
        api_key: "unchecked-by-the-store".to_string(),
    }
}

fn username_login_request(username: &str, password: &str) -> UsernameLogin {
    UsernameLogin {
        username: username.to_string(),
        password: password.to_string(),
        api_key: "unchecked-by-the-store".to_string(),
    }
}

#[test]
fn root_greets() {
    assert_eq!(root(), "Welcome to the Rust Auth Server created by PyDev19");
}

#[test]
fn hash_and_verify_round_trip() {
    let salt = generate_salt();
    let hash = hash_password("secret", &salt).unwrap();
    assert!(verify_password("secret", &hash).unwrap());
    assert!(!verify_password("other_secret", &hash).unwrap());
    assert!(!verify_password("", &hash).unwrap());
}

#[test]
fn hashes_of_distinct_secrets_do_not_cross_verify() {
    let hash_a = hash_password("alpha", &generate_salt()).unwrap();
    let hash_b = hash_password("beta", &generate_salt()).unwrap();
    assert!(verify_password("alpha", &hash_a).unwrap());
    assert!(verify_password("beta", &hash_b).unwrap());
    assert!(!verify_password("alpha", &hash_b).unwrap());
    assert!(!verify_password("beta", &hash_a).unwrap());
}

#[test]
fn hash_rejects_malformed_salt() {
    // a salt string this short is refused by the hasher
    assert!(hash_password("secret", "x").is_err());
}

#[test]
fn verify_rejects_malformed_hash() {
    assert!(verify_password("secret", "not a hash at all").is_err());
}

#[test]
fn generated_salt_is_accepted_and_fresh_hashes_differ_in_salt() {
    let salt = generate_salt();
    assert!(!salt.is_empty());
    // the same password hashed twice gets fresh salts, so the strings differ,
    // yet both verify
    let h1 = hash_password("pw", &generate_salt()).unwrap();
    let h2 = hash_password("pw", &generate_salt()).unwrap();
    assert_ne!(h1, h2);
    assert!(verify_password("pw", &h1).unwrap());
    assert!(verify_password("pw", &h2).unwrap());
}

#[test]
fn signup_creates_logged_out_account_without_code() {
    let mut db = Database::new();
    let created = db.signup(signup_request("a@x.com", "alice", "p1")).unwrap();
    assert_eq!(created.email, "a@x.com");
    assert_eq!(created.username, "alice");
    assert!(!created.logged_in);
    assert!(created.recovery_code.is_none());
    // the stored credential is a hash that verifies only the password
    assert_ne!(created.password, "p1");
    assert!(verify_password("p1", &created.password).unwrap());
    assert!(!verify_password("p2", &created.password).unwrap());
}

#[test]
fn signup_keeps_identities_unique() {
    let mut db = Database::new();
    db.signup(signup_request("a@x.com", "alice", "p1")).unwrap();
    db.signup(signup_request("b@x.com", "bob", "p2")).unwrap();
    // the email check precedes the username check, so the email error wins
    // when both collide
    assert_eq!(
        db.signup(signup_request("a@x.com", "carol", "p3")).unwrap_err(),
        AuthError::DuplicateEmail
    );
    assert_eq!(
        db.signup(signup_request("c@x.com", "bob", "p3")).unwrap_err(),
        AuthError::DuplicateUsername
    );
    assert_eq!(
        db.signup(signup_request("a@x.com", "bob", "p3")).unwrap_err(),
        AuthError::DuplicateEmail
    );
    // duplicate probes see exactly the two stored accounts
    assert!(db.check_duplicate_email("a@x.com".to_string()));
    assert!(db.check_duplicate_email("b@x.com".to_string()));
    assert!(!db.check_duplicate_email("c@x.com".to_string()));
    assert!(db.check_duplicate_username("alice".to_string()));
    assert!(db.check_duplicate_username("bob".to_string()));
    assert!(!db.check_duplicate_username("carol".to_string()));
}

#[test]
fn scenario_signup_and_login_lifecycle() {
    let mut db = Database::new();
    assert!(db.signup(signup_request("a@x.com", "alice", "p1")).is_ok());
    assert_eq!(
        db.signup(signup_request("a@x.com", "bob", "p2")).unwrap_err(),
        AuthError::DuplicateEmail
    );
    let success = db.email_login(email_login_request("a@x.com", "p1")).unwrap();
    assert_eq!(success.email, "a@x.com");
    assert_eq!(success.username, "alice");
    assert_eq!(
        db.email_login(email_login_request("a@x.com", "p1")).unwrap_err(),
        AuthError::AlreadyLoggedIn
    );
    assert!(db.signout("alice".to_string()).is_ok());
    assert_eq!(
        db.email_login(email_login_request("a@x.com", "wrong")).unwrap_err(),
        AuthError::InvalidCredentials
    );
}

#[test]
fn login_by_username_follows_the_same_state_machine() {
    let mut db = Database::new();
    db.signup(signup_request("a@x.com", "alice", "p1")).unwrap();
    assert_eq!(
        db.username_login(username_login_request("alice", "wrong")).unwrap_err(),
        AuthError::InvalidCredentials
    );
    let success = db.username_login(username_login_request("alice", "p1")).unwrap();
    assert_eq!(success.email, "a@x.com");
    assert_eq!(success.username, "alice");
    assert_eq!(
        db.username_login(username_login_request("alice", "p1")).unwrap_err(),
        AuthError::AlreadyLoggedIn
    );
    // logout, then the session can be opened again
    db.signout("alice".to_string()).unwrap();
    assert!(db.username_login(username_login_request("alice", "p1")).is_ok());
}

#[test]
fn absent_identifier_and_wrong_password_are_the_same_error() {
    let mut db = Database::new();
    db.signup(signup_request("a@x.com", "alice", "p1")).unwrap();
    let absent = db.email_login(email_login_request("b@x.com", "p1")).unwrap_err();
    let wrong = db.email_login(email_login_request("a@x.com", "nope")).unwrap_err();
    assert_eq!(absent, AuthError::InvalidCredentials);
    assert_eq!(absent, wrong);
}

#[test]
fn signout_errors_are_distinct() {
    let mut db = Database::new();
    db.signup(signup_request("a@x.com", "alice", "p1")).unwrap();
    assert_eq!(
        db.signout("alice".to_string()).unwrap_err(),
        AuthError::NotLoggedIn
    );
    assert_eq!(
        db.signout("nobody".to_string()).unwrap_err(),
        AuthError::NotFound
    );
    db.email_login(email_login_request("a@x.com", "p1")).unwrap();
    assert_eq!(
        db.signout("alice".to_string()).unwrap(),
        "User successfully logged out"
    );
    assert_eq!(
        db.signout("alice".to_string()).unwrap_err(),
        AuthError::NotLoggedIn
    );
}

#[test]
fn get_user_returns_the_current_snapshot() {
    let mut db = Database::new();
    db.signup(signup_request("a@x.com", "alice", "p1")).unwrap();
    assert!(db.get_user("nobody".to_string()).is_none());
    let before = db.get_user("alice".to_string()).unwrap();
    assert!(!before.logged_in);
    db.email_login(email_login_request("a@x.com", "p1")).unwrap();
    let after = db.get_user("alice".to_string()).unwrap();
    assert!(after.logged_in);
    assert_eq!(after.email, "a@x.com");
}

#[test]
fn delete_user_removes_the_record_and_returns_it() {
    let mut db = Database::new();
    db.signup(signup_request("a@x.com", "alice", "p1")).unwrap();
    assert_eq!(
        db.delete_user("nobody".to_string()).unwrap_err(),
        AuthError::NotFound
    );
    let removed = db.delete_user("alice".to_string()).unwrap();
    assert_eq!(removed.username, "alice");
    assert!(db.get_user("alice".to_string()).is_none());
    // the identity is free again
    assert!(db.signup(signup_request("a@x.com", "alice", "p2")).is_ok());
}

#[test]
fn recovery_code_is_issued_once_and_in_range() {
    let mut db = Database::new();
    db.signup(signup_request("a@x.com", "alice", "p1")).unwrap();
    assert_eq!(
        db.check_code("nobody".to_string()).unwrap_err(),
        AuthError::NotFound
    );
    let issued = db.check_code("alice".to_string()).unwrap();
    let code = issued.recovery_code.unwrap();
    assert!((100_000..1_000_000).contains(&code));
    // a pending code is never overwritten
    assert_eq!(
        db.check_code("alice".to_string()).unwrap_err(),
        AuthError::RecoveryAlreadyPending
    );
    let snapshot = db.get_user("alice".to_string()).unwrap();
    assert_eq!(snapshot.recovery_code, Some(code));
}

#[test]
fn signup_with_a_prederived_hash_stores_it_verbatim() {
    let mut db = Database::new();
    let hash = hash_password("p1", &generate_salt()).unwrap();
    let created = db
        .signup_with_hash("a@x.com".to_string(), "alice".to_string(), hash.clone())
        .unwrap();
    assert_eq!(created.password, hash);
    assert!(db
        .email_login(email_login_request("a@x.com", "p1"))
        .is_ok());
    assert_eq!(
        db.signup_with_hash("a@x.com".to_string(), "bob".to_string(), hash)
            .unwrap_err(),
        AuthError::DuplicateEmail
    );
}

#[test]
fn api_key_gate_admits_only_the_shared_secret() {
    let stored = hash_password("the-service-key", &generate_salt()).unwrap();
    assert!(verify_api_key("the-service-key", &stored).is_ok());
    assert_eq!(
        verify_api_key("some-other-key", &stored).unwrap_err(),
        AuthError::InvalidKey
    );
    // a malformed stored hash is also reported as an invalid key
    assert_eq!(
        verify_api_key("the-service-key", "garbage").unwrap_err(),
        AuthError::InvalidKey
    );
}
