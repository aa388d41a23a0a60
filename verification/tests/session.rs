use passman::Password;
use passman::PasswordManager;
use passman::SessionErrorKind;

use std::time::SystemTime;
use std::time::UNIX_EPOCH;

// The session derives the database file name from the user name, so the user
// name doubles as a path; point it at a writable directory and make it unique
// per run.
fn unique_user(prefix: &str) -> String {
    let nanos = SystemTime::now().duration_since(UNIX_EPOCH).unwrap().as_nanos();
    format!("/tmp/{}{}", prefix, nanos)
}

#[test]
fn fresh_register_and_login() {
    let mut pm = PasswordManager::new().unwrap();
    let user = unique_user("alice");
    pm.register(&user, "hunter2").unwrap();
    assert!(pm.login(&user, "hunter2").unwrap());
}

#[test]
fn login_with_wrong_secret() {
    let mut pm = PasswordManager::new().unwrap();
    let user = unique_user("alice");
    pm.register(&user, "hunter2").unwrap();
    let err = pm.login(&user, "wrong").unwrap_err();
    assert_eq!(err.kind, SessionErrorKind::InvalidCredentials);
    assert_eq!(err.message, "Invalid master key");
    // The failed login must not have authenticated anyone: a later login with
    // the real secret still works from the unchanged state.
    assert!(pm.login(&user, "hunter2").unwrap());
}

#[test]
fn insert_and_retrieve() {
    let mut pm = PasswordManager::new().unwrap();
    let user = unique_user("alice");
    pm.register(&user, "hunter2").unwrap();
    assert!(pm.login(&user, "hunter2").unwrap());
    pm.add_password(&Password::new(&user, "github.com", "gh-pw")).unwrap();
    let found = pm.get_password("github.com").unwrap();
    assert_eq!(found.user, user);
    assert_eq!(found.platform, "github.com");
    assert_eq!(found.password, "gh-pw");
}

#[test]
fn lookup_miss() {
    let mut pm = PasswordManager::new().unwrap();
    let user = unique_user("alice");
    pm.register(&user, "hunter2").unwrap();
    assert!(pm.login(&user, "hunter2").unwrap());
    let err = pm.get_password("nowhere.example").unwrap_err();
    assert_eq!(err.kind, SessionErrorKind::NotFound);
}

#[test]
fn duplicate_register() {
    let mut pm = PasswordManager::new().unwrap();
    let user = unique_user("alice");
    pm.register(&user, "hunter2").unwrap();
    let err = pm.register(&user, "other").unwrap_err();
    assert_eq!(err.kind, SessionErrorKind::UserExists);
}

#[test]
fn first_match_on_duplicate_platforms() {
    let mut pm = PasswordManager::new().unwrap();
    let user = unique_user("alice");
    pm.register(&user, "hunter2").unwrap();
    assert!(pm.login(&user, "hunter2").unwrap());
    pm.add_password(&Password::new(&user, "x", "a")).unwrap();
    pm.add_password(&Password::new(&user, "x", "b")).unwrap();
    let found = pm.get_password("x").unwrap();
    assert_eq!(found.password, "a");
}

#[test]
fn fresh_session_default_secret() {
    // The documented unsafe default: a fresh session accepts the placeholder
    // secret before any registration.
    let mut pm = PasswordManager::new().unwrap();
    let user = unique_user("fresh");
    assert!(pm.login(&user, "password").unwrap());
    let err2 = PasswordManager::new().unwrap().login(&user, "other").unwrap_err();
    assert_eq!(err2.kind, SessionErrorKind::InvalidCredentials);
}

#[test]
fn set_master_key_changes_login() {
    let mut pm = PasswordManager::new().unwrap();
    let user = unique_user("keys");
    pm.register(&user, "first").unwrap();
    pm.set_master_key("second");
    let err = pm.login(&user, "first").unwrap_err();
    assert_eq!(err.kind, SessionErrorKind::InvalidCredentials);
    assert!(pm.login(&user, "second").unwrap());
}

#[test]
fn get_without_schema_is_storage_error() {
    // A fresh session's store is an in-memory placeholder with no schema
    // installed, so a lookup cannot touch the table.
    let pm = PasswordManager::new().unwrap();
    let err = pm.get_password("anything").unwrap_err();
    assert_eq!(err.kind, SessionErrorKind::StorageUnavailable);
}

#[test]
fn session_error_new_keeps_kind_and_message() {
    let e = passman::PasswordManagerError::new(SessionErrorKind::UserExists, "User alice already exists");
    assert_eq!(e.kind, SessionErrorKind::UserExists);
    assert_eq!(e.message, "User alice already exists");
}
