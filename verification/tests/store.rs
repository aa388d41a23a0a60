use passman::Database;
use passman::Password;
use passman::StoreErrorKind;

use std::time::SystemTime;
use std::time::UNIX_EPOCH;

fn unique_file(prefix: &str) -> String {
    let nanos = SystemTime::now().duration_since(UNIX_EPOCH).unwrap().as_nanos();
    format!("/tmp/{}{}.db", prefix, nanos)
}

#[test]
fn create_insert_lookup_round_trip() {
    let mut db = Database::new().unwrap();
    db.create_file(&unique_file("store")).unwrap();
    db.add_password(&Password::new("u", "site.example", "s3cret")).unwrap();
    let found = db.get_password("site.example").unwrap();
    assert_eq!(found.user, "u");
    assert_eq!(found.platform, "site.example");
    assert_eq!(found.password, "s3cret");
}

#[test]
fn lookup_on_empty_table_is_not_found() {
    let mut db = Database::new().unwrap();
    db.create_file(&unique_file("empty")).unwrap();
    let err = db.get_password("anything").unwrap_err();
    assert_eq!(err.kind, StoreErrorKind::NotFound);
}

#[test]
fn lookup_keeps_insertion_order_on_duplicates() {
    let mut db = Database::new().unwrap();
    db.create_file(&unique_file("dup")).unwrap();
    db.add_password(&Password::new("u", "x", "first")).unwrap();
    db.add_password(&Password::new("u", "x", "second")).unwrap();
    assert_eq!(db.get_password("x").unwrap().password, "first");
}

#[test]
fn connect_without_schema_fails_lookup() {
    // Binding opens (or creates) the file but installs no schema, so the
    // table is missing and the store reports it as unavailable.
    let mut db = Database::new().unwrap();
    db.connect_to_file(&unique_file("bare")).unwrap();
    let err = db.get_password("x").unwrap_err();
    assert_eq!(err.kind, StoreErrorKind::StorageUnavailable);
}

#[test]
fn insert_without_schema_is_storage_error() {
    let mut db = Database::new().unwrap();
    let err = db.add_password(&Password::new("u", "x", "y")).unwrap_err();
    assert_eq!(err.kind, StoreErrorKind::StorageUnavailable);
}

#[test]
fn create_twice_fails_second_time() {
    // The schema can only be installed once in the same file.
    let name = unique_file("twice");
    let mut db = Database::new().unwrap();
    db.create_file(&name).unwrap();
    let err = db.create_file(&name).unwrap_err();
    assert_eq!(err.kind, StoreErrorKind::StorageUnavailable);
}

#[test]
fn rebind_sees_committed_rows() {
    // Each insert is committed before return: a second binding to the same
    // file sees the row.
    let name = unique_file("commit");
    let mut db = Database::new().unwrap();
    db.create_file(&name).unwrap();
    db.add_password(&Password::new("u", "p", "w")).unwrap();
    let mut db2 = Database::new().unwrap();
    db2.connect_to_file(&name).unwrap();
    assert_eq!(db2.get_password("p").unwrap().password, "w");
}

#[test]
fn store_error_new_keeps_kind_and_message() {
    let e = passman::DatabaseError::new(StoreErrorKind::NotFound, "No password found");
    assert_eq!(e.kind, StoreErrorKind::NotFound);
    assert_eq!(e.message, "No password found");
}

#[test]
fn password_new_keeps_fields() {
    let p = Password::new("user", "platform", "secret");
    assert_eq!(p.user, "user");
    assert_eq!(p.platform, "platform");
    assert_eq!(p.password, "secret");
}
