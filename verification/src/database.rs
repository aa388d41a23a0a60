use vstd::prelude::*;

use crate::password::Password;
use crate::password::PasswordView;

verus! {

/// What went wrong inside the store.
#[derive(Debug, Clone, Copy, PartialEq, Eq, Structural)]
pub enum StoreErrorKind {
    /// A lookup matched no stored record.
    NotFound,
    /// The backing file could not be opened, created, read or written.
    StorageUnavailable,
}

/// An error reported by the store, carrying its kind and a message fit for
/// display.
#[derive(Debug)]
pub struct DatabaseError {
    pub kind: StoreErrorKind,
    pub message: String,
}

impl DatabaseError {
    /// Builds an error of the given kind with the given display message.
    pub fn new(kind: StoreErrorKind, message: &str) -> (r: DatabaseError)
        ensures
            r.kind == kind,
            r.message@ == message@,
    {
        DatabaseError { kind, message: String::from_str(message) }
    }
}

#[verifier::external_type_specification]
#[verifier::external_body]
pub struct ExConnection(rusqlite::Connection);

#[verifier::external_type_specification]
#[verifier::external_body]
pub struct ExRusqliteError(rusqlite::Error);

/// The rows of the `password` table of the database the connection is
/// attached to, in the order a sequential scan returns them. The model reads
/// each binding as exclusive: it does not cover a second live connection —
/// of this process or of another — opened on the same file, whose writes
/// would change these rows behind this value.
pub uninterp spec fn table_rows(conn: rusqlite::Connection) -> Seq<PasswordView>;

/// The path of the file the connection is attached to, fixed for the
/// connection's lifetime; empty for an ephemeral in-memory backing.
pub uninterp spec fn conn_path(conn: rusqlite::Connection) -> Seq<char>;

/// The first row of `rows` whose platform equals `platform`, if any.
pub open spec fn first_match(rows: Seq<PasswordView>, platform: Seq<char>) -> Option<PasswordView>
    decreases rows.len(),
{
    if rows.len() == 0 {
        None
    } else if rows[0].platform == platform {
        Some(rows[0])
    } else {
        first_match(rows.skip(1), platform)
    }
}

/// A found record always matches the queried platform and is one of the
/// stored records.
pub proof fn lemma_first_match_is_match(rows: Seq<PasswordView>, platform: Seq<char>)
    ensures
        first_match(rows, platform) matches Some(q) ==> q.platform == platform && rows.contains(q),
    decreases rows.len(),
{
    if rows.len() == 0 {
    } else if rows[0].platform == platform {
        assert(rows.contains(rows[0]));
    } else {
        lemma_first_match_is_match(rows.skip(1), platform);
        match first_match(rows.skip(1), platform) {
            Some(q) => {
                let i = choose|i: int| 0 <= i < rows.skip(1).len() && rows.skip(1)[i] == q;
                assert(rows[i + 1] == q);
            },
            None => {},
        }
    }
}

/// Inserting a record and then looking its platform up finds exactly that
/// record, unless an earlier record already used the platform, in which case
/// the earlier match is kept (first-match semantics on duplicates).
pub proof fn lemma_lookup_after_insert(rows: Seq<PasswordView>, record: PasswordView)
    ensures
        first_match(rows, record.platform) is None ==> first_match(
            rows.push(record),
            record.platform,
        ) == Some(record),
        first_match(rows, record.platform) is Some ==> first_match(
            rows.push(record),
            record.platform,
        ) == first_match(rows, record.platform),
    decreases rows.len(),
{
    if rows.len() == 0 {
        assert(rows.push(record)[0] == record);
        assert(first_match(rows.push(record), record.platform) == Some(record));
    } else if rows[0].platform == record.platform {
        assert(rows.push(record)[0] == rows[0]);
    } else {
        assert(rows.push(record)[0] == rows[0]);
        assert(rows.push(record).skip(1) =~= rows.skip(1).push(record));
        lemma_lookup_after_insert(rows.skip(1), record);
    }
}

/// Relies on rusqlite's `Connection::open`: opens the database file at
/// `path`, creating it when absent, and stays attached to that file; nothing
/// is assumed about the rows the file holds.
#[verifier::external_body]
fn open_connection(path: &str) -> (r: Result<rusqlite::Connection, rusqlite::Error>)
    ensures
        r matches Ok(c) ==> conn_path(c) == path@,
{
    rusqlite::Connection::open(path)
}

/// Relies on rusqlite's `Connection::open_in_memory`: opens an ephemeral
/// backing attached to no file (its path reads as empty) and holding no
/// schema, hence no `password` rows.
#[verifier::external_body]
fn open_memory_connection() -> (r: Result<rusqlite::Connection, rusqlite::Error>)
    ensures
        r matches Ok(c) ==> table_rows(c) == Seq::<PasswordView>::empty() && conn_path(c)
            == Seq::<char>::empty(),
{
    rusqlite::Connection::open_in_memory()
}

/// Relies on rusqlite's `Connection::execute` running `CREATE TABLE`: it
/// succeeds only when the table did not exist, so on success the `password`
/// table exists and holds no rows.
#[verifier::external_body]
fn create_password_table(conn: &mut rusqlite::Connection) -> (r: Result<
    (),
    rusqlite::Error,
>)
    ensures
        r is Ok ==> table_rows(*final(conn)) == Seq::<PasswordView>::empty(),
        conn_path(*final(conn)) == conn_path(*old(conn)),
{
    conn.execute(
        "CREATE TABLE password (
            user  TEXT NOT NULL,
            platform  TEXT NOT NULL,
            password  TEXT NOT NULL
        )",
        (),
    ).map(|_| ())
}

/// Relies on rusqlite's `Connection::execute` running `INSERT`: on success
/// exactly one row with the given three text values is appended at the end of
/// the table and committed before the call returns; a failed statement is
/// rolled back by SQLite and leaves the table as it was.
#[verifier::external_body]
fn insert_password_row(conn: &mut rusqlite::Connection, password: &Password) -> (r: Result<
    (),
    rusqlite::Error,
>)
    ensures
        r is Ok ==> table_rows(*final(conn)) == table_rows(*old(conn)).push(password@),
        r is Err ==> table_rows(*final(conn)) == table_rows(*old(conn)),
        conn_path(*final(conn)) == conn_path(*old(conn)),
{
    conn.execute(
        "INSERT INTO password (user, platform, password) VALUES (?1, ?2, ?3)",
        (&password.user, &password.platform, &password.password),
    ).map(|_| ())
}

/// Relies on rusqlite's `Connection::prepare`, `Statement::query_map` and the
/// row iterator: a `SELECT` without `ORDER BY` over this single plain table
/// scans rows in insertion order, so the first yielded row with the requested
/// platform is the first such row of the table.
#[verifier::external_body]
fn query_first_by_platform(conn: &rusqlite::Connection, platform: &str) -> (r: Result<
    Option<Password>,
    rusqlite::Error,
>)
    ensures
        r matches Ok(Some(p)) ==> first_match(table_rows(*conn), platform@) == Some(p@),
        r matches Ok(None) ==> first_match(table_rows(*conn), platform@) is None,
{
    let mut stmt = conn.prepare(
        "SELECT user, platform, password FROM password WHERE platform = ?1",
    )?;
    let mut rows = stmt.query_map((platform,), |row| {
        Ok(Password { user: row.get(0)?, platform: row.get(1)?, password: row.get(2)? })
    })?;
    match rows.next() {
        None => Ok(None),
        Some(row) => Ok(Some(row?)),
    }
}

/// Relies on the `Display` rendering of rusqlite's error type, used only to
/// carry a diagnostic message.
#[verifier::external_body]
fn rusqlite_error_message(error: &rusqlite::Error) -> String {
    error.to_string()
}

/// Turns an underlying rusqlite failure into a store error.
fn storage_error(error: rusqlite::Error) -> (r: DatabaseError)
    ensures
        r.kind == StoreErrorKind::StorageUnavailable,
{
    DatabaseError { kind: StoreErrorKind::StorageUnavailable, message: rusqlite_error_message(&error) }
}

/// The persistent table of credential records for one user, backed by a
/// single database file (or an ephemeral in-memory placeholder).
pub struct Database {
    conn: rusqlite::Connection,
}

impl Database {
    /// The stored records, first inserted first.
    pub closed spec fn rows(self) -> Seq<PasswordView> {
        table_rows(self.conn)
    }

    /// The file this store is bound to; empty for the in-memory placeholder.
    pub closed spec fn path(self) -> Seq<char> {
        conn_path(self.conn)
    }

    /// Binds a fresh store to an ephemeral in-memory backing with no schema;
    /// a placeholder until a user context is established.
    pub fn new() -> (r: Result<Database, DatabaseError>)
        ensures
            r matches Ok(db) ==> db.rows() == Seq::<PasswordView>::empty() && db.path()
                == Seq::<char>::empty(),
            r matches Err(e) ==> e.kind == StoreErrorKind::StorageUnavailable,
    {
        match open_memory_connection() {
            Ok(conn) => Ok(Database { conn }),
            Err(e) => Err(storage_error(e)),
        }
    }

    /// Rebinds the store to the file at `file_name`, which is assumed to
    /// already carry the schema; on failure the store is left as it was.
    pub fn connect_to_file(&mut self, file_name: &str) -> (r: Result<(), DatabaseError>)
        ensures
            r is Ok ==> final(self).path() == file_name@,
            r matches Err(e) ==> e.kind == StoreErrorKind::StorageUnavailable && *final(self)
                == *old(self),
    {
        match open_connection(file_name) {
            Ok(conn) => {
                self.conn = conn;
                Ok(())
            },
            Err(e) => Err(storage_error(e)),
        }
    }

    /// Creates the file at `file_name`, installs the one-table schema and
    /// binds to it; on success the store holds no rows. On failure the store
    /// is left as it was.
    pub fn create_file(&mut self, file_name: &str) -> (r: Result<(), DatabaseError>)
        ensures
            r is Ok ==> final(self).rows() == Seq::<PasswordView>::empty() && final(self).path()
                == file_name@,
            r matches Err(e) ==> e.kind == StoreErrorKind::StorageUnavailable && *final(self)
                == *old(self),
    {
        match open_connection(file_name) {
            Ok(mut conn) => {
                match create_password_table(&mut conn) {
                    Ok(()) => {
                        self.conn = conn;
                        Ok(())
                    },
                    Err(e) => Err(storage_error(e)),
                }
            },
            Err(e) => Err(storage_error(e)),
        }
    }

    /// Appends one record; no deduplication. Committed before returning.
    pub fn add_password(&mut self, password: &Password) -> (r: Result<(), DatabaseError>)
        ensures
            r is Ok ==> final(self).rows() == old(self).rows().push(password@),
            r matches Err(e) ==> e.kind == StoreErrorKind::StorageUnavailable && final(self).rows()
                == old(self).rows(),
            final(self).path() == old(self).path(),
    {
        match insert_password_row(&mut self.conn, password) {
            Ok(()) => Ok(()),
            Err(e) => Err(storage_error(e)),
        }
    }

    /// Returns the first stored record whose platform equals `platform`
    /// byte-exactly, `NotFound` when no record matches, and
    /// `StorageUnavailable` when the backing cannot be read.
    pub fn get_password(&self, platform: &str) -> (r: Result<Password, DatabaseError>)
        ensures
            r matches Ok(p) ==> first_match(self.rows(), platform@) == Some(p@),
            r matches Err(e) && e.kind == StoreErrorKind::NotFound ==> first_match(
                self.rows(),
                platform@,
            ) is None,
            first_match(self.rows(), platform@) is None ==> !(r is Ok),
            r matches Err(e) ==> e.kind == StoreErrorKind::NotFound || e.kind
                == StoreErrorKind::StorageUnavailable,
    {
        match query_first_by_platform(&self.conn, platform) {
            Ok(Some(p)) => Ok(p),
            Ok(None) => Err(DatabaseError::new(StoreErrorKind::NotFound, "No password found")),
            Err(e) => Err(storage_error(e)),
        }
    }
}

} // verus!
