use vstd::prelude::*;

use crate::database::Database;
use crate::database::DatabaseError;
use crate::database::StoreErrorKind;
use crate::database::first_match;
use crate::password::Password;
use crate::password::PasswordView;

verus! {

/// What went wrong inside the session manager.
#[derive(Debug, Clone, Copy, PartialEq, Eq, Structural)]
pub enum SessionErrorKind {
    /// The secret presented at login differs from the master secret.
    InvalidCredentials,
    /// A registration named a user whose file is already present.
    UserExists,
    /// A lookup matched no stored record.
    NotFound,
    /// The backing file could not be opened, created, read or written.
    StorageUnavailable,
}

/// An error reported by the session manager, carrying its kind and a message
/// fit for display.
#[derive(Debug)]
pub struct PasswordManagerError {
    pub kind: SessionErrorKind,
    pub message: String,
}

impl PasswordManagerError {
    /// Builds an error of the given kind with the given display message.
    pub fn new(kind: SessionErrorKind, message: &str) -> (r: PasswordManagerError)
        ensures
            r.kind == kind,
            r.message@ == message@,
    {
        PasswordManagerError { kind, message: String::from_str(message) }
    }
}

/// Lifts a store error into a session error, keeping kind and message.
fn from_store_error(error: DatabaseError) -> (r: PasswordManagerError)
    ensures
        error.kind == StoreErrorKind::NotFound ==> r.kind == SessionErrorKind::NotFound,
        error.kind == StoreErrorKind::StorageUnavailable ==> r.kind
            == SessionErrorKind::StorageUnavailable,
        r.message@ == error.message@,
{
    match error.kind {
        StoreErrorKind::NotFound => PasswordManagerError {
            kind: SessionErrorKind::NotFound,
            message: error.message,
        },
        StoreErrorKind::StorageUnavailable => PasswordManagerError {
            kind: SessionErrorKind::StorageUnavailable,
            message: error.message,
        },
    }
}

/// The placeholder master secret of a freshly constructed session.
pub open spec fn default_master_secret() -> Seq<char> {
    "password"@
}

/// The in-memory authentication state together with the owned store.
pub struct PasswordManager {
    database: Database,
    user: String,
    master_key: String,
}

/// A successful registration: the master secret becomes the presented
/// secret, the store is bound to the freshly created, empty `<user>.db`, and
/// the current user is untouched (registering does not log in).
pub open spec fn register_succeeds(
    pre: PasswordManager,
    user: Seq<char>,
    secret: Seq<char>,
    post: PasswordManager,
) -> bool {
    &&& post.master() == secret
    &&& post.current_user() == pre.current_user()
    &&& post.rows() == Seq::<PasswordView>::empty()
    &&& post.store_path() == user + ".db"@
}

/// A failed registration: the session — master secret, user, bound store —
/// is left exactly as it was, and the failure names an existing user or an
/// unavailable backing.
pub open spec fn register_fails(
    pre: PasswordManager,
    error: PasswordManagerError,
    post: PasswordManager,
) -> bool {
    &&& post == pre
    &&& (error.kind == SessionErrorKind::UserExists || error.kind
        == SessionErrorKind::StorageUnavailable)
}

/// A successful login: the presented secret equals the master secret, the
/// presented user becomes the current user, the store is bound to
/// `<user>.db`, and the master secret is kept.
pub open spec fn login_succeeds(
    pre: PasswordManager,
    user: Seq<char>,
    secret: Seq<char>,
    post: PasswordManager,
) -> bool {
    &&& secret == pre.master()
    &&& post.current_user() == user
    &&& post.master() == pre.master()
    &&& post.store_path() == user + ".db"@
}

impl PasswordManager {
    /// The identity the session is authenticated as; empty means none.
    pub closed spec fn current_user(self) -> Seq<char> {
        self.user@
    }

    /// The secret that a login must present verbatim.
    pub closed spec fn master(self) -> Seq<char> {
        self.master_key@
    }

    /// The records of the bound store, first inserted first.
    pub closed spec fn rows(self) -> Seq<PasswordView> {
        self.database.rows()
    }

    /// The file the owned store is bound to; empty for the fresh placeholder.
    pub closed spec fn store_path(self) -> Seq<char> {
        self.database.path()
    }

    /// Whether a user identity is established.
    pub open spec fn is_authenticated(self) -> bool {
        self.current_user().len() > 0
    }

    /// A fresh session: no user, the placeholder master secret, and the store
    /// bound to an ephemeral in-memory backing.
    pub fn new() -> (r: Result<PasswordManager, PasswordManagerError>)
        ensures
            r matches Ok(pm) ==> !pm.is_authenticated() && pm.master() == default_master_secret()
                && pm.rows() == Seq::<PasswordView>::empty() && pm.store_path()
                == Seq::<char>::empty(),
            r matches Err(e) ==> e.kind == SessionErrorKind::StorageUnavailable,
    {
        match Database::new() {
            Ok(database) => Ok(
                PasswordManager {
                    database,
                    user: String::new(),
                    master_key: String::from_str("password"),
                },
            ),
            Err(e) => Err(from_store_error(e)),
        }
    }

    /// Logs in: on a verbatim secret match the presented user becomes the
    /// current user and the store is bound to `<user>.db`; on a mismatch the
    /// call fails with `InvalidCredentials`; if the file cannot be opened it
    /// fails with `StorageUnavailable`. Every failure leaves the session
    /// exactly as it was.
    pub fn login(&mut self, user: &str, login_master_key: &str) -> (r: Result<
        bool,
        PasswordManagerError,
    >)
        ensures
            r is Ok ==> r == Ok::<bool, PasswordManagerError>(true) && login_succeeds(
                *old(self),
                user@,
                login_master_key@,
                *final(self),
            ),
            r is Err ==> *final(self) == *old(self),
            login_master_key@ != old(self).master() <==> (r matches Err(e) && e.kind
                == SessionErrorKind::InvalidCredentials),
            r matches Err(e) ==> e.kind == SessionErrorKind::InvalidCredentials || e.kind
                == SessionErrorKind::StorageUnavailable,
            r matches Err(e) ==> (e.kind == SessionErrorKind::InvalidCredentials
                ==> e.message@ == "Invalid master key"@),
    {
        let presented = String::from_str(login_master_key);
        if presented == self.master_key {
            let file_name = String::from_str(user).concat(".db");
            match self.database.connect_to_file(file_name.as_str()) {
                Ok(()) => {
                    self.user = String::from_str(user);
                    Ok(true)
                },
                Err(e) => Err(from_store_error(e)),
            }
        } else {
            Err(PasswordManagerError::new(SessionErrorKind::InvalidCredentials, "Invalid master key"))
        }
    }

    /// Registers a user: when a file named `<user>.db` already exists the call
    /// fails with `UserExists`; otherwise the file is created with the schema,
    /// the store is bound to it, and the presented secret becomes the master
    /// secret. The user is not logged in by registering. Every failure leaves
    /// the session exactly as it was.
    pub fn register(&mut self, user: &str, login_master_key: &str) -> (r: Result<
        (),
        PasswordManagerError,
    >)
        ensures
            r is Ok ==> register_succeeds(*old(self), user@, login_master_key@, *final(self)),
            r matches Err(e) ==> register_fails(*old(self), e, *final(self)),
    {
        let file_name = String::from_str(user).concat(".db");
        if file_exists(file_name.as_str()) {
            let message = String::from_str("User ").concat(user).concat(" already exists");
            return Err(PasswordManagerError::new(SessionErrorKind::UserExists, message.as_str()));
        }
        match self.database.create_file(file_name.as_str()) {
            Ok(()) => {
                self.set_master_key(login_master_key);
                Ok(())
            },
            Err(e) => Err(from_store_error(e)),
        }
    }

    /// Replaces the master secret; nothing else changes.
    pub fn set_master_key(&mut self, login_master_key: &str)
        ensures
            final(self).master() == login_master_key@,
            final(self).current_user() == old(self).current_user(),
            final(self).rows() == old(self).rows(),
            final(self).store_path() == old(self).store_path(),
    {
        self.master_key = String::from_str(login_master_key);
    }

    /// Appends one record to the bound store; no deduplication.
    pub fn add_password(&mut self, password: &Password) -> (r: Result<(), PasswordManagerError>)
        ensures
            r is Ok ==> final(self).rows() == old(self).rows().push(password@),
            r matches Err(e) ==> e.kind == SessionErrorKind::StorageUnavailable
                && final(self).rows() == old(self).rows(),
            final(self).current_user() == old(self).current_user(),
            final(self).master() == old(self).master(),
            final(self).store_path() == old(self).store_path(),
    {
        match self.database.add_password(password) {
            Ok(()) => Ok(()),
            Err(e) => Err(from_store_error(e)),
        }
    }

    /// Returns the first stored record whose platform equals `platform`
    /// byte-exactly; fails with `NotFound` when no record matches and with
    /// `StorageUnavailable` when the backing cannot be read.
    pub fn get_password(&self, platform: &str) -> (r: Result<Password, PasswordManagerError>)
        ensures
            r matches Ok(p) ==> first_match(self.rows(), platform@) == Some(p@),
            r matches Err(e) && e.kind == SessionErrorKind::NotFound ==> first_match(
                self.rows(),
                platform@,
            ) is None,
            first_match(self.rows(), platform@) is None ==> !(r is Ok),
            r matches Err(e) ==> e.kind == SessionErrorKind::NotFound || e.kind
                == SessionErrorKind::StorageUnavailable,
    {
        match self.database.get_password(platform) {
            Ok(p) => Ok(p),
            Err(e) => Err(from_store_error(e)),
        }
    }
}

/// After a successful registration with a secret and a later successful login
/// that presents the same (non-empty) user name and that secret, the session
/// is authenticated as exactly that user, with the store bound to that
/// user's file.
pub proof fn lemma_register_then_login(
    s0: PasswordManager,
    s1: PasswordManager,
    s2: PasswordManager,
    user: Seq<char>,
    secret: Seq<char>,
)
    requires
        user.len() > 0,
        register_succeeds(s0, user, secret, s1),
        login_succeeds(s1, user, secret, s2),
    ensures
        s2.is_authenticated(),
        s2.current_user() == user,
        s2.store_path() == user + ".db"@,
{
}

/// A registration that fails — in particular a repeated registration of an
/// already present user, which reports `UserExists` — alters nothing the
/// session model sees: not the master secret, not the current user, not the
/// bound store or its records.
pub proof fn lemma_failed_register_preserves_session(
    pre: PasswordManager,
    error: PasswordManagerError,
    post: PasswordManager,
)
    requires
        register_fails(pre, error, post),
    ensures
        post.master() == pre.master(),
        post.current_user() == pre.current_user(),
        post.rows() == pre.rows(),
        post.store_path() == pre.store_path(),
{
}

/// Relies on `std::path::Path::exists`: tells whether something exists at the
/// path right now; the answer depends on the file system, so nothing is
/// assumed of it.
#[verifier::external_body]
fn file_exists(path: &str) -> bool {
    std::path::Path::new(path).exists()
}

} // verus!
