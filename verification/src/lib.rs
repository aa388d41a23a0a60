mod database;
mod frontend;
mod manager;
mod password;

pub use database::Database;
pub use database::DatabaseError;
pub use database::StoreErrorKind;
pub use database::first_match;
pub use database::lemma_first_match_is_match;
pub use database::lemma_lookup_after_insert;
pub use frontend::Command;
pub use frontend::Input;
pub use frontend::Key;
pub use frontend::command_for_key;
pub use manager::PasswordManager;
pub use manager::lemma_failed_register_preserves_session;
pub use manager::lemma_register_then_login;
pub use manager::PasswordManagerError;
pub use manager::SessionErrorKind;
pub use manager::default_master_secret;
pub use manager::login_succeeds;
pub use manager::register_fails;
pub use manager::register_succeeds;
pub use password::Password;
pub use password::PasswordView;
