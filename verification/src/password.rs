use vstd::prelude::*;

verus! {

/// One stored credential: which user saved it, the platform it belongs to,
/// and the secret itself.
#[derive(Debug)]
pub struct Password {
    pub user: String,
    pub platform: String,
    pub password: String,
}

/// The mathematical content of a credential record: its three fields as
/// character sequences.
pub struct PasswordView {
    pub user: Seq<char>,
    pub platform: Seq<char>,
    pub password: Seq<char>,
}

impl View for Password {
    type V = PasswordView;

    open spec fn view(&self) -> PasswordView {
        PasswordView { user: self.user@, platform: self.platform@, password: self.password@ }
    }
}

impl Password {
    /// Builds a record from the three pieces of text; no field is altered.
    pub fn new(user: &str, platform: &str, password: &str) -> (r: Password)
        ensures
            r@.user == user@,
            r@.platform == platform@,
            r@.password == password@,
    {
        Password {
            user: String::from_str(user),
            platform: String::from_str(platform),
            password: String::from_str(password),
        }
    }
}

} // verus!
