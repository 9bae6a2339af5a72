//! User records and the roles they hold.

use vstd::prelude::*;
use vstd::string::*;
use crate::text::same_text;

verus! {

/// What a user is allowed to do.
#[derive(Clone, Copy, PartialEq, Eq, Debug, Structural)]
pub enum Role {
    Admin,
    User,
}

impl Role {
    /// The name under which the role is stored and written into session tokens.
    pub open spec fn label(self) -> Seq<char> {
        match self {
            Role::Admin => "admin"@,
            Role::User => "user"@,
        }
    }

    /// The role that a stored name stands for, if any.
    pub open spec fn parse(name: Seq<char>) -> Option<Role> {
        if name == "admin"@ {
            Some(Role::Admin)
        } else if name == "user"@ {
            Some(Role::User)
        } else {
            None
        }
    }

    /// Reads a role from its stored name: `"admin"` or `"user"`, nothing else.
    pub fn from_str(s: &str) -> (role: Result<Role, ()>)
        ensures
            role == (match Role::parse(s@) {
                Some(r) => Ok::<Role, ()>(r),
                None => Err::<Role, ()>(()),
            }),
    {
        if same_text(s, "admin") {
            Ok(Role::Admin)
        } else if same_text(s, "user") {
            Ok(Role::User)
        } else {
            Err(())
        }
    }

    /// The stored name of the role.
    pub fn to_string(&self) -> (name: String)
        ensures
            name@ == self.label(),
    {
        match self {
            Role::Admin => "admin".to_owned(),
            Role::User => "user".to_owned(),
        }
    }
}

/// Every role is read back from its own stored name.
pub proof fn lemma_role_name_round_trip(role: Role)
    ensures
        Role::parse(role.label()) == Some(role),
{
    reveal_strlit("admin");
    reveal_strlit("user");
    assert("admin"@.len() == 5);
    assert("user"@.len() == 4);
}

/// A name stands for a role only if it is that role's stored name.
pub proof fn lemma_role_parse_is_label(name: Seq<char>, role: Role)
    requires
        Role::parse(name) == Some(role),
    ensures
        name == role.label(),
{
}

/// A user as the directory holds it.
pub struct Model {
    pub id: i32,
    pub username: String,
    /// The password hash, in PHC string format.
    pub password: String,
    pub role: Role,
}

/// The mathematical content of a user record.
pub struct ModelView {
    pub id: i32,
    pub username: Seq<char>,
    pub password: Seq<char>,
    pub role: Role,
}

impl View for Model {
    type V = ModelView;

    open spec fn view(&self) -> ModelView {
        ModelView {
            id: self.id,
            username: self.username@,
            password: self.password@,
            role: self.role,
        }
    }
}

/// Whether `hash` reads as a password hash in PHC string format.
pub uninterp spec fn is_password_hash(hash: Seq<char>) -> bool;

/// Whether `password`, hashed with the algorithm, parameters and salt that
/// `hash` records, gives the output that `hash` records.
pub uninterp spec fn password_matches(hash: Seq<char>, password: Seq<char>) -> bool;

/// `argon2::PasswordHash::new`: whether the text parses as a PHC string.
#[verifier::external_body]
fn parses_as_hash(hash: &str) -> (parses: bool)
    ensures
        parses == is_password_hash(hash@),
{
    argon2::PasswordHash::new(hash).is_ok()
}

/// `argon2::PasswordVerifier::verify_password` on `Argon2::default()`, for a
/// hash that parses: whether the password recomputes to the recorded output.
#[verifier::external_body]
fn verifies_against(hash: &str, password: &str) -> (matches: bool)
    requires
        is_password_hash(hash@),
    ensures
        matches == password_matches(hash@, password@),
{
    let verifier = argon2::Argon2::default();
    match argon2::PasswordHash::new(hash) {
        Ok(parsed) => argon2::PasswordVerifier::verify_password(&verifier, password.as_bytes(), &parsed).is_ok(),
        Err(_) => false,
    }
}

impl Model {
    /// Whether the stored text is a password hash at all.
    pub fn has_password_hash(&self) -> (parses: bool)
        ensures
            parses == is_password_hash(self.password@),
    {
        parses_as_hash(self.password.as_str())
    }

    /// Checks a password against the stored hash.
    ///
    /// The stored hash has to parse; `try_check_hash` tests that first.
    pub fn check_hash(&self, password: &str) -> (checked: Result<(), String>)
        requires
            is_password_hash(self.password@),
        ensures
            checked is Ok <==> password_matches(self.password@, password@),
            checked matches Err(message) ==> message@ == "Password verification failed"@,
    {
        if verifies_against(self.password.as_str(), password) {
            Ok(())
        } else {
            Err("Password verification failed".to_owned())
        }
    }

    /// Checks a password against the stored hash, or gives `None` where the
    /// stored text is no password hash at all.
    pub fn try_check_hash(&self, password: &str) -> (checked: Option<Result<(), String>>)
        ensures
            checked is Some <==> is_password_hash(self.password@),
            checked matches Some(c) ==> {
                &&& c is Ok <==> password_matches(self.password@, password@)
                &&& c matches Err(message) ==> message@ == "Password verification failed"@
            },
    {
        if self.has_password_hash() {
            Some(self.check_hash(password))
        } else {
            None
        }
    }
}

} // verus!
