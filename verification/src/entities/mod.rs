//! The records that the handlers read, as plain values, and the users that
//! a new store starts with.

pub mod cart;
pub mod category;
pub mod image;
pub mod order;
pub mod user;

use vstd::prelude::*;
use vstd::string::*;
use crate::entities::user::Role;
use crate::middleware::logging::ApiError;
use crate::routes::auth_routes::{create_user, registration_steps, NewUser};
use crate::transaction::Plan;
use crate::validation::{is_password, is_username};

verus! {

/// The name of the administrator that a new store starts with.
pub open spec fn first_admin() -> Seq<char> {
    "admin"@
}

/// The name of the user that a new store starts with.
pub open spec fn first_user() -> Seq<char> {
    "user"@
}

/// The password that both start with.
pub open spec fn first_password() -> Seq<char> {
    "Secret15"@
}

/// The names and the password that a new store starts with are acceptable.
pub proof fn lemma_first_users_are_acceptable()
    ensures
        is_username(first_admin()),
        is_username(first_user()),
        is_password(first_password()),
{
    reveal_strlit("admin");
    reveal_strlit("user");
    reveal_strlit("Secret15");
}

/// What a new store starts with: the plan, and the two records to store, the
/// user first, or why there are none.
#[derive(Debug)]
pub struct Seed {
    pub plan: Plan,
    pub users: Result<(NewUser, NewUser), ApiError>,
}

/// Plans the storing of the two users that a new store starts with, a user
/// `user` and an administrator `admin`, with one hash of the password that
/// both start with. Both rows are written in one step.
pub fn primary_settup() -> (seed: Seed)
    ensures
        seed.plan.admitted,
        seed.plan.steps@ == registration_steps(seed.users is Ok),
        seed.users matches Ok(pair) ==> {
            &&& pair.0.records(first_user(), first_password(), Role::User)
            &&& pair.1.records(first_admin(), first_password(), Role::Admin)
            &&& pair.0.password@ == pair.1.password@
        },
        seed.users matches Err(e) ==> e@ is PasswordHashFailed,
{
    proof {
        lemma_first_users_are_acceptable();
    }
    let registration = create_user("admin", "Secret15", Role::Admin);
    let users = match registration.user {
        Ok(admin) => {
            let user = NewUser { username: "user".to_owned(), password: admin.password.clone(), role: Role::User };
            Ok((user, admin))
        },
        Err(e) => Err(e),
    };
    Seed { plan: registration.plan, users }
}

} // verus!
