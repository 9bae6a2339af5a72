//! Registration, login, and what administrators do with users.

use vstd::prelude::*;
use vstd::string::*;
use crate::entities::user::{is_password_hash, password_matches, Model, ModelView, Role};
use crate::middleware::auth::{issue_spec, issue_token};
use crate::middleware::logging::{to_response, ApiError, ApiErrorView, Body, BodyView, Reply, ReplyView};
use crate::routes::{
    conflicting, conflicting_view, failed_with, failure, find_and_write, find_and_write_plan, invalid,
    invalid_view, lacking, lacking_view, listing_outcome, listing_reply, not_set_up, not_set_up_view, read_only,
    read_only_plan, store_failed, store_failed_view, succeeded_with, success, unexpected, unexpected_view,
    BAD_REQUEST, CONFLICT, CREATED, INTERNAL_SERVER_ERROR, NOT_FOUND, OK, UNAUTHORIZED,
};
use crate::text::{naming, worded};
use crate::transaction::{
    alike, conversation, lemma_done_is_committed, outcome, writes_at, Action, Event, Guard, Plan, Step, Verdict,
};
use crate::validation::{is_password, is_username, valid_password, valid_username};

verus! {

/// `argon2::password_hash::Error`, why a password could not be hashed.
/// Nothing is known of its values.
#[verifier::external_type_specification]
#[verifier::external_body]
pub struct ExPasswordHashError(argon2::password_hash::Error);

/// The length that every hash exceeds: the 32 bytes of output that a hash
/// records take 43 characters in Base64, and they are only its last field.
pub const HASH_OUTPUT_CHARS: usize = 43;

/// `argon2::PasswordHasher::hash_password` on `Argon2::default()` with a
/// salt from `SaltString::generate` on the system's random source, written
/// as a PHC string. The salt differs from call to call, so the hash does;
/// whichever hash comes back parses, the password verifies against it, and
/// it is longer than the output that it ends with.
#[verifier::external_body]
fn hash_password(password: &str) -> (hash: Result<String, argon2::password_hash::Error>)
    ensures
        hash matches Ok(h) ==> is_password_hash(h@) && password_matches(h@, password@),
        hash matches Ok(h) ==> h@.len() > HASH_OUTPUT_CHARS,
{
    let salt = argon2::password_hash::SaltString::generate(&mut argon2::password_hash::rand_core::OsRng);
    let argon2 = argon2::Argon2::default();
    let password_hash = argon2::PasswordHasher::hash_password(&argon2, password.as_bytes(), &salt)?.to_string();
    Ok(password_hash)
}

/// The text of an `argon2::password_hash::Error`, as its `Display` writes it.
#[verifier::external_body]
fn hash_error_text(error: &argon2::password_hash::Error) -> (text: String) {
    error.to_string()
}

/// Hashes a password for storage. A hash that comes back is one that the
/// password verifies against; a failure is classified as
/// `PasswordHashFailed`.
pub fn hash_for_storage(password: &str) -> (hash: Result<String, ApiError>)
    ensures
        hash matches Ok(h) ==> is_password_hash(h@) && password_matches(h@, password@),
        hash matches Ok(h) ==> h@.len() > HASH_OUTPUT_CHARS,
        hash matches Err(e) ==> e@ is PasswordHashFailed,
{
    match hash_password(password) {
        Ok(hash) => Ok(hash),
        Err(error) => Err(ApiError::PasswordHashFailed(hash_error_text(&error))),
    }
}

/// A user that is about to be stored: everything but the identifier, which
/// the store gives.
#[derive(Debug)]
pub struct NewUser {
    pub username: String,
    /// The hash of the password, never the password.
    pub password: String,
    pub role: Role,
}

impl NewUser {
    /// Whether this is the record of a user of the given name and role whose
    /// password is `password`: the name and the role are the given ones, and
    /// in place of the password stands a hash that the password verifies
    /// against and that is not the password itself.
    pub open spec fn records(self, username: Seq<char>, password: Seq<char>, role: Role) -> bool {
        &&& self.username@ == username
        &&& self.role == role
        &&& is_password_hash(self.password@)
        &&& password_matches(self.password@, password)
        &&& self.password@ != password
    }
}

/// What a handler needs to store a new user: the plan, and the record to
/// store or why there is none.
#[derive(Debug)]
pub struct Registration {
    pub plan: Plan,
    pub user: Result<NewUser, ApiError>,
}

/// The steps of storing a new user: the password has to have been hashed,
/// and the user is inserted.
pub open spec fn registration_steps(hashed: bool) -> Seq<Step> {
    seq![Step::Check { passed: hashed }, Step::Write { when: Guard::Always }]
}

/// Plans the creation of a user with the given role, as an administrator
/// asks for it, and gives the record to store. The name has to be a user
/// name and the password a password before a transaction is opened; the
/// password is hashed only if they are.
pub fn create_user(username: &str, password: &str, role: Role) -> (registration: Registration)
    ensures
        registration.plan.admitted == (is_username(username@) && is_password(password@)),
        registration.plan.steps@ == registration_steps(registration.user is Ok),
        registration.user matches Ok(user) ==> {
            &&& registration.plan.admitted
            &&& user.records(username@, password@, role)
        },
        registration.user matches Err(e) ==> if registration.plan.admitted {
            e@ is PasswordHashFailed
        } else {
            e@ == ApiErrorView::ValidationFail("Invalid username or password"@)
        },
{
    let admitted = valid_username(username) && valid_password(password);
    let user = if admitted {
        match hash_for_storage(password) {
            Ok(hash) => Ok(NewUser { username: username.to_owned(), password: hash, role }),
            Err(e) => Err(e),
        }
    } else {
        Err(ApiError::ValidationFail("Invalid username or password".to_owned()))
    };
    let mut steps: Vec<Step> = Vec::new();
    steps.push(Step::Check { passed: user.is_ok() });
    steps.push(Step::Write { when: Guard::Always });
    assert(steps@ =~= registration_steps(user is Ok));
    Registration { plan: Plan { admitted, steps }, user }
}

/// Plans the registration of a user and gives the record to store. Whoever
/// registers is stored as a `User`, whatever else the request holds.
pub fn register_user(username: &str, password: &str) -> (registration: Registration)
    ensures
        registration.plan.admitted == (is_username(username@) && is_password(password@)),
        registration.plan.steps@ == registration_steps(registration.user is Ok),
        registration.user matches Ok(user) ==> {
            &&& registration.plan.admitted
            &&& user.records(username@, password@, Role::User)
        },
        registration.user matches Err(e) ==> if registration.plan.admitted {
            e@ is PasswordHashFailed
        } else {
            e@ == ApiErrorView::ValidationFail("Invalid username or password"@)
        },
{
    create_user(username, password, Role::User)
}

/// The content of an optional classification.
pub open spec fn error_view(error: Option<ApiError>) -> Option<ApiErrorView> {
    match error {
        Some(e) => Some(e@),
        None => None,
    }
}

/// The reply to each verdict on storing a new user, registered or created
/// by an administrator; `hash_error` is why the password was not hashed,
/// where it was not.
pub open spec fn register_user_outcome(verdict: Verdict, hash_error: Option<ApiErrorView>) -> ReplyView {
    match verdict {
        Verdict::Refused => invalid_view(
            BAD_REQUEST,
            "Failed to validate username or password"@,
            "Invalid username or password"@,
        ),
        Verdict::SetupFailed => not_set_up_view(),
        Verdict::Rejected { step } => match hash_error {
            Some(e) => failed_with(INTERNAL_SERVER_ERROR, "An internal server error occured"@, e),
            None => unexpected_view(),
        },
        Verdict::Failed { step, detail } => store_failed_view(
            INTERNAL_SERVER_ERROR,
            "Internal server error"@,
            detail@,
        ),
        Verdict::Conflict { step, detail } => conflicting_view(CONFLICT, "Username already exists"@, detail@),
        Verdict::CommitFailed { detail } => store_failed_view(
            INTERNAL_SERVER_ERROR,
            "Internal server error"@,
            detail@,
        ),
        Verdict::Done { wrote } => succeeded_with(CREATED, "User registered successfully"@),
        _ => unexpected_view(),
    }
}

/// Words the reply to a verdict on storing a new user, registered or created
/// by an administrator.
pub fn register_user_reply(verdict: Verdict, hash_error: Option<ApiError>) -> (reply: Reply)
    ensures
        reply@ == register_user_outcome(verdict, error_view(hash_error)),
        reply@.classified(),
        reply@.succeeded() <==> verdict is Done,
{
    match verdict {
        Verdict::Refused => invalid(
            BAD_REQUEST,
            "Failed to validate username or password",
            "Invalid username or password",
        ),
        Verdict::SetupFailed => not_set_up(),
        Verdict::Rejected { step } => match hash_error {
            Some(e) => failure(INTERNAL_SERVER_ERROR, "An internal server error occured", e),
            None => unexpected(),
        },
        Verdict::Failed { step, detail } => store_failed(INTERNAL_SERVER_ERROR, "Internal server error", detail),
        Verdict::Conflict { step, detail } => conflicting(CONFLICT, "Username already exists", detail),
        Verdict::CommitFailed { detail } => store_failed(INTERNAL_SERVER_ERROR, "Internal server error", detail),
        Verdict::Done { wrote } => success(CREATED, "User registered successfully"),
        _ => unexpected(),
    }
}

/// Plans a login: the name has to be a user name and the password a
/// password before a transaction is opened, and the user of that name has
/// to exist.
pub fn login(username: &str, password: &str) -> (plan: Plan)
    ensures
        plan.admitted == (is_username(username@) && is_password(password@)),
        plan.steps@ == read_only(true),
{
    let plan = read_only_plan(true);
    Plan { admitted: valid_username(username) && valid_password(password), steps: plan.steps }
}

/// The reply to a login whose user was found: a token for the user's
/// identifier and role where the password verifies against the stored hash,
/// and the same words as for an unknown user where it does not.
pub open spec fn credentials_outcome(user: ModelView, password: Seq<char>, secret: Seq<char>, now: i64) -> ReplyView {
    if password_matches(user.password, password) {
        match issue_spec(user.id, user.role.label(), secret, now) {
            Ok(token) => ReplyView { status: OK, body: BodyView::Token(token), extension: Some(Ok(())) },
            Err(e) => failed_with(
                INTERNAL_SERVER_ERROR,
                "Internal server error"@,
                ApiErrorView::TokenGenerationFailed(e.message()),
            ),
        }
    } else {
        failed_with(
            UNAUTHORIZED,
            "Invalid username or password"@,
            ApiErrorView::General("Password verification failed"@),
        )
    }
}

/// The content of an optional user.
pub open spec fn user_view(user: Option<&Model>) -> Option<ModelView> {
    match user {
        Some(u) => Some(u@),
        None => None,
    }
}

/// The reply to each verdict on a login at the time `now`; `user` is the
/// user that was read.
pub open spec fn login_outcome(
    verdict: Verdict,
    user: Option<ModelView>,
    password: Seq<char>,
    secret: Seq<char>,
    now: i64,
) -> ReplyView {
    match verdict {
        Verdict::Refused => invalid_view(
            BAD_REQUEST,
            "name should be at least 3 characters long"@,
            "Invalid username or password"@,
        ),
        Verdict::SetupFailed => not_set_up_view(),
        Verdict::Missing { step } => lacking_view(UNAUTHORIZED, "Invalid username or password"@),
        Verdict::Failed { step, detail } => store_failed_view(
            INTERNAL_SERVER_ERROR,
            "An internal server error occured"@,
            detail@,
        ),
        Verdict::Done { wrote } => match user {
            Some(u) => credentials_outcome(u, password, secret, now),
            None => unexpected_view(),
        },
        _ => unexpected_view(),
    }
}

/// Whether a login's verdict leads to a check of the password, for which the
/// stored hash has to parse.
pub open spec fn checks_password(verdict: Verdict, user: Option<ModelView>) -> bool {
    verdict is Done && user is Some
}

/// Words the reply to a verdict on a login at the time `now`.
///
/// Where the password is checked, the stored hash has to parse;
/// `try_login_reply` tests that first.
pub fn login_reply(verdict: Verdict, user: Option<&Model>, password: &str, secret: &str, now: i64) -> (reply:
    Reply)
    requires
        checks_password(verdict, user_view(user)) ==> is_password_hash(user->0.password@),
    ensures
        reply@ == login_outcome(verdict, user_view(user), password@, secret@, now),
        reply@.classified(),
{
    match verdict {
        Verdict::Refused => invalid(
            BAD_REQUEST,
            "name should be at least 3 characters long",
            "Invalid username or password",
        ),
        Verdict::SetupFailed => not_set_up(),
        Verdict::Missing { step } => lacking(UNAUTHORIZED, "Invalid username or password".to_owned()),
        Verdict::Failed { step, detail } => store_failed(
            INTERNAL_SERVER_ERROR,
            "An internal server error occured",
            detail,
        ),
        Verdict::Done { wrote } => match user {
            Some(model) => match model.check_hash(password) {
                Ok(()) => {
                    let role = model.role.to_string();
                    match issue_token(model.id, role.as_str(), secret, now) {
                        Ok(token) => to_response(Reply::new(OK, Body::Token(token)), Ok(())),
                        Err(e) => failure(
                            INTERNAL_SERVER_ERROR,
                            "Internal server error",
                            ApiError::TokenGenerationFailed(e.to_string()),
                        ),
                    }
                },
                Err(message) => failure(UNAUTHORIZED, "Invalid username or password", ApiError::General(message)),
            },
            None => unexpected(),
        },
        _ => unexpected(),
    }
}

/// The content of an optional reply.
pub open spec fn reply_view(reply: Option<Reply>) -> Option<ReplyView> {
    match reply {
        Some(r) => Some(r@),
        None => None,
    }
}

/// Words the reply to a verdict on a login at the time `now`, or gives
/// `None` where the password would have to be checked against a stored text
/// that is no password hash.
pub fn try_login_reply(verdict: Verdict, user: Option<&Model>, password: &str, secret: &str, now: i64) -> (reply:
    Option<Reply>)
    ensures
        reply is None <==> checks_password(verdict, user_view(user)) && !is_password_hash(
            user->0.password@,
        ),
        reply_view(reply) matches Some(r) ==> r == login_outcome(
            verdict,
            user_view(user),
            password@,
            secret@,
            now,
        ) && r.classified(),
{
    let checked = match (&verdict, user) {
        (Verdict::Done { .. }, Some(_)) => true,
        _ => false,
    };
    if checked {
        match user {
            Some(model) => {
                if !model.has_password_hash() {
                    return None;
                }
            },
            None => {},
        }
    }
    Some(login_reply(verdict, user, password, secret, now))
}

/// Plans the listing of users for an administrator.
pub fn get_users() -> (plan: Plan)
    ensures
        plan.admitted,
        plan.steps@ == read_only(false),
{
    read_only_plan(false)
}

/// Words the reply to a verdict on the listing of users.
pub fn get_users_reply(verdict: Verdict) -> (reply: Reply)
    ensures
        reply@ == listing_outcome(verdict, "Internal server error"@),
        reply@.classified(),
        reply@.succeeded() <==> verdict is Done,
{
    listing_reply(verdict, "Internal server error")
}

/// Plans the deletion of a user by an administrator.
pub fn admin_delete_user() -> (plan: Plan)
    ensures
        plan.admitted,
        plan.steps@ == find_and_write(),
{
    find_and_write_plan()
}

/// The reply to each verdict on the deletion of the user `id`.
pub open spec fn admin_delete_user_outcome(verdict: Verdict, id: i32) -> ReplyView {
    match verdict {
        Verdict::SetupFailed => not_set_up_view(),
        Verdict::Missing { step } => lacking_view(
            BAD_REQUEST,
            naming("No related entry with "@, id, " id was found."@),
        ),
        Verdict::Failed { step, detail } => if step == 0 {
            store_failed_view(INTERNAL_SERVER_ERROR, "Internal server error."@, detail@)
        } else {
            store_failed_view(BAD_REQUEST, "Failed to delete this resource"@, detail@)
        },
        Verdict::Conflict { step, detail } => conflicting_view(
            BAD_REQUEST,
            "Failed to delete this resource"@,
            detail@,
        ),
        Verdict::CommitFailed { detail } => store_failed_view(
            INTERNAL_SERVER_ERROR,
            "Internal server error"@,
            detail@,
        ),
        Verdict::Done { wrote } => succeeded_with(OK, "Resource deleted successfully"@),
        _ => unexpected_view(),
    }
}

/// Words the reply to a verdict on the deletion of the user `id`.
pub fn admin_delete_user_reply(verdict: Verdict, id: i32) -> (reply: Reply)
    ensures
        reply@ == admin_delete_user_outcome(verdict, id),
        reply@.classified(),
        reply@.succeeded() <==> verdict is Done,
{
    match verdict {
        Verdict::SetupFailed => not_set_up(),
        Verdict::Missing { step } => lacking(BAD_REQUEST, worded("No related entry with ", id, " id was found.")),
        Verdict::Failed { step, detail } => {
            if step == 0 {
                store_failed(INTERNAL_SERVER_ERROR, "Internal server error.", detail)
            } else {
                store_failed(BAD_REQUEST, "Failed to delete this resource", detail)
            }
        },
        Verdict::Conflict { step, detail } => conflicting(BAD_REQUEST, "Failed to delete this resource", detail),
        Verdict::CommitFailed { detail } => store_failed(INTERNAL_SERVER_ERROR, "Internal server error", detail),
        Verdict::Done { wrote } => success(OK, "Resource deleted successfully"),
        _ => unexpected(),
    }
}

/// What a handler needs to patch a user: the plan, and the hash of the new
/// password where there is one, or why there is none.
#[derive(Debug)]
pub struct UserPatch {
    pub plan: Plan,
    pub password: Option<Result<String, ApiError>>,
}

/// The steps of patching a user: the user has to exist, a new password has
/// to have been hashed, and the user is updated.
pub open spec fn patch_user_steps(hashed: bool) -> Seq<Step> {
    seq![
        Step::Read { must_exist: true, must_succeed: true },
        Step::Check { passed: hashed },
        Step::Write { when: Guard::Always },
    ]
}

/// Plans the patch of a user by an administrator, and hashes the new
/// password where there is one.
pub fn patch_user(password: Option<&str>) -> (patch: UserPatch)
    ensures
        patch.plan.admitted,
        patch.plan.steps@ == patch_user_steps(!(patch.password matches Some(Err(_)))),
        patch.password is Some <==> password is Some,
        patch.password matches Some(Ok(h)) ==> is_password_hash(h@) && password_matches(h@, password->0@)
            && h@.len() > HASH_OUTPUT_CHARS,
        patch.password matches Some(Err(e)) ==> e@ is PasswordHashFailed,
{
    let hash = match password {
        Some(p) => Some(hash_for_storage(p)),
        None => None,
    };
    let hashed = match &hash {
        Some(Err(_)) => false,
        _ => true,
    };
    let mut steps: Vec<Step> = Vec::new();
    steps.push(Step::Read { must_exist: true, must_succeed: true });
    steps.push(Step::Check { passed: hashed });
    steps.push(Step::Write { when: Guard::Always });
    assert(steps@ =~= patch_user_steps(hashed));
    UserPatch { plan: Plan { admitted: true, steps }, password: hash }
}

/// The user `stored` after a patch: each of name, password hash and role is
/// the new one where the patch holds one, and the stored one otherwise. The
/// identifier stays.
pub open spec fn patched_user_view(
    stored: ModelView,
    username: Option<Seq<char>>,
    hash: Option<Seq<char>>,
    role: Option<Role>,
) -> ModelView {
    ModelView {
        id: stored.id,
        username: match username {
            Some(name) => name,
            None => stored.username,
        },
        password: match hash {
            Some(h) => h,
            None => stored.password,
        },
        role: match role {
            Some(r) => r,
            None => stored.role,
        },
    }
}

/// The content of an optional text.
pub open spec fn given(text: Option<String>) -> Option<Seq<char>> {
    match text {
        Some(t) => Some(t@),
        None => None,
    }
}

/// The record to store for a patched user.
pub fn patched_user(stored: Model, username: Option<String>, hash: Option<String>, role: Option<Role>) -> (user:
    Model)
    ensures
        user@ == patched_user_view(stored@, given(username), given(hash), role),
{
    Model {
        id: stored.id,
        username: match username {
            Some(name) => name,
            None => stored.username,
        },
        password: match hash {
            Some(h) => h,
            None => stored.password,
        },
        role: match role {
            Some(r) => r,
            None => stored.role,
        },
    }
}

/// The reply to each verdict on the patch of the user `id`; `hash_error` is
/// why the new password was not hashed, where it was not.
pub open spec fn patch_user_outcome(verdict: Verdict, id: i32, hash_error: Option<ApiErrorView>) -> ReplyView {
    match verdict {
        Verdict::SetupFailed => not_set_up_view(),
        Verdict::Missing { step } => lacking_view(NOT_FOUND, naming("No related entry with "@, id, " id was found."@)),
        Verdict::Rejected { step } => match hash_error {
            Some(e) => failed_with(INTERNAL_SERVER_ERROR, "An internal server error occured"@, e),
            None => unexpected_view(),
        },
        Verdict::Failed { step, detail } => if step == 0 {
            store_failed_view(INTERNAL_SERVER_ERROR, "Internal server error."@, detail@)
        } else {
            store_failed_view(BAD_REQUEST, "Failed to patch this resource"@, detail@)
        },
        Verdict::Conflict { step, detail } => conflicting_view(
            CONFLICT,
            "Username unique constraint failed"@,
            detail@,
        ),
        Verdict::CommitFailed { detail } => store_failed_view(
            CONFLICT,
            "Username unique constraint failed"@,
            detail@,
        ),
        Verdict::Done { wrote } => succeeded_with(OK, "Resource patched successfully"@),
        _ => unexpected_view(),
    }
}

/// Words the reply to a verdict on the patch of the user `id`.
pub fn patch_user_reply(verdict: Verdict, id: i32, hash_error: Option<ApiError>) -> (reply: Reply)
    ensures
        reply@ == patch_user_outcome(verdict, id, error_view(hash_error)),
        reply@.classified(),
        reply@.succeeded() <==> verdict is Done,
{
    match verdict {
        Verdict::SetupFailed => not_set_up(),
        Verdict::Missing { step } => lacking(NOT_FOUND, worded("No related entry with ", id, " id was found.")),
        Verdict::Rejected { step } => match hash_error {
            Some(e) => failure(INTERNAL_SERVER_ERROR, "An internal server error occured", e),
            None => unexpected(),
        },
        Verdict::Failed { step, detail } => {
            if step == 0 {
                store_failed(INTERNAL_SERVER_ERROR, "Internal server error.", detail)
            } else {
                store_failed(BAD_REQUEST, "Failed to patch this resource", detail)
            }
        },
        Verdict::Conflict { step, detail } => conflicting(CONFLICT, "Username unique constraint failed", detail),
        Verdict::CommitFailed { detail } => store_failed(CONFLICT, "Username unique constraint failed", detail),
        Verdict::Done { wrote } => success(OK, "Resource patched successfully"),
        _ => unexpected(),
    }
}

/// A user is reported as registered only once the insertion is committed.
pub proof fn lemma_registered_user_is_committed(
    plan: Plan,
    before: Seq<usize>,
    events: Seq<Event>,
    verdict: Verdict,
    hashed: bool,
    hash_error: Option<ApiErrorView>,
)
    requires
        plan.steps@ == registration_steps(hashed),
        conversation(plan, events),
        outcome(plan, before, events).1 == Action::Respond(verdict),
        register_user_outcome(verdict, hash_error).succeeded(),
    ensures
        outcome(plan, before, events).2.commits == 1,
        outcome(plan, before, events).2.rollbacks == 0,
        outcome(plan, before, events).2.performed.len() > 0,
        outcome(plan, before, events).2.visible == before + outcome(plan, before, events).2.performed,
{
    assert(writes_at(plan.steps@, 1));
    lemma_done_is_committed(plan, before, events);
}

/// A user is reported as deleted only once the deletion is committed.
pub proof fn lemma_deleted_user_is_committed(
    plan: Plan,
    before: Seq<usize>,
    events: Seq<Event>,
    verdict: Verdict,
    id: i32,
)
    requires
        plan.steps@ == find_and_write(),
        conversation(plan, events),
        outcome(plan, before, events).1 == Action::Respond(verdict),
        admin_delete_user_outcome(verdict, id).succeeded(),
    ensures
        outcome(plan, before, events).2.commits == 1,
        outcome(plan, before, events).2.rollbacks == 0,
        outcome(plan, before, events).2.performed.len() > 0,
        outcome(plan, before, events).2.visible == before + outcome(plan, before, events).2.performed,
{
    assert(writes_at(plan.steps@, 1));
    lemma_done_is_committed(plan, before, events);
}

/// A user is reported as patched only once the update is committed.
pub proof fn lemma_patched_user_is_committed(
    plan: Plan,
    before: Seq<usize>,
    events: Seq<Event>,
    verdict: Verdict,
    id: i32,
    hashed: bool,
    hash_error: Option<ApiErrorView>,
)
    requires
        plan.steps@ == patch_user_steps(hashed),
        conversation(plan, events),
        outcome(plan, before, events).1 == Action::Respond(verdict),
        patch_user_outcome(verdict, id, hash_error).succeeded(),
    ensures
        outcome(plan, before, events).2.commits == 1,
        outcome(plan, before, events).2.rollbacks == 0,
        outcome(plan, before, events).2.performed.len() > 0,
        outcome(plan, before, events).2.visible == before + outcome(plan, before, events).2.performed,
{
    assert(writes_at(plan.steps@, 2));
    lemma_done_is_committed(plan, before, events);
}

/// What the store says of a failure reaches the log and never the client: two
/// verdicts that differ only in that detail are answered with the same status
/// and the same body.
pub proof fn lemma_user_details_stay_in_the_log(
    a: Verdict,
    b: Verdict,
    id: i32,
    hash_error: Option<ApiErrorView>,
    user: Option<ModelView>,
    password: Seq<char>,
    secret: Seq<char>,
    now: i64,
)
    requires
        alike(a, b),
    ensures
        register_user_outcome(a, hash_error).told() == register_user_outcome(b, hash_error).told(),
        login_outcome(a, user, password, secret, now).told() == login_outcome(b, user, password, secret, now).told(),
        admin_delete_user_outcome(a, id).told() == admin_delete_user_outcome(b, id).told(),
        patch_user_outcome(a, id, hash_error).told() == patch_user_outcome(b, id, hash_error).told(),
{
}

} // verus!
