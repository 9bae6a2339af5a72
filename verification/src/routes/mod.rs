//! The handlers. Each states what it intends to do with the store as a plan
//! for the transaction machine, and words the reply for each verdict.

pub mod auth_routes;
pub mod cart_routes;
pub mod category_routes;
pub mod product_routes;
pub mod profile_routes;
pub mod query;
pub mod upload_routes;

use vstd::prelude::*;
use vstd::string::*;
use crate::entities::user::Role;
pub use crate::middleware::auth::UNAUTHORIZED;
use crate::middleware::logging::{to_response, ApiError, ApiErrorView, Body, BodyView, Reply, ReplyView};
use crate::transaction::{alike, writes_at, writes_surely, Guard, Plan, Step, Verdict};

verus! {

/// The status of a reply to a request that was carried out.
pub const OK: u16 = 200;

/// The status of a reply to a request that created something.
pub const CREATED: u16 = 201;

/// The status of a reply to a request that cannot be carried out as it is.
pub const BAD_REQUEST: u16 = 400;

/// The status of a reply to a request for something that does not exist.
pub const NOT_FOUND: u16 = 404;

/// The status of a reply to a write that a constraint of the store forbids.
pub const CONFLICT: u16 = 409;

/// The status of a reply to an upload that is larger than the limit.
pub const PAYLOAD_TOO_LARGE: u16 = 413;

/// The status of a reply to a request that failed for no fault of its own.
pub const INTERNAL_SERVER_ERROR: u16 = 500;

/// A reply that tells the client of a success.
pub open spec fn succeeded_with(status: u16, text: Seq<char>) -> ReplyView {
    ReplyView { status, body: BodyView::Message(text), extension: Some(Ok(())) }
}

/// A reply that hands the client rows or a file.
pub open spec fn content_with(status: u16) -> ReplyView {
    ReplyView { status, body: BodyView::Content, extension: Some(Ok(())) }
}

/// A reply that tells the client of a failure in `text`, and the log why.
pub open spec fn failed_with(status: u16, text: Seq<char>, error: ApiErrorView) -> ReplyView {
    ReplyView { status, body: BodyView::Error(text), extension: Some(Err(error)) }
}

/// A failure that the client and the log are told in the same words.
pub open spec fn lacking_view(status: u16, text: Seq<char>) -> ReplyView {
    failed_with(status, text, ApiErrorView::General(text))
}

/// A failure of the store: the client is told `text`, the log the detail.
pub open spec fn store_failed_view(status: u16, text: Seq<char>, detail: Seq<char>) -> ReplyView {
    failed_with(status, text, ApiErrorView::DbError(detail))
}

/// A write that the store rejected for a constraint.
pub open spec fn conflicting_view(status: u16, text: Seq<char>, detail: Seq<char>) -> ReplyView {
    failed_with(status, text, ApiErrorView::Conflict(detail))
}

/// A payload that is not acceptable.
pub open spec fn invalid_view(status: u16, text: Seq<char>, detail: Seq<char>) -> ReplyView {
    failed_with(status, text, ApiErrorView::ValidationFail(detail))
}

/// What a handler says when no transaction could be opened.
pub open spec fn not_set_up_view() -> ReplyView {
    failed_with(INTERNAL_SERVER_ERROR, "Internal server error"@, ApiErrorView::TransactionCreationFailed)
}

/// What a handler says to a verdict that its plan cannot lead to.
pub open spec fn unexpected_view() -> ReplyView {
    failed_with(
        INTERNAL_SERVER_ERROR,
        "Internal server error"@,
        ApiErrorView::General("Unexpected answer from the store"@),
    )
}

/// A reply that tells the client of a success.
pub fn success(status: u16, text: &str) -> (reply: Reply)
    ensures
        reply@ == succeeded_with(status, text@),
{
    to_response(Reply::new(status, Body::Message(text.to_owned())), Ok(()))
}

/// A reply that hands the client rows or a file, which the caller holds.
pub fn content(status: u16) -> (reply: Reply)
    ensures
        reply@ == content_with(status),
{
    to_response(Reply::new(status, Body::Content), Ok(()))
}

/// A reply that tells the client of a failure in `text`, and the log why.
pub fn failure(status: u16, text: &str, error: ApiError) -> (reply: Reply)
    ensures
        reply@ == failed_with(status, text@, error@),
{
    to_response(Reply::new(status, Body::Error(text.to_owned())), Err(error))
}

/// A failure that the client and the log are told in the same words.
pub fn lacking(status: u16, text: String) -> (reply: Reply)
    ensures
        reply@ == lacking_view(status, text@),
{
    let shown = text.clone();
    to_response(Reply::new(status, Body::Error(shown)), Err(ApiError::General(text)))
}

/// A failure of the store: the client is told `text`, the log the detail.
pub fn store_failed(status: u16, text: &str, detail: String) -> (reply: Reply)
    ensures
        reply@ == store_failed_view(status, text@, detail@),
{
    failure(status, text, ApiError::DbError(detail))
}

/// A write that the store rejected for a constraint.
pub fn conflicting(status: u16, text: &str, detail: String) -> (reply: Reply)
    ensures
        reply@ == conflicting_view(status, text@, detail@),
{
    failure(status, text, ApiError::Conflict(detail))
}

/// A payload that is not acceptable.
pub fn invalid(status: u16, text: &str, detail: &str) -> (reply: Reply)
    ensures
        reply@ == invalid_view(status, text@, detail@),
{
    failure(status, text, ApiError::ValidationFail(detail.to_owned()))
}

/// What a handler says when no transaction could be opened.
pub fn not_set_up() -> (reply: Reply)
    ensures
        reply@ == not_set_up_view(),
{
    failure(INTERNAL_SERVER_ERROR, "Internal server error", ApiError::TransactionCreationFailed)
}

/// What a handler says to a verdict that its plan cannot lead to.
pub fn unexpected() -> (reply: Reply)
    ensures
        reply@ == unexpected_view(),
{
    failure(
        INTERNAL_SERVER_ERROR,
        "Internal server error",
        ApiError::General("Unexpected answer from the store".to_owned()),
    )
}

/// The plan of a handler that reads one row, which has to exist, and
/// writes: a patch or a deletion.
pub open spec fn find_and_write() -> Seq<Step> {
    seq![Step::Read { must_exist: true, must_succeed: true }, Step::Write { when: Guard::Always }]
}

/// The plan of a handler that only reads. `must_exist` says whether the
/// request is about one row, which has to exist, or about a list.
pub open spec fn read_only(must_exist: bool) -> Seq<Step> {
    seq![Step::Read { must_exist, must_succeed: true }]
}

/// The plan of a patch or a deletion of one row.
pub fn find_and_write_plan() -> (plan: Plan)
    ensures
        plan.admitted,
        plan.steps@ == find_and_write(),
{
    let mut steps: Vec<Step> = Vec::new();
    steps.push(Step::Read { must_exist: true, must_succeed: true });
    steps.push(Step::Write { when: Guard::Always });
    assert(steps@ =~= find_and_write());
    Plan { admitted: true, steps }
}

/// The plan of a handler that only reads.
pub fn read_only_plan(must_exist: bool) -> (plan: Plan)
    ensures
        plan.admitted,
        plan.steps@ == read_only(must_exist),
{
    let mut steps: Vec<Step> = Vec::new();
    steps.push(Step::Read { must_exist, must_succeed: true });
    assert(steps@ =~= read_only(must_exist));
    Plan { admitted: true, steps }
}

/// The reply to each verdict on a listing; `text` is what the client is
/// told where the store fails the read.
pub open spec fn listing_outcome(verdict: Verdict, text: Seq<char>) -> ReplyView {
    match verdict {
        Verdict::SetupFailed => not_set_up_view(),
        Verdict::Failed { step, detail } => store_failed_view(INTERNAL_SERVER_ERROR, text, detail@),
        Verdict::Done { wrote } => content_with(OK),
        _ => unexpected_view(),
    }
}

/// Words the reply to a verdict on a listing.
pub fn listing_reply(verdict: Verdict, text: &str) -> (reply: Reply)
    ensures
        reply@ == listing_outcome(verdict, text@),
        reply@.classified(),
        reply@.succeeded() <==> verdict is Done,
{
    match verdict {
        Verdict::SetupFailed => not_set_up(),
        Verdict::Failed { step, detail } => store_failed(INTERNAL_SERVER_ERROR, text, detail),
        Verdict::Done { wrote } => content(OK),
        _ => unexpected(),
    }
}

/// Words the reply to a request for the root: the service is alive.
pub fn root() -> (reply: Reply)
    ensures
        reply@ == succeeded_with(OK, "alive"@),
{
    success(OK, "alive")
}

/// The groups of routes that the service offers.
#[derive(Clone, Copy, PartialEq, Eq, Debug, Structural)]
pub enum Router {
    /// Registration and login.
    Auth,
    /// The files of images.
    PublicImage,
    /// What the public sees of categories.
    Category,
    /// What the public sees of products.
    Product,
    /// Uploading, renaming and deleting images.
    Upload,
    /// A user's own cart.
    Cart,
    /// A user's own profile.
    Profile,
    /// Categories, for administrators.
    AdminCategory,
    /// Products, for administrators.
    AdminProduct,
    /// Everyone's carts, for administrators.
    AdminCart,
    /// Users, for administrators.
    AdminUsers,
}

/// The role that a group of routes requires of its callers, if it is
/// protected at all.
pub open spec fn role_required(router: Router) -> Option<Role> {
    match router {
        Router::Auth | Router::PublicImage | Router::Category | Router::Product => None,
        Router::Cart | Router::Profile => Some(Role::User),
        Router::Upload
        | Router::AdminCategory
        | Router::AdminProduct
        | Router::AdminCart
        | Router::AdminUsers => Some(Role::Admin),
    }
}

/// The role that a group of routes requires of its callers.
pub fn required_role(router: Router) -> (role: Option<Role>)
    ensures
        role == role_required(router),
{
    match router {
        Router::Auth | Router::PublicImage | Router::Category | Router::Product => None,
        Router::Cart | Router::Profile => Some(Role::User),
        Router::Upload
        | Router::AdminCategory
        | Router::AdminProduct
        | Router::AdminCart
        | Router::AdminUsers => Some(Role::Admin),
    }
}

/// A patch or a deletion of one row cannot be carried out without its write.
pub proof fn lemma_find_and_write_writes(plan: Plan)
    requires
        plan.steps@ == find_and_write(),
    ensures
        writes_surely(plan),
{
    assert(writes_at(plan.steps@, 1));
}

/// What the store says of a failure reaches the log and never the client: two
/// verdicts that differ only in that detail are answered with the same status
/// and the same body.
pub proof fn lemma_listing_details_stay_in_the_log(
    a: Verdict,
    b: Verdict,
    text: Seq<char>,
)
    requires
        alike(a, b),
    ensures
        listing_outcome(a, text).told() == listing_outcome(b, text).told(),
{
}

} // verus!
