//! A user's own profile.

use vstd::prelude::*;
use vstd::string::*;
use crate::middleware::logging::{to_response, ApiErrorView, Body, BodyView, Reply, ReplyView};
use crate::routes::{
    conflicting, conflicting_view, failed_with, failure, find_and_write, find_and_write_plan, invalid,
    invalid_view, not_set_up, not_set_up_view, read_only, read_only_plan, store_failed, store_failed_view,
    succeeded_with, success, unexpected, unexpected_view, BAD_REQUEST, CONFLICT, INTERNAL_SERVER_ERROR,
    NOT_FOUND, OK, UNAUTHORIZED,
};
use crate::middleware::logging::ApiError;
use crate::transaction::{
    alike, conversation, lemma_done_is_committed, outcome, writes_at, Action, Event, Plan, Verdict,
};
use crate::validation::{is_username, valid_username};

verus! {

/// Plans the reading of the profile of the user that the claims name.
pub fn get_profile() -> (plan: Plan)
    ensures
        plan.admitted,
        plan.steps@ == read_only(true),
{
    read_only_plan(true)
}

/// The reply to each verdict on the reading of a profile; `username` is the
/// name that was read.
pub open spec fn get_profile_outcome(verdict: Verdict, username: Option<Seq<char>>) -> ReplyView {
    match verdict {
        Verdict::SetupFailed => not_set_up_view(),
        Verdict::Missing { step } => failed_with(
            UNAUTHORIZED,
            "Unauthorized access"@,
            ApiErrorView::General("User profile not found"@),
        ),
        Verdict::Failed { step, detail } => store_failed_view(
            INTERNAL_SERVER_ERROR,
            "Internal server error"@,
            detail@,
        ),
        Verdict::Done { wrote } => match username {
            Some(name) => ReplyView { status: OK, body: BodyView::Username(name), extension: Some(Ok(())) },
            None => unexpected_view(),
        },
        _ => unexpected_view(),
    }
}

/// The content of an optional name.
pub open spec fn name_view(name: Option<String>) -> Option<Seq<char>> {
    match name {
        Some(n) => Some(n@),
        None => None,
    }
}

/// Words the reply to a verdict on the reading of a profile.
pub fn get_profile_reply(verdict: Verdict, username: Option<String>) -> (reply: Reply)
    ensures
        reply@ == get_profile_outcome(verdict, name_view(username)),
        reply@.classified(),
        reply@.succeeded() <==> verdict is Done && username is Some,
{
    match verdict {
        Verdict::SetupFailed => not_set_up(),
        Verdict::Missing { step } => failure(
            UNAUTHORIZED,
            "Unauthorized access",
            ApiError::General("User profile not found".to_owned()),
        ),
        Verdict::Failed { step, detail } => store_failed(INTERNAL_SERVER_ERROR, "Internal server error", detail),
        Verdict::Done { wrote } => match username {
            Some(name) => to_response(Reply::new(OK, Body::Username(name)), Ok(())),
            None => unexpected(),
        },
        _ => unexpected(),
    }
}

/// Plans the patch of the user's own name: the new name has to be a user
/// name before a transaction is opened, the user has to exist, and the user
/// is updated.
pub fn patch_profile(username: &str) -> (plan: Plan)
    ensures
        plan.admitted == is_username(username@),
        plan.steps@ == find_and_write(),
{
    let plan = find_and_write_plan();
    Plan { admitted: valid_username(username), steps: plan.steps }
}

/// The reply to each verdict on the patch of the user's own name.
pub open spec fn patch_profile_outcome(verdict: Verdict) -> ReplyView {
    match verdict {
        Verdict::Refused => invalid_view(BAD_REQUEST, "Failed to validate username"@, "Invalid username"@),
        Verdict::SetupFailed => not_set_up_view(),
        Verdict::Missing { step } => failed_with(NOT_FOUND, "Not found"@, ApiErrorView::General("User not found"@)),
        Verdict::Failed { step, detail } => if step == 0 {
            store_failed_view(INTERNAL_SERVER_ERROR, "Internal server error"@, detail@)
        } else {
            store_failed_view(BAD_REQUEST, "Failed to patch this resource"@, detail@)
        },
        Verdict::Conflict { step, detail } => conflicting_view(CONFLICT, "This username is claimed"@, detail@),
        Verdict::CommitFailed { detail } => store_failed_view(BAD_REQUEST, "This username is claimed"@, detail@),
        Verdict::Done { wrote } => succeeded_with(OK, "Resource patched successfully"@),
        _ => unexpected_view(),
    }
}

/// Words the reply to a verdict on the patch of the user's own name.
pub fn patch_profile_reply(verdict: Verdict) -> (reply: Reply)
    ensures
        reply@ == patch_profile_outcome(verdict),
        reply@.classified(),
        reply@.succeeded() <==> verdict is Done,
{
    match verdict {
        Verdict::Refused => invalid(BAD_REQUEST, "Failed to validate username", "Invalid username"),
        Verdict::SetupFailed => not_set_up(),
        Verdict::Missing { step } => failure(NOT_FOUND, "Not found", ApiError::General("User not found".to_owned())),
        Verdict::Failed { step, detail } => {
            if step == 0 {
                store_failed(INTERNAL_SERVER_ERROR, "Internal server error", detail)
            } else {
                store_failed(BAD_REQUEST, "Failed to patch this resource", detail)
            }
        },
        Verdict::Conflict { step, detail } => conflicting(CONFLICT, "This username is claimed", detail),
        Verdict::CommitFailed { detail } => store_failed(BAD_REQUEST, "This username is claimed", detail),
        Verdict::Done { wrote } => success(OK, "Resource patched successfully"),
        _ => unexpected(),
    }
}

/// A user's name is reported as patched only once the update is committed.
pub proof fn lemma_patched_profile_is_committed(
    plan: Plan,
    before: Seq<usize>,
    events: Seq<Event>,
    verdict: Verdict,
)
    requires
        plan.steps@ == find_and_write(),
        conversation(plan, events),
        outcome(plan, before, events).1 == Action::Respond(verdict),
        patch_profile_outcome(verdict).succeeded(),
    ensures
        outcome(plan, before, events).2.commits == 1,
        outcome(plan, before, events).2.rollbacks == 0,
        outcome(plan, before, events).2.performed.len() > 0,
        outcome(plan, before, events).2.visible == before + outcome(plan, before, events).2.performed,
{
    assert(writes_at(plan.steps@, 1));
    lemma_done_is_committed(plan, before, events);
}

/// What the store says of a failure reaches the log and never the client: two
/// verdicts that differ only in that detail are answered with the same status
/// and the same body.
pub proof fn lemma_profile_details_stay_in_the_log(
    a: Verdict,
    b: Verdict,
    username: Option<Seq<char>>,
)
    requires
        alike(a, b),
    ensures
        get_profile_outcome(a, username).told() == get_profile_outcome(b, username).told(),
        patch_profile_outcome(a).told() == patch_profile_outcome(b).told(),
{
}

} // verus!
