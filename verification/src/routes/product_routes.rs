//! Products: what the public sees of them, and how administrators create,
//! patch and delete them.

use vstd::prelude::*;
use vstd::string::*;
use crate::middleware::logging::{Reply, ReplyView};
use crate::routes::category_routes::{check_new_name, flag_or, name_passes, optional_text, FIND_IMAGE};
use crate::routes::{
    conflicting, conflicting_view, content, content_with, find_and_write, find_and_write_plan, invalid,
    invalid_view, lacking, lacking_view, listing_outcome, listing_reply, not_set_up, not_set_up_view, read_only,
    read_only_plan, store_failed, store_failed_view, succeeded_with, success, unexpected, unexpected_view,
    BAD_REQUEST, CONFLICT, CREATED, INTERNAL_SERVER_ERROR, NOT_FOUND, OK,
};
use crate::text::{naming, worded};
use crate::transaction::{
    alike, conversation, lemma_done_is_committed, outcome, writes_at, Action, Event, Guard, Plan, Step, Verdict,
};
use crate::validation::{is_resource_name, valid_resource_name};

verus! {

/// Plans the creation of a product: its name has to be a resource name
/// before a transaction is opened, the image that it names has to exist,
/// and the product is inserted.
pub fn create_product(name: &str) -> (plan: Plan)
    ensures
        plan.admitted == is_resource_name(name@),
        plan.steps@ == find_and_write(),
{
    let plan = find_and_write_plan();
    Plan { admitted: valid_resource_name(name), steps: plan.steps }
}

/// The two flags that a new product is stored with: featured and available
/// as the request says, and neither where it does not say.
pub fn new_product_flags(is_featured: Option<bool>, is_available: Option<bool>) -> (flags: (bool, bool))
    ensures
        flags.0 == flag_or(is_featured, false),
        flags.1 == flag_or(is_available, false),
{
    (
        match is_featured {
            Some(f) => f,
            None => false,
        },
        match is_available {
            Some(f) => f,
            None => false,
        },
    )
}

/// The reply to each verdict on the creation of a product that names the
/// image `image_id`.
pub open spec fn create_product_outcome(verdict: Verdict, image_id: i32) -> ReplyView {
    match verdict {
        Verdict::Refused => invalid_view(
            BAD_REQUEST,
            "Name length should be at least 3 characters"@,
            "Invalid product name"@,
        ),
        Verdict::SetupFailed => not_set_up_view(),
        Verdict::Missing { step } => lacking_view(NOT_FOUND, naming("Image with id "@, image_id, " not found"@)),
        Verdict::Failed { step, detail } => store_failed_view(
            INTERNAL_SERVER_ERROR,
            "Internal server error"@,
            detail@,
        ),
        Verdict::Conflict { step, detail } => conflicting_view(CONFLICT, "Product already exists"@, detail@),
        Verdict::CommitFailed { detail } => store_failed_view(
            INTERNAL_SERVER_ERROR,
            "Internal server error"@,
            detail@,
        ),
        Verdict::Done { wrote } => succeeded_with(CREATED, "Product created successfully"@),
        _ => unexpected_view(),
    }
}

/// Words the reply to a verdict on the creation of a product.
pub fn create_product_reply(verdict: Verdict, image_id: i32) -> (reply: Reply)
    ensures
        reply@ == create_product_outcome(verdict, image_id),
        reply@.classified(),
        reply@.succeeded() <==> verdict is Done,
{
    match verdict {
        Verdict::Refused => invalid(
            BAD_REQUEST,
            "Name length should be at least 3 characters",
            "Invalid product name",
        ),
        Verdict::SetupFailed => not_set_up(),
        Verdict::Missing { step } => lacking(NOT_FOUND, worded("Image with id ", image_id, " not found")),
        Verdict::Failed { step, detail } => store_failed(INTERNAL_SERVER_ERROR, "Internal server error", detail),
        Verdict::Conflict { step, detail } => conflicting(CONFLICT, "Product already exists", detail),
        Verdict::CommitFailed { detail } => store_failed(INTERNAL_SERVER_ERROR, "Internal server error", detail),
        Verdict::Done { wrote } => success(CREATED, "Product created successfully"),
        _ => unexpected(),
    }
}

/// The steps of patching a product: the product has to exist, a new name
/// has to be a resource name, a new image and a new category have to exist,
/// and the product is updated.
pub open spec fn patch_product_steps(name_passes: bool, has_image: bool, has_category: bool) -> Seq<Step> {
    let head = seq![Step::Read { must_exist: true, must_succeed: true }, Step::Check { passed: name_passes }];
    let image = if has_image {
        seq![Step::Read { must_exist: true, must_succeed: true }]
    } else {
        Seq::<Step>::empty()
    };
    let category = if has_category {
        seq![Step::Read { must_exist: true, must_succeed: true }]
    } else {
        Seq::<Step>::empty()
    };
    head + image + category + seq![Step::Write { when: Guard::Always }]
}

/// Plans the patch of a product.
pub fn patch_product(name: Option<&str>, image_id: Option<i32>, category_id: Option<i32>) -> (plan: Plan)
    ensures
        plan.admitted,
        plan.steps@ == patch_product_steps(
            name_passes(optional_text(name)),
            image_id is Some,
            category_id is Some,
        ),
{
    let mut steps: Vec<Step> = Vec::new();
    steps.push(Step::Read { must_exist: true, must_succeed: true });
    steps.push(Step::Check { passed: check_new_name(name) });
    if image_id.is_some() {
        steps.push(Step::Read { must_exist: true, must_succeed: true });
    }
    if category_id.is_some() {
        steps.push(Step::Read { must_exist: true, must_succeed: true });
    }
    steps.push(Step::Write { when: Guard::Always });
    assert(steps@ =~= patch_product_steps(
        name_passes(optional_text(name)),
        image_id is Some,
        category_id is Some,
    ));
    Plan { admitted: true, steps }
}

/// The step at which the patch of a product asks for its new category.
pub open spec fn category_step(has_image: bool) -> usize {
    if has_image {
        3
    } else {
        2
    }
}

/// The reply to each verdict on the patch of the product `id`.
pub open spec fn patch_product_outcome(
    verdict: Verdict,
    id: i32,
    image_id: Option<i32>,
    category_id: Option<i32>,
) -> ReplyView {
    match verdict {
        Verdict::SetupFailed => not_set_up_view(),
        Verdict::Missing { step } => if image_id is Some && step == FIND_IMAGE {
            invalid_view(
                BAD_REQUEST,
                naming("No image with "@, image_id->0, " id was found"@),
                naming("No image with "@, image_id->0, " id was found"@),
            )
        } else if category_id is Some && step == category_step(image_id is Some) {
            invalid_view(
                BAD_REQUEST,
                naming("No category with "@, category_id->0, " id was found"@),
                naming("No category with "@, category_id->0, " id was found"@),
            )
        } else {
            lacking_view(BAD_REQUEST, naming("No image with "@, id, " id was found."@))
        },
        Verdict::Rejected { step } => invalid_view(
            BAD_REQUEST,
            "Name length should be at least 3 characters"@,
            "Invalid product name"@,
        ),
        Verdict::Failed { step, detail } => if step == 0 {
            store_failed_view(INTERNAL_SERVER_ERROR, "Internal server error."@, detail@)
        } else if image_id is Some && step == FIND_IMAGE {
            store_failed_view(BAD_REQUEST, naming("No image with "@, image_id->0, " id was found"@), detail@)
        } else if category_id is Some && step == category_step(image_id is Some) {
            store_failed_view(
                BAD_REQUEST,
                naming("No category with "@, category_id->0, " id was found"@),
                detail@,
            )
        } else {
            store_failed_view(BAD_REQUEST, "Failed to patch this resource"@, detail@)
        },
        Verdict::Conflict { step, detail } => conflicting_view(CONFLICT, "Product already exists"@, detail@),
        Verdict::CommitFailed { detail } => store_failed_view(
            INTERNAL_SERVER_ERROR,
            "Internal server error"@,
            detail@,
        ),
        Verdict::Done { wrote } => succeeded_with(OK, "Resource patched successfully."@),
        _ => unexpected_view(),
    }
}

fn patch_product_missing(step: usize, id: i32, image_id: Option<i32>, category_id: Option<i32>) -> (reply: Reply)
    ensures
        reply@ == patch_product_outcome(Verdict::Missing { step }, id, image_id, category_id),
{
    match image_id {
        Some(image) => {
            if step == FIND_IMAGE {
                let text = worded("No image with ", image, " id was found");
                return invalid(BAD_REQUEST, text.as_str(), text.as_str());
            }
        },
        None => {},
    }
    let asked: usize = if image_id.is_some() {
        3
    } else {
        2
    };
    match category_id {
        Some(category) => {
            if step == asked {
                let text = worded("No category with ", category, " id was found");
                return invalid(BAD_REQUEST, text.as_str(), text.as_str());
            }
        },
        None => {},
    }
    lacking(BAD_REQUEST, worded("No image with ", id, " id was found."))
}

fn patch_product_store_failed(
    step: usize,
    detail: String,
    image_id: Option<i32>,
    category_id: Option<i32>,
) -> (reply: Reply)
    ensures
        reply@ == patch_product_outcome(Verdict::Failed { step, detail }, 0, image_id, category_id),
{
    if step == 0 {
        return store_failed(INTERNAL_SERVER_ERROR, "Internal server error.", detail);
    }
    match image_id {
        Some(image) => {
            if step == 2 {
                let text = worded("No image with ", image, " id was found");
                return store_failed(BAD_REQUEST, text.as_str(), detail);
            }
        },
        None => {},
    }
    let asked: usize = if image_id.is_some() {
        3
    } else {
        2
    };
    match category_id {
        Some(category) => {
            if step == asked {
                let text = worded("No category with ", category, " id was found");
                return store_failed(BAD_REQUEST, text.as_str(), detail);
            }
        },
        None => {},
    }
    store_failed(BAD_REQUEST, "Failed to patch this resource", detail)
}

/// Words the reply to a verdict on the patch of the product `id`.
pub fn patch_product_reply(verdict: Verdict, id: i32, image_id: Option<i32>, category_id: Option<i32>) -> (reply:
    Reply)
    ensures
        reply@ == patch_product_outcome(verdict, id, image_id, category_id),
        reply@.classified(),
        reply@.succeeded() <==> verdict is Done,
{
    match verdict {
        Verdict::SetupFailed => not_set_up(),
        Verdict::Missing { step } => patch_product_missing(step, id, image_id, category_id),
        Verdict::Rejected { step } => invalid(
            BAD_REQUEST,
            "Name length should be at least 3 characters",
            "Invalid product name",
        ),
        Verdict::Failed { step, detail } => patch_product_store_failed(step, detail, image_id, category_id),
        Verdict::Conflict { step, detail } => conflicting(CONFLICT, "Product already exists", detail),
        Verdict::CommitFailed { detail } => store_failed(INTERNAL_SERVER_ERROR, "Internal server error", detail),
        Verdict::Done { wrote } => success(OK, "Resource patched successfully."),
        _ => unexpected(),
    }
}

/// Plans the deletion of a product: it has to exist, and it is deleted.
pub fn delete_product() -> (plan: Plan)
    ensures
        plan.admitted,
        plan.steps@ == find_and_write(),
{
    find_and_write_plan()
}

/// The reply to each verdict on the deletion of the product `id`.
pub open spec fn delete_product_outcome(verdict: Verdict, id: i32) -> ReplyView {
    match verdict {
        Verdict::SetupFailed => not_set_up_view(),
        Verdict::Missing { step } => lacking_view(BAD_REQUEST, naming("No image with "@, id, " id was found."@)),
        Verdict::Failed { step, detail } => if step == 0 {
            store_failed_view(INTERNAL_SERVER_ERROR, "Internal server error."@, detail@)
        } else {
            store_failed_view(BAD_REQUEST, "Failed to delete this resource"@, detail@)
        },
        Verdict::Conflict { step, detail } => conflicting_view(
            BAD_REQUEST,
            "Failed to delete this resource"@,
            detail@,
        ),
        Verdict::CommitFailed { detail } => store_failed_view(
            INTERNAL_SERVER_ERROR,
            "Internal server error"@,
            detail@,
        ),
        Verdict::Done { wrote } => succeeded_with(OK, "Resource deleted successfully."@),
        _ => unexpected_view(),
    }
}

/// Words the reply to a verdict on the deletion of the product `id`.
pub fn delete_product_reply(verdict: Verdict, id: i32) -> (reply: Reply)
    ensures
        reply@ == delete_product_outcome(verdict, id),
        reply@.classified(),
        reply@.succeeded() <==> verdict is Done,
{
    match verdict {
        Verdict::SetupFailed => not_set_up(),
        Verdict::Missing { step } => lacking(BAD_REQUEST, worded("No image with ", id, " id was found.")),
        Verdict::Failed { step, detail } => {
            if step == 0 {
                store_failed(INTERNAL_SERVER_ERROR, "Internal server error.", detail)
            } else {
                store_failed(BAD_REQUEST, "Failed to delete this resource", detail)
            }
        },
        Verdict::Conflict { step, detail } => conflicting(BAD_REQUEST, "Failed to delete this resource", detail),
        Verdict::CommitFailed { detail } => store_failed(INTERNAL_SERVER_ERROR, "Internal server error", detail),
        Verdict::Done { wrote } => success(OK, "Resource deleted successfully."),
        _ => unexpected(),
    }
}

/// Plans the reading of one available product, which has to exist.
pub fn get_product() -> (plan: Plan)
    ensures
        plan.admitted,
        plan.steps@ == read_only(true),
{
    read_only_plan(true)
}

/// The reply to each verdict on the reading of the product `id`.
pub open spec fn get_product_outcome(verdict: Verdict, id: i32) -> ReplyView {
    match verdict {
        Verdict::SetupFailed => not_set_up_view(),
        Verdict::Missing { step } => lacking_view(BAD_REQUEST, naming("No product with "@, id, " id was found."@)),
        Verdict::Failed { step, detail } => store_failed_view(
            INTERNAL_SERVER_ERROR,
            "Internal server error."@,
            detail@,
        ),
        Verdict::Done { wrote } => content_with(OK),
        _ => unexpected_view(),
    }
}

/// Words the reply to a verdict on the reading of the product `id`.
pub fn get_product_reply(verdict: Verdict, id: i32) -> (reply: Reply)
    ensures
        reply@ == get_product_outcome(verdict, id),
        reply@.classified(),
        reply@.succeeded() <==> verdict is Done,
{
    match verdict {
        Verdict::SetupFailed => not_set_up(),
        Verdict::Missing { step } => lacking(BAD_REQUEST, worded("No product with ", id, " id was found.")),
        Verdict::Failed { step, detail } => store_failed(INTERNAL_SERVER_ERROR, "Internal server error.", detail),
        Verdict::Done { wrote } => content(OK),
        _ => unexpected(),
    }
}

/// Plans the listing of the products that the public sees.
pub fn get_products() -> (plan: Plan)
    ensures
        plan.admitted,
        plan.steps@ == read_only(false),
{
    read_only_plan(false)
}

/// Words the reply to a verdict on the public listing of products.
pub fn get_products_reply(verdict: Verdict) -> (reply: Reply)
    ensures
        reply@ == listing_outcome(verdict, "Internal server error"@),
        reply@.classified(),
        reply@.succeeded() <==> verdict is Done,
{
    listing_reply(verdict, "Internal server error")
}

/// Plans the listing of all products for an administrator.
pub fn admin_get_products() -> (plan: Plan)
    ensures
        plan.admitted,
        plan.steps@ == read_only(false),
{
    read_only_plan(false)
}

/// Words the reply to a verdict on the listing of all products.
pub fn admin_get_products_reply(verdict: Verdict) -> (reply: Reply)
    ensures
        reply@ == listing_outcome(verdict, "Internal server error"@),
        reply@.classified(),
        reply@.succeeded() <==> verdict is Done,
{
    listing_reply(verdict, "Internal server error")
}

/// A product is reported as created only once its insertion is committed.
pub proof fn lemma_created_product_is_committed(
    plan: Plan,
    before: Seq<usize>,
    events: Seq<Event>,
    verdict: Verdict,
    image_id: i32,
)
    requires
        plan.steps@ == find_and_write(),
        conversation(plan, events),
        outcome(plan, before, events).1 == Action::Respond(verdict),
        create_product_outcome(verdict, image_id).succeeded(),
    ensures
        outcome(plan, before, events).2.commits == 1,
        outcome(plan, before, events).2.rollbacks == 0,
        outcome(plan, before, events).2.performed.len() > 0,
        outcome(plan, before, events).2.visible == before + outcome(plan, before, events).2.performed,
{
    assert(writes_at(plan.steps@, 1));
    lemma_done_is_committed(plan, before, events);
}

/// A product is reported as patched only once its update is committed.
pub proof fn lemma_patched_product_is_committed(
    plan: Plan,
    before: Seq<usize>,
    events: Seq<Event>,
    verdict: Verdict,
    id: i32,
    name_passes: bool,
    image_id: Option<i32>,
    category_id: Option<i32>,
)
    requires
        plan.steps@ == patch_product_steps(name_passes, image_id is Some, category_id is Some),
        conversation(plan, events),
        outcome(plan, before, events).1 == Action::Respond(verdict),
        patch_product_outcome(verdict, id, image_id, category_id).succeeded(),
    ensures
        outcome(plan, before, events).2.commits == 1,
        outcome(plan, before, events).2.rollbacks == 0,
        outcome(plan, before, events).2.performed.len() > 0,
        outcome(plan, before, events).2.visible == before + outcome(plan, before, events).2.performed,
{
    assert(writes_at(plan.steps@, plan.steps@.len() - 1));
    lemma_done_is_committed(plan, before, events);
}

/// A product is reported as deleted only once its deletion is committed.
pub proof fn lemma_deleted_product_is_committed(
    plan: Plan,
    before: Seq<usize>,
    events: Seq<Event>,
    verdict: Verdict,
    id: i32,
)
    requires
        plan.steps@ == find_and_write(),
        conversation(plan, events),
        outcome(plan, before, events).1 == Action::Respond(verdict),
        delete_product_outcome(verdict, id).succeeded(),
    ensures
        outcome(plan, before, events).2.commits == 1,
        outcome(plan, before, events).2.rollbacks == 0,
        outcome(plan, before, events).2.performed.len() > 0,
        outcome(plan, before, events).2.visible == before + outcome(plan, before, events).2.performed,
{
    assert(writes_at(plan.steps@, 1));
    lemma_done_is_committed(plan, before, events);
}

/// What the store says of a failure reaches the log and never the client: two
/// verdicts that differ only in that detail are answered with the same status
/// and the same body.
pub proof fn lemma_product_details_stay_in_the_log(
    a: Verdict,
    b: Verdict,
    id: i32,
    image_id: Option<i32>,
    category_id: Option<i32>,
)
    requires
        alike(a, b),
    ensures
        create_product_outcome(a, id).told() == create_product_outcome(b, id).told(),
        patch_product_outcome(a, id, image_id, category_id).told() == patch_product_outcome(b, id, image_id, category_id).told(),
        delete_product_outcome(a, id).told() == delete_product_outcome(b, id).told(),
        get_product_outcome(a, id).told() == get_product_outcome(b, id).told(),
{
}

} // verus!
