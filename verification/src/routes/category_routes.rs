//! Categories: what the public sees of them, and how administrators create,
//! patch and delete them.

use vstd::prelude::*;
use vstd::string::*;
use crate::entities::category::{Model, ModelView};
use crate::middleware::logging::{Reply, ReplyView};
use crate::routes::{
    conflicting, conflicting_view, content, content_with, find_and_write, find_and_write_plan, invalid,
    invalid_view, lacking, lacking_view, listing_outcome, listing_reply, not_set_up, not_set_up_view, read_only,
    read_only_plan, store_failed, store_failed_view, succeeded_with, success, unexpected, unexpected_view,
    BAD_REQUEST, CONFLICT, CREATED, INTERNAL_SERVER_ERROR, NOT_FOUND, OK,
};
use crate::text::{naming, worded};
use crate::transaction::{
    alike, conversation, lemma_done_is_committed, outcome, writes_at, Action, Event, Guard, Plan, Step, Verdict,
};
use crate::validation::{is_resource_name, valid_resource_name};

verus! {

/// What the public sees of a category.
#[derive(Debug)]
pub struct PublicCategoryResponse {
    pub id: i32,
    pub name: String,
    pub image_id: Option<i32>,
}

/// The mathematical content of a category as the public sees it.
pub struct PublicCategoryView {
    pub id: i32,
    pub name: Seq<char>,
    pub image_id: Option<i32>,
}

impl View for PublicCategoryResponse {
    type V = PublicCategoryView;

    open spec fn view(&self) -> PublicCategoryView {
        PublicCategoryView { id: self.id, name: self.name@, image_id: self.image_id }
    }
}

impl PublicCategoryResponse {
    /// Keeps of a category what the public may see: its identifier, its name
    /// and its image.
    pub fn new(value: Model) -> (response: PublicCategoryResponse)
        ensures
            response@ == (PublicCategoryView { id: value.id, name: value.name@, image_id: value.image_id }),
    {
        PublicCategoryResponse { id: value.id, name: value.name, image_id: value.image_id }
    }
}

/// A category in a public listing.
#[derive(Debug)]
pub struct CategoryResponse {
    pub id: i32,
    pub name: String,
    pub image_id: Option<i32>,
}

impl View for CategoryResponse {
    type V = PublicCategoryView;

    open spec fn view(&self) -> PublicCategoryView {
        PublicCategoryView { id: self.id, name: self.name@, image_id: self.image_id }
    }
}

impl CategoryResponse {
    /// Keeps of a category what a listing shows: its identifier, its name
    /// and its image.
    pub fn new(value: Model) -> (response: CategoryResponse)
        ensures
            response@ == (PublicCategoryView { id: value.id, name: value.name@, image_id: value.image_id }),
    {
        CategoryResponse { id: value.id, name: value.name, image_id: value.image_id }
    }
}

/// What the public sees of each category of a list, in the same order.
pub fn public_listing(categories: &Vec<Model>) -> (listing: Vec<PublicCategoryResponse>)
    ensures
        listing.len() == categories.len(),
        forall|i: int|
            0 <= i < categories.len() ==> (#[trigger] listing[i])@ == (PublicCategoryView {
                id: categories[i].id,
                name: categories[i].name@,
                image_id: categories[i].image_id,
            }),
{
    let mut listing: Vec<PublicCategoryResponse> = Vec::new();
    let mut i: usize = 0;
    while i < categories.len()
        invariant
            i <= categories.len(),
            listing.len() == i,
            forall|k: int|
                0 <= k < i ==> (#[trigger] listing[k])@ == (PublicCategoryView {
                    id: categories[k].id,
                    name: categories[k].name@,
                    image_id: categories[k].image_id,
                }),
        decreases categories.len() - i,
    {
        let category = &categories[i];
        listing.push(
            PublicCategoryResponse::new(
                Model {
                    id: category.id,
                    name: category.name.clone(),
                    image_id: category.image_id,
                    is_featured: category.is_featured,
                    is_available: category.is_available,
                },
            ),
        );
        i += 1;
    }
    listing
}

/// A category that is about to be stored: everything but the identifier,
/// which the store gives.
#[derive(Debug)]
pub struct NewCategory {
    pub name: String,
    pub image_id: Option<i32>,
    pub is_featured: bool,
    pub is_available: bool,
}

/// The mathematical content of a category that is about to be stored.
pub struct NewCategoryView {
    pub name: Seq<char>,
    pub image_id: Option<i32>,
    pub is_featured: bool,
    pub is_available: bool,
}

impl View for NewCategory {
    type V = NewCategoryView;

    open spec fn view(&self) -> NewCategoryView {
        NewCategoryView {
            name: self.name@,
            image_id: self.image_id,
            is_featured: self.is_featured,
            is_available: self.is_available,
        }
    }
}

/// Whether a new category is featured, where the request does not say: it
/// is not.
pub const FEATURED_BY_DEFAULT: bool = false;

/// Whether a new category is available, where the request does not say: it
/// is.
pub const AVAILABLE_BY_DEFAULT: bool = true;

/// What a flag of the request stands for: itself, or the default where it
/// is not given.
pub open spec fn flag_or(flag: Option<bool>, default: bool) -> bool {
    match flag {
        Some(f) => f,
        None => default,
    }
}

/// The record to store for a new category: its name and image as the
/// request gives them, and its two flags as the request gives them or, where
/// it does not, not featured and available.
pub fn new_category(name: &str, image_id: Option<i32>, is_featured: Option<bool>, is_available: Option<bool>) -> (category:
    NewCategory)
    ensures
        category@ == (NewCategoryView {
            name: name@,
            image_id,
            is_featured: flag_or(is_featured, FEATURED_BY_DEFAULT),
            is_available: flag_or(is_available, AVAILABLE_BY_DEFAULT),
        }),
{
    NewCategory {
        name: name.to_owned(),
        image_id,
        is_featured: match is_featured {
            Some(f) => f,
            None => FEATURED_BY_DEFAULT,
        },
        is_available: match is_available {
            Some(f) => f,
            None => AVAILABLE_BY_DEFAULT,
        },
    }
}

/// The category `stored` after a patch: each of name, image and the two
/// flags is the new one where the patch holds one, and the stored one
/// otherwise. The identifier stays.
pub open spec fn patched_category_view(
    stored: ModelView,
    name: Option<Seq<char>>,
    image_id: Option<i32>,
    is_featured: Option<bool>,
    is_available: Option<bool>,
) -> ModelView {
    ModelView {
        id: stored.id,
        name: match name {
            Some(n) => n,
            None => stored.name,
        },
        image_id: match image_id {
            Some(i) => Some(i),
            None => stored.image_id,
        },
        is_featured: flag_or(is_featured, stored.is_featured),
        is_available: flag_or(is_available, stored.is_available),
    }
}

/// The content of an optional name.
pub open spec fn given_name(name: Option<String>) -> Option<Seq<char>> {
    match name {
        Some(n) => Some(n@),
        None => None,
    }
}

/// The record to store for a patched category.
pub fn patched_category(
    stored: Model,
    name: Option<String>,
    image_id: Option<i32>,
    is_featured: Option<bool>,
    is_available: Option<bool>,
) -> (category: Model)
    ensures
        category@ == patched_category_view(stored@, given_name(name), image_id, is_featured, is_available),
{
    Model {
        id: stored.id,
        name: match name {
            Some(n) => n,
            None => stored.name,
        },
        image_id: match image_id {
            Some(i) => Some(i),
            None => stored.image_id,
        },
        is_featured: match is_featured {
            Some(f) => f,
            None => stored.is_featured,
        },
        is_available: match is_available {
            Some(f) => f,
            None => stored.is_available,
        },
    }
}

/// The steps of creating a category: the image that it names has to exist,
/// and the category is inserted.
pub open spec fn create_category_steps(has_image: bool) -> Seq<Step> {
    if has_image {
        find_and_write()
    } else {
        seq![Step::Write { when: Guard::Always }]
    }
}

/// Plans the creation of a category. The name has to be a resource name
/// before a transaction is opened.
pub fn create_category(name: &str, image_id: Option<i32>) -> (plan: Plan)
    ensures
        plan.admitted == is_resource_name(name@),
        plan.steps@ == create_category_steps(image_id is Some),
{
    let admitted = valid_resource_name(name);
    match image_id {
        Some(_) => {
            let plan = find_and_write_plan();
            Plan { admitted, steps: plan.steps }
        },
        None => {
            let mut steps: Vec<Step> = Vec::new();
            steps.push(Step::Write { when: Guard::Always });
            assert(steps@ =~= create_category_steps(false));
            Plan { admitted, steps }
        },
    }
}

/// The reply to each verdict on the creation of a category.
pub open spec fn create_category_outcome(verdict: Verdict, image_id: Option<i32>) -> ReplyView {
    match verdict {
        Verdict::Refused => invalid_view(
            BAD_REQUEST,
            "Category name should be at least 3 characters long"@,
            "Invalid category name"@,
        ),
        Verdict::SetupFailed => not_set_up_view(),
        Verdict::Missing { step } => match image_id {
            Some(id) => invalid_view(
                NOT_FOUND,
                naming("Image with id "@, id, " not found"@),
                naming("Image with id "@, id, " not found"@),
            ),
            None => unexpected_view(),
        },
        Verdict::Failed { step, detail } => store_failed_view(
            INTERNAL_SERVER_ERROR,
            "Internal server error"@,
            detail@,
        ),
        Verdict::Conflict { step, detail } => conflicting_view(CONFLICT, "Category already exists"@, detail@),
        Verdict::CommitFailed { detail } => store_failed_view(
            INTERNAL_SERVER_ERROR,
            "Internal server error"@,
            detail@,
        ),
        Verdict::Done { wrote } => succeeded_with(CREATED, "Category created successfully"@),
        _ => unexpected_view(),
    }
}

/// Words the reply to a verdict on the creation of a category that names
/// the image `image_id`.
pub fn create_category_reply(verdict: Verdict, image_id: Option<i32>) -> (reply: Reply)
    ensures
        reply@ == create_category_outcome(verdict, image_id),
        reply@.classified(),
        reply@.succeeded() <==> verdict is Done,
{
    match verdict {
        Verdict::Refused => invalid(
            BAD_REQUEST,
            "Category name should be at least 3 characters long",
            "Invalid category name",
        ),
        Verdict::SetupFailed => not_set_up(),
        Verdict::Missing { step } => match image_id {
            Some(id) => {
                let text = worded("Image with id ", id, " not found");
                invalid(NOT_FOUND, text.as_str(), text.as_str())
            },
            None => unexpected(),
        },
        Verdict::Failed { step, detail } => store_failed(INTERNAL_SERVER_ERROR, "Internal server error", detail),
        Verdict::Conflict { step, detail } => conflicting(CONFLICT, "Category already exists", detail),
        Verdict::CommitFailed { detail } => store_failed(INTERNAL_SERVER_ERROR, "Internal server error", detail),
        Verdict::Done { wrote } => success(CREATED, "Category created successfully"),
        _ => unexpected(),
    }
}

/// The step at which the patch of a category or of a product asks for the
/// image that it names.
pub const FIND_IMAGE: usize = 2;

/// The steps of patching a category: the category has to exist, a new name
/// has to be a resource name, a new image has to exist, and the category is
/// updated.
pub open spec fn patch_category_steps(name_passes: bool, has_image: bool) -> Seq<Step> {
    let head = seq![Step::Read { must_exist: true, must_succeed: true }, Step::Check { passed: name_passes }];
    let lookup = if has_image {
        seq![Step::Read { must_exist: true, must_succeed: true }]
    } else {
        Seq::<Step>::empty()
    };
    head + lookup + seq![Step::Write { when: Guard::Always }]
}

/// Whether an optional new name is acceptable: none is, and a resource name is.
pub open spec fn name_passes(name: Option<Seq<char>>) -> bool {
    match name {
        Some(n) => is_resource_name(n),
        None => true,
    }
}

/// The content of an optional text.
pub open spec fn optional_text(text: Option<&str>) -> Option<Seq<char>> {
    match text {
        Some(t) => Some(t@),
        None => None,
    }
}

/// Whether an optional new name is acceptable.
pub fn check_new_name(name: Option<&str>) -> (passes: bool)
    ensures
        passes == name_passes(optional_text(name)),
{
    match name {
        Some(n) => valid_resource_name(n),
        None => true,
    }
}

/// Plans the patch of a category.
pub fn patch_category(name: Option<&str>, image_id: Option<i32>) -> (plan: Plan)
    ensures
        plan.admitted,
        plan.steps@ == patch_category_steps(name_passes(optional_text(name)), image_id is Some),
{
    let mut steps: Vec<Step> = Vec::new();
    steps.push(Step::Read { must_exist: true, must_succeed: true });
    steps.push(Step::Check { passed: check_new_name(name) });
    if image_id.is_some() {
        steps.push(Step::Read { must_exist: true, must_succeed: true });
    }
    steps.push(Step::Write { when: Guard::Always });
    assert(steps@ =~= patch_category_steps(name_passes(optional_text(name)), image_id is Some));
    Plan { admitted: true, steps }
}

/// The reply to each verdict on the patch of the category `id`.
pub open spec fn patch_category_outcome(verdict: Verdict, id: i32, image_id: Option<i32>) -> ReplyView {
    match verdict {
        Verdict::SetupFailed => not_set_up_view(),
        Verdict::Missing { step } => if image_id is Some && step == FIND_IMAGE {
            invalid_view(
                BAD_REQUEST,
                naming("No image with "@, image_id->0, " id was found"@),
                naming("No image with "@, image_id->0, " id was found"@),
            )
        } else {
            lacking_view(BAD_REQUEST, naming("No image with "@, id, " id was found."@))
        },
        Verdict::Rejected { step } => invalid_view(
            BAD_REQUEST,
            "Category name should be at least 3 characters long"@,
            "Invalid category name"@,
        ),
        Verdict::Failed { step, detail } => if step == 0 {
            store_failed_view(INTERNAL_SERVER_ERROR, "Internal server error."@, detail@)
        } else if image_id is Some && step == FIND_IMAGE {
            store_failed_view(BAD_REQUEST, naming("No image with "@, image_id->0, " id was found"@), detail@)
        } else {
            store_failed_view(BAD_REQUEST, "Failed to patch this resource"@, detail@)
        },
        Verdict::Conflict { step, detail } => conflicting_view(CONFLICT, "Category already exists"@, detail@),
        Verdict::CommitFailed { detail } => store_failed_view(
            INTERNAL_SERVER_ERROR,
            "Internal servere error"@,
            detail@,
        ),
        Verdict::Done { wrote } => succeeded_with(OK, "Resource patched successfully."@),
        _ => unexpected_view(),
    }
}

/// Words the reply to a verdict on the patch of the category `id`.
pub fn patch_category_reply(verdict: Verdict, id: i32, image_id: Option<i32>) -> (reply: Reply)
    ensures
        reply@ == patch_category_outcome(verdict, id, image_id),
        reply@.classified(),
        reply@.succeeded() <==> verdict is Done,
{
    match verdict {
        Verdict::SetupFailed => not_set_up(),
        Verdict::Missing { step } => match image_id {
            Some(image) => {
                if step == FIND_IMAGE {
                    let text = worded("No image with ", image, " id was found");
                    invalid(BAD_REQUEST, text.as_str(), text.as_str())
                } else {
                    lacking(BAD_REQUEST, worded("No image with ", id, " id was found."))
                }
            },
            None => lacking(BAD_REQUEST, worded("No image with ", id, " id was found.")),
        },
        Verdict::Rejected { step } => invalid(
            BAD_REQUEST,
            "Category name should be at least 3 characters long",
            "Invalid category name",
        ),
        Verdict::Failed { step, detail } => {
            if step == 0 {
                store_failed(INTERNAL_SERVER_ERROR, "Internal server error.", detail)
            } else {
                match image_id {
                    Some(image) => {
                        if step == FIND_IMAGE {
                            let text = worded("No image with ", image, " id was found");
                            store_failed(BAD_REQUEST, text.as_str(), detail)
                        } else {
                            store_failed(BAD_REQUEST, "Failed to patch this resource", detail)
                        }
                    },
                    None => store_failed(BAD_REQUEST, "Failed to patch this resource", detail),
                }
            }
        },
        Verdict::Conflict { step, detail } => conflicting(CONFLICT, "Category already exists", detail),
        Verdict::CommitFailed { detail } => store_failed(INTERNAL_SERVER_ERROR, "Internal servere error", detail),
        Verdict::Done { wrote } => success(OK, "Resource patched successfully."),
        _ => unexpected(),
    }
}

/// Plans the deletion of a category: it has to exist, and it is deleted.
pub fn delete_category() -> (plan: Plan)
    ensures
        plan.admitted,
        plan.steps@ == find_and_write(),
{
    find_and_write_plan()
}

/// The reply to each verdict on the deletion of the category `id`.
pub open spec fn delete_category_outcome(verdict: Verdict, id: i32) -> ReplyView {
    match verdict {
        Verdict::SetupFailed => not_set_up_view(),
        Verdict::Missing { step } => lacking_view(BAD_REQUEST, naming("No image with "@, id, " id was found."@)),
        Verdict::Failed { step, detail } => if step == 0 {
            store_failed_view(INTERNAL_SERVER_ERROR, "Internal server error."@, detail@)
        } else {
            store_failed_view(BAD_REQUEST, "Failed to delete this resource"@, detail@)
        },
        Verdict::Conflict { step, detail } => conflicting_view(
            BAD_REQUEST,
            "Failed to delete this resource"@,
            detail@,
        ),
        Verdict::CommitFailed { detail } => store_failed_view(
            INTERNAL_SERVER_ERROR,
            "Internal server error"@,
            detail@,
        ),
        Verdict::Done { wrote } => succeeded_with(OK, "Resource deleted successfully."@),
        _ => unexpected_view(),
    }
}

/// Words the reply to a verdict on the deletion of the category `id`.
pub fn delete_category_reply(verdict: Verdict, id: i32) -> (reply: Reply)
    ensures
        reply@ == delete_category_outcome(verdict, id),
        reply@.classified(),
        reply@.succeeded() <==> verdict is Done,
{
    match verdict {
        Verdict::SetupFailed => not_set_up(),
        Verdict::Missing { step } => lacking(BAD_REQUEST, worded("No image with ", id, " id was found.")),
        Verdict::Failed { step, detail } => {
            if step == 0 {
                store_failed(INTERNAL_SERVER_ERROR, "Internal server error.", detail)
            } else {
                store_failed(BAD_REQUEST, "Failed to delete this resource", detail)
            }
        },
        Verdict::Conflict { step, detail } => conflicting(BAD_REQUEST, "Failed to delete this resource", detail),
        Verdict::CommitFailed { detail } => store_failed(INTERNAL_SERVER_ERROR, "Internal server error", detail),
        Verdict::Done { wrote } => success(OK, "Resource deleted successfully."),
        _ => unexpected(),
    }
}

/// Plans the reading of one available category, which has to exist.
pub fn get_category() -> (plan: Plan)
    ensures
        plan.admitted,
        plan.steps@ == read_only(true),
{
    read_only_plan(true)
}

/// The reply to each verdict on the reading of the category `id`.
pub open spec fn get_category_outcome(verdict: Verdict, id: i32) -> ReplyView {
    match verdict {
        Verdict::SetupFailed => not_set_up_view(),
        Verdict::Missing { step } => lacking_view(NOT_FOUND, naming("No category with "@, id, " id was found."@)),
        Verdict::Failed { step, detail } => store_failed_view(
            INTERNAL_SERVER_ERROR,
            "Internal server error."@,
            detail@,
        ),
        Verdict::Done { wrote } => content_with(OK),
        _ => unexpected_view(),
    }
}

/// Words the reply to a verdict on the reading of the category `id`.
pub fn get_category_reply(verdict: Verdict, id: i32) -> (reply: Reply)
    ensures
        reply@ == get_category_outcome(verdict, id),
        reply@.classified(),
        reply@.succeeded() <==> verdict is Done,
{
    match verdict {
        Verdict::SetupFailed => not_set_up(),
        Verdict::Missing { step } => lacking(NOT_FOUND, worded("No category with ", id, " id was found.")),
        Verdict::Failed { step, detail } => store_failed(INTERNAL_SERVER_ERROR, "Internal server error.", detail),
        Verdict::Done { wrote } => content(OK),
        _ => unexpected(),
    }
}

/// Plans the listing of the available categories.
pub fn get_categories() -> (plan: Plan)
    ensures
        plan.admitted,
        plan.steps@ == read_only(false),
{
    read_only_plan(false)
}

/// Words the reply to a verdict on the listing of the available categories.
pub fn get_categories_reply(verdict: Verdict) -> (reply: Reply)
    ensures
        reply@ == listing_outcome(verdict, "Internal server error."@),
        reply@.classified(),
        reply@.succeeded() <==> verdict is Done,
{
    listing_reply(verdict, "Internal server error.")
}

/// Plans the listing of all categories for an administrator.
pub fn admin_get_categories() -> (plan: Plan)
    ensures
        plan.admitted,
        plan.steps@ == read_only(false),
{
    read_only_plan(false)
}

/// Words the reply to a verdict on the listing of all categories.
pub fn admin_get_categories_reply(verdict: Verdict) -> (reply: Reply)
    ensures
        reply@ == listing_outcome(verdict, "Internal server error"@),
        reply@.classified(),
        reply@.succeeded() <==> verdict is Done,
{
    listing_reply(verdict, "Internal server error")
}

/// A category is reported as created only once its insertion is committed.
pub proof fn lemma_created_category_is_committed(
    plan: Plan,
    before: Seq<usize>,
    events: Seq<Event>,
    verdict: Verdict,
    image_id: Option<i32>,
)
    requires
        plan.steps@ == create_category_steps(image_id is Some),
        conversation(plan, events),
        outcome(plan, before, events).1 == Action::Respond(verdict),
        create_category_outcome(verdict, image_id).succeeded(),
    ensures
        outcome(plan, before, events).2.commits == 1,
        outcome(plan, before, events).2.rollbacks == 0,
        outcome(plan, before, events).2.performed.len() > 0,
        outcome(plan, before, events).2.visible == before + outcome(plan, before, events).2.performed,
{
    assert(writes_at(plan.steps@, if image_id is Some { 1int } else { 0int }));
    lemma_done_is_committed(plan, before, events);
}

/// A category is reported as patched only once its update is committed.
pub proof fn lemma_patched_category_is_committed(
    plan: Plan,
    before: Seq<usize>,
    events: Seq<Event>,
    verdict: Verdict,
    id: i32,
    name_passes: bool,
    image_id: Option<i32>,
)
    requires
        plan.steps@ == patch_category_steps(name_passes, image_id is Some),
        conversation(plan, events),
        outcome(plan, before, events).1 == Action::Respond(verdict),
        patch_category_outcome(verdict, id, image_id).succeeded(),
    ensures
        outcome(plan, before, events).2.commits == 1,
        outcome(plan, before, events).2.rollbacks == 0,
        outcome(plan, before, events).2.performed.len() > 0,
        outcome(plan, before, events).2.visible == before + outcome(plan, before, events).2.performed,
{
    assert(writes_at(plan.steps@, if image_id is Some { 3int } else { 2int }));
    lemma_done_is_committed(plan, before, events);
}

/// A category is reported as deleted only once its deletion is committed.
pub proof fn lemma_deleted_category_is_committed(
    plan: Plan,
    before: Seq<usize>,
    events: Seq<Event>,
    verdict: Verdict,
    id: i32,
)
    requires
        plan.steps@ == find_and_write(),
        conversation(plan, events),
        outcome(plan, before, events).1 == Action::Respond(verdict),
        delete_category_outcome(verdict, id).succeeded(),
    ensures
        outcome(plan, before, events).2.commits == 1,
        outcome(plan, before, events).2.rollbacks == 0,
        outcome(plan, before, events).2.performed.len() > 0,
        outcome(plan, before, events).2.visible == before + outcome(plan, before, events).2.performed,
{
    assert(writes_at(plan.steps@, 1));
    lemma_done_is_committed(plan, before, events);
}

/// What the store says of a failure reaches the log and never the client: two
/// verdicts that differ only in that detail are answered with the same status
/// and the same body.
pub proof fn lemma_category_details_stay_in_the_log(
    a: Verdict,
    b: Verdict,
    id: i32,
    image_id: Option<i32>,
)
    requires
        alike(a, b),
    ensures
        create_category_outcome(a, image_id).told() == create_category_outcome(b, image_id).told(),
        patch_category_outcome(a, id, image_id).told() == patch_category_outcome(b, id, image_id).told(),
        delete_category_outcome(a, id).told() == delete_category_outcome(b, id).told(),
        get_category_outcome(a, id).told() == get_category_outcome(b, id).told(),
{
}

} // verus!
