//! Carts: what a user does with the own cart, and what administrators do
//! with anyone's.

use vstd::prelude::*;
use vstd::string::*;
use crate::middleware::logging::{Reply, ReplyView};
use crate::routes::{
    conflicting, conflicting_view, find_and_write, find_and_write_plan, invalid, invalid_view, lacking,
    lacking_view, listing_outcome, listing_reply, not_set_up, not_set_up_view, read_only, read_only_plan,
    store_failed, store_failed_view, succeeded_with, success, unexpected, unexpected_view, BAD_REQUEST, CREATED,
    INTERNAL_SERVER_ERROR, OK,
};
use crate::text::{naming, worded};
use crate::transaction::{
    alike, conversation, lemma_done_is_committed, outcome, writes_at, writes_either_at, Action, Event, Guard, Plan, Step,
    Verdict,
};

verus! {

/// Plans the listing of a user's cart. A read that the store fails is a
/// failure of the request, not an empty cart.
pub fn get_cart() -> (plan: Plan)
    ensures
        plan.admitted,
        plan.steps@ == read_only(false),
{
    read_only_plan(false)
}

/// Words the reply to a verdict on the listing of a user's cart.
pub fn get_cart_reply(verdict: Verdict) -> (reply: Reply)
    ensures
        reply@ == listing_outcome(verdict, "Internal server error"@),
        reply@.classified(),
        reply@.succeeded() <==> verdict is Done,
{
    listing_reply(verdict, "Internal server error")
}

/// The step of `add_product` that adds to the entry that the cart has.
pub const ADD_TO_ENTRY: usize = 3;

/// The step of `add_product` that puts a new entry into the cart.
pub const NEW_ENTRY: usize = 4;

/// The step of `add_product` that asks the cart for its entry.
pub const FIND_ENTRY: usize = 2;

/// The steps of putting a product into a cart: the product has to exist,
/// the quantity has to be positive, and the cart is asked for an entry of
/// that product, which the store has to answer. Where the cart has one, the
/// quantity is added to it; where it has none, a new entry is inserted.
pub open spec fn add_product_steps(quantity: u32) -> Seq<Step> {
    seq![
        Step::Read { must_exist: true, must_succeed: true },
        Step::Check { passed: quantity > 0 },
        Step::Read { must_exist: false, must_succeed: true },
        Step::Write { when: Guard::IfFound },
        Step::Write { when: Guard::IfMissing },
    ]
}

/// Plans putting `quantity` of a product into a cart.
pub fn add_product(quantity: u32) -> (plan: Plan)
    ensures
        plan.admitted,
        plan.steps@ == add_product_steps(quantity),
{
    let mut steps: Vec<Step> = Vec::new();
    steps.push(Step::Read { must_exist: true, must_succeed: true });
    steps.push(Step::Check { passed: quantity > 0 });
    steps.push(Step::Read { must_exist: false, must_succeed: true });
    steps.push(Step::Write { when: Guard::IfFound });
    steps.push(Step::Write { when: Guard::IfMissing });
    assert(steps@ =~= add_product_steps(quantity));
    Plan { admitted: true, steps }
}

/// The quantity of an entry after `added` more were put into the cart, where
/// it can be written down.
pub fn merged_quantity(existing: u32, added: u32) -> (quantity: Option<u32>)
    ensures
        quantity == (if existing + added <= u32::MAX {
            Some((existing + added) as u32)
        } else {
            None
        }),
{
    if existing <= u32::MAX - added {
        Some(existing + added)
    } else {
        None
    }
}

/// What the log is told where the quantity of an entry cannot grow by what
/// the request adds.
pub open spec fn quantity_overflow() -> Seq<char> {
    "The quantity of the entry cannot be counted in 32 bits"@
}

/// What is done with the entry that the cart has: its new quantity, or, where
/// that cannot be written down, what to tell the machine in place of the
/// write. Nothing is stored in that case, and the request is rolled back.
pub fn add_to_entry(existing: u32, added: u32) -> (quantity: Result<u32, Event>)
    ensures
        match quantity {
            Ok(sum) => sum == existing + added,
            Err(event) => {
                &&& existing + added > u32::MAX
                &&& event matches Event::Declined(detail)
                &&& detail@ == quantity_overflow()
            },
        },
{
    match merged_quantity(existing, added) {
        Some(sum) => Ok(sum),
        None => Err(Event::Declined("The quantity of the entry cannot be counted in 32 bits".to_owned())),
    }
}

/// The reply to each verdict on putting the product `product_id` into a cart.
pub open spec fn add_product_outcome(verdict: Verdict, product_id: i32) -> ReplyView {
    match verdict {
        Verdict::SetupFailed => not_set_up_view(),
        Verdict::Missing { step } => lacking_view(
            BAD_REQUEST,
            naming("No product with "@, product_id, " id was found"@),
        ),
        Verdict::Rejected { step } => lacking_view(BAD_REQUEST, "Quantity should be greater than 0"@),
        Verdict::Failed { step, detail } => if step == 0 {
            store_failed_view(INTERNAL_SERVER_ERROR, "Internal server error."@, detail@)
        } else if step == ADD_TO_ENTRY {
            store_failed_view(BAD_REQUEST, "Failed to patch this resource"@, detail@)
        } else {
            store_failed_view(INTERNAL_SERVER_ERROR, "Internal server error"@, detail@)
        },
        Verdict::Conflict { step, detail } => if step == ADD_TO_ENTRY {
            conflicting_view(BAD_REQUEST, "Failed to patch this resource"@, detail@)
        } else {
            conflicting_view(INTERNAL_SERVER_ERROR, "Internal server error"@, detail@)
        },
        Verdict::Declined { step, detail } => invalid_view(BAD_REQUEST, "Quantity is too large"@, detail@),
        Verdict::CommitFailed { detail } => store_failed_view(
            INTERNAL_SERVER_ERROR,
            "Internal server error"@,
            detail@,
        ),
        Verdict::Done { wrote } => if wrote == Some(ADD_TO_ENTRY) {
            succeeded_with(OK, "Resource patched successfully"@)
        } else {
            succeeded_with(CREATED, "Added successfully"@)
        },
        _ => unexpected_view(),
    }
}

/// Words the reply to a verdict on putting the product `product_id` into a
/// cart.
pub fn add_product_reply(verdict: Verdict, product_id: i32) -> (reply: Reply)
    ensures
        reply@ == add_product_outcome(verdict, product_id),
        reply@.classified(),
        reply@.succeeded() <==> verdict is Done,
{
    match verdict {
        Verdict::SetupFailed => not_set_up(),
        Verdict::Missing { step } => lacking(BAD_REQUEST, worded("No product with ", product_id, " id was found")),
        Verdict::Rejected { step } => lacking(BAD_REQUEST, "Quantity should be greater than 0".to_owned()),
        Verdict::Failed { step, detail } => {
            if step == 0 {
                store_failed(INTERNAL_SERVER_ERROR, "Internal server error.", detail)
            } else if step == ADD_TO_ENTRY {
                store_failed(BAD_REQUEST, "Failed to patch this resource", detail)
            } else {
                store_failed(INTERNAL_SERVER_ERROR, "Internal server error", detail)
            }
        },
        Verdict::Conflict { step, detail } => {
            if step == ADD_TO_ENTRY {
                conflicting(BAD_REQUEST, "Failed to patch this resource", detail)
            } else {
                conflicting(INTERNAL_SERVER_ERROR, "Internal server error", detail)
            }
        },
        Verdict::Declined { step, detail } => invalid(BAD_REQUEST, "Quantity is too large", detail.as_str()),
        Verdict::CommitFailed { detail } => store_failed(INTERNAL_SERVER_ERROR, "Internal server error", detail),
        Verdict::Done { wrote } => {
            let patched = match wrote {
                Some(step) => step == ADD_TO_ENTRY,
                None => false,
            };
            if patched {
                success(OK, "Resource patched successfully")
            } else {
                success(CREATED, "Added successfully")
            }
        },
        _ => unexpected(),
    }
}

/// Plans taking an entry out of a cart: it has to exist, and it is deleted.
pub fn remove_product() -> (plan: Plan)
    ensures
        plan.admitted,
        plan.steps@ == find_and_write(),
{
    find_and_write_plan()
}

/// The reply to each verdict on a user taking the entry `id` out of the cart.
pub open spec fn remove_product_outcome(verdict: Verdict, id: i32) -> ReplyView {
    match verdict {
        Verdict::SetupFailed => not_set_up_view(),
        Verdict::Missing { step } => invalid_view(
            BAD_REQUEST,
            naming("No related entry with "@, id, " id was found."@),
            naming("No entry found for id "@, id, ""@),
        ),
        Verdict::Failed { step, detail } => if step == 0 {
            store_failed_view(INTERNAL_SERVER_ERROR, "Internal server error."@, detail@)
        } else {
            store_failed_view(BAD_REQUEST, "Failed to delete this resource"@, detail@)
        },
        Verdict::Conflict { step, detail } => conflicting_view(
            BAD_REQUEST,
            "Failed to delete this resource"@,
            detail@,
        ),
        Verdict::CommitFailed { detail } => store_failed_view(
            INTERNAL_SERVER_ERROR,
            "Failed to commit transaction"@,
            detail@,
        ),
        Verdict::Done { wrote } => succeeded_with(OK, "Resource deleted successfully"@),
        _ => unexpected_view(),
    }
}

/// Words the reply to a verdict on a user taking the entry `id` out of the
/// cart.
pub fn remove_product_reply(verdict: Verdict, id: i32) -> (reply: Reply)
    ensures
        reply@ == remove_product_outcome(verdict, id),
        reply@.classified(),
        reply@.succeeded() <==> verdict is Done,
{
    match verdict {
        Verdict::SetupFailed => not_set_up(),
        Verdict::Missing { step } => {
            let shown = worded("No related entry with ", id, " id was found.");
            let logged = worded("No entry found for id ", id, "");
            invalid(BAD_REQUEST, shown.as_str(), logged.as_str())
        },
        Verdict::Failed { step, detail } => {
            if step == 0 {
                store_failed(INTERNAL_SERVER_ERROR, "Internal server error.", detail)
            } else {
                store_failed(BAD_REQUEST, "Failed to delete this resource", detail)
            }
        },
        Verdict::Conflict { step, detail } => conflicting(BAD_REQUEST, "Failed to delete this resource", detail),
        Verdict::CommitFailed { detail } => store_failed(
            INTERNAL_SERVER_ERROR,
            "Failed to commit transaction",
            detail,
        ),
        Verdict::Done { wrote } => success(OK, "Resource deleted successfully"),
        _ => unexpected(),
    }
}

/// What a patch does to an entry of a cart.
#[derive(Clone, Copy, PartialEq, Eq, Debug, Structural)]
pub enum EntryPatch {
    /// The entry is deleted.
    Delete,
    /// The entry's quantity is set.
    SetQuantity(u32),
}

/// What the patch of an entry to `quantity` does: none left deletes the
/// entry, any other quantity is set.
pub fn entry_patch(quantity: u32) -> (patch: EntryPatch)
    ensures
        patch == (if quantity == 0 {
            EntryPatch::Delete
        } else {
            EntryPatch::SetQuantity(quantity)
        }),
{
    if quantity == 0 {
        EntryPatch::Delete
    } else {
        EntryPatch::SetQuantity(quantity)
    }
}

/// The reply to each verdict on a write to the entry `id` of a cart;
/// `failed` is what the client is told where the store fails or rejects the
/// write, `done` where it is committed.
pub open spec fn entry_outcome(verdict: Verdict, id: i32, failed: Seq<char>, done: Seq<char>) -> ReplyView {
    match verdict {
        Verdict::SetupFailed => not_set_up_view(),
        Verdict::Missing { step } => lacking_view(
            BAD_REQUEST,
            naming("No related entry with "@, id, " id was found."@),
        ),
        Verdict::Failed { step, detail } => if step == 0 {
            store_failed_view(INTERNAL_SERVER_ERROR, "Internal server error."@, detail@)
        } else {
            store_failed_view(BAD_REQUEST, failed, detail@)
        },
        Verdict::Conflict { step, detail } => conflicting_view(BAD_REQUEST, failed, detail@),
        Verdict::CommitFailed { detail } => store_failed_view(
            INTERNAL_SERVER_ERROR,
            "Internal server error"@,
            detail@,
        ),
        Verdict::Done { wrote } => succeeded_with(OK, done),
        _ => unexpected_view(),
    }
}

fn entry_reply(verdict: Verdict, id: i32, failed: &str, done: &str) -> (reply: Reply)
    ensures
        reply@ == entry_outcome(verdict, id, failed@, done@),
        reply@.classified(),
        reply@.succeeded() <==> verdict is Done,
{
    match verdict {
        Verdict::SetupFailed => not_set_up(),
        Verdict::Missing { step } => lacking(BAD_REQUEST, worded("No related entry with ", id, " id was found.")),
        Verdict::Failed { step, detail } => {
            if step == 0 {
                store_failed(INTERNAL_SERVER_ERROR, "Internal server error.", detail)
            } else {
                store_failed(BAD_REQUEST, failed, detail)
            }
        },
        Verdict::Conflict { step, detail } => conflicting(BAD_REQUEST, failed, detail),
        Verdict::CommitFailed { detail } => store_failed(INTERNAL_SERVER_ERROR, "Internal server error", detail),
        Verdict::Done { wrote } => success(OK, done),
        _ => unexpected(),
    }
}

/// Plans the patch of an entry of the user's cart: it has to exist, and it
/// is written as `entry_patch` says.
pub fn patch_entry() -> (plan: Plan)
    ensures
        plan.admitted,
        plan.steps@ == find_and_write(),
{
    find_and_write_plan()
}

/// Words the reply to a verdict on the patch of the entry `id` of the
/// user's cart.
pub fn patch_entry_reply(verdict: Verdict, id: i32) -> (reply: Reply)
    ensures
        reply@ == entry_outcome(verdict, id, "Failed to patch this resource"@, "Resource patched successfully"@),
        reply@.classified(),
        reply@.succeeded() <==> verdict is Done,
{
    entry_reply(verdict, id, "Failed to patch this resource", "Resource patched successfully")
}

/// Plans an administrator taking an entry out of a cart.
pub fn admin_remove_product() -> (plan: Plan)
    ensures
        plan.admitted,
        plan.steps@ == find_and_write(),
{
    find_and_write_plan()
}

/// Words the reply to a verdict on an administrator taking the entry `id`
/// out of a cart.
pub fn admin_remove_product_reply(verdict: Verdict, id: i32) -> (reply: Reply)
    ensures
        reply@ == entry_outcome(verdict, id, "Failed to delete this resource"@, "Resource deleted successfully"@),
        reply@.classified(),
        reply@.succeeded() <==> verdict is Done,
{
    entry_reply(verdict, id, "Failed to delete this resource", "Resource deleted successfully")
}

/// Plans an administrator's patch of an entry of a cart.
pub fn admin_patch_cart_entry() -> (plan: Plan)
    ensures
        plan.admitted,
        plan.steps@ == find_and_write(),
{
    find_and_write_plan()
}

/// Words the reply to a verdict on an administrator's patch of the entry
/// `id` of a cart.
pub fn admin_patch_cart_entry_reply(verdict: Verdict, id: i32) -> (reply: Reply)
    ensures
        reply@ == entry_outcome(verdict, id, "Failed to patch this resource"@, "Resource patched successfully"@),
        reply@.classified(),
        reply@.succeeded() <==> verdict is Done,
{
    entry_reply(verdict, id, "Failed to patch this resource", "Resource patched successfully")
}

/// Plans the listing of every user's cart for an administrator. The users
/// and the cart of each are read as one; the store has to answer for all.
pub fn get_carts() -> (plan: Plan)
    ensures
        plan.admitted,
        plan.steps@ == read_only(false),
{
    read_only_plan(false)
}

/// The reply to a listing in which a cart holds more items than can be
/// counted.
pub open spec fn uncountable_view() -> ReplyView {
    lacking_view(INTERNAL_SERVER_ERROR, "A cart holds more items than can be counted"@)
}

/// Words the reply to a listing of carts in which `entries_shown` could not
/// count the items of a cart.
pub fn uncountable_reply() -> (reply: Reply)
    ensures
        reply@ == uncountable_view(),
        reply@.classified(),
        !reply@.succeeded(),
{
    lacking(INTERNAL_SERVER_ERROR, "A cart holds more items than can be counted".to_owned())
}

/// Words the reply to a verdict on the listing of every user's cart.
pub fn get_carts_reply(verdict: Verdict) -> (reply: Reply)
    ensures
        reply@ == listing_outcome(verdict, "Internal server error"@),
        reply@.classified(),
        reply@.succeeded() <==> verdict is Done,
{
    listing_reply(verdict, "Internal server error")
}

/// How many items the first `n` entries of a cart hold together.
pub open spec fn items_in(quantities: Seq<u32>, n: int) -> int
    decreases n,
{
    if n <= 0 {
        0
    } else {
        items_in(quantities, n - 1) + quantities[n - 1]
    }
}

/// Whether the entry `i` of a cart is shown to an administrator who asked
/// for carts by their number of items: it is where the items up to and
/// including it are no fewer than the lower bound and no more than the
/// upper. Both bounds have to be given for either to count.
pub open spec fn entry_shown(quantities: Seq<u32>, bottom: Option<u32>, top: Option<u32>, i: int) -> bool {
    match (bottom, top) {
        (Some(b), Some(t)) => b <= items_in(quantities, i + 1) <= t,
        _ => true,
    }
}

proof fn lemma_items_grow(quantities: Seq<u32>, n: int, m: int)
    requires
        0 <= n <= m <= quantities.len(),
    ensures
        0 <= items_in(quantities, n) <= items_in(quantities, m),
    decreases m,
{
    if n < m {
        lemma_items_grow(quantities, n, m - 1);
    } else if n > 0 {
        lemma_items_grow(quantities, n - 1, n - 1);
        lemma_items_grow(quantities, 0, n - 1);
    }
}

/// Which entries of a cart are shown to an administrator, one answer for
/// each entry in order, or `None` where the cart holds more items than can
/// be counted in 32 bits.
pub fn entries_shown(quantities: &Vec<u32>, bottom: Option<u32>, top: Option<u32>) -> (shown: Option<Vec<bool>>)
    ensures
        shown is Some <==> items_in(quantities@, quantities.len() as int) <= u32::MAX,
        shown matches Some(answers) ==> {
            &&& answers.len() == quantities.len()
            &&& forall|i: int|
                0 <= i < answers.len() ==> #[trigger] answers[i] == entry_shown(quantities@, bottom, top, i)
        },
{
    let mut answers: Vec<bool> = Vec::new();
    let mut total: u32 = 0;
    let mut i: usize = 0;
    while i < quantities.len()
        invariant
            i <= quantities.len(),
            answers.len() == i,
            total == items_in(quantities@, i as int),
            forall|k: int| 0 <= k < i ==> #[trigger] answers[k] == entry_shown(quantities@, bottom, top, k),
        decreases quantities.len() - i,
    {
        let quantity: u32 = quantities[i];
        if total > u32::MAX - quantity {
            proof {
                lemma_items_grow(quantities@, i as int + 1, quantities.len() as int);
            }
            return None;
        }
        total = total + quantity;
        let within = match (bottom, top) {
            (Some(b), Some(t)) => b <= total && total <= t,
            _ => true,
        };
        answers.push(within);
        i += 1;
    }
    Some(answers)
}

/// Whether a user's cart is left out of an administrator's listing: it is
/// unless the listing was asked to go beyond the carts that hold something.
pub fn cart_left_out(non_empty: Option<bool>) -> (left_out: bool)
    ensures
        left_out == (non_empty != Some(false)),
{
    match non_empty {
        Some(flag) => flag,
        None => true,
    }
}

/// A product is reported as put into a cart only once the write to the cart
/// is committed, whichever of the two writes it was.
pub proof fn lemma_added_product_is_committed(
    plan: Plan,
    before: Seq<usize>,
    events: Seq<Event>,
    verdict: Verdict,
    quantity: u32,
    product_id: i32,
)
    requires
        plan.steps@ == add_product_steps(quantity),
        conversation(plan, events),
        outcome(plan, before, events).1 == Action::Respond(verdict),
        add_product_outcome(verdict, product_id).succeeded(),
    ensures
        outcome(plan, before, events).2.commits == 1,
        outcome(plan, before, events).2.rollbacks == 0,
        outcome(plan, before, events).2.performed.len() > 0,
        outcome(plan, before, events).2.visible == before + outcome(plan, before, events).2.performed,
{
    assert(writes_either_at(plan.steps@, 3));
    lemma_done_is_committed(plan, before, events);
}

/// An entry is reported as taken out of a cart only once its deletion is
/// committed.
pub proof fn lemma_removed_product_is_committed(
    plan: Plan,
    before: Seq<usize>,
    events: Seq<Event>,
    verdict: Verdict,
    id: i32,
)
    requires
        plan.steps@ == find_and_write(),
        conversation(plan, events),
        outcome(plan, before, events).1 == Action::Respond(verdict),
        remove_product_outcome(verdict, id).succeeded(),
    ensures
        outcome(plan, before, events).2.commits == 1,
        outcome(plan, before, events).2.rollbacks == 0,
        outcome(plan, before, events).2.performed.len() > 0,
        outcome(plan, before, events).2.visible == before + outcome(plan, before, events).2.performed,
{
    assert(writes_at(plan.steps@, 1));
    lemma_done_is_committed(plan, before, events);
}

/// An entry of a cart is reported as written only once the write is committed.
pub proof fn lemma_changed_entry_is_committed(
    plan: Plan,
    before: Seq<usize>,
    events: Seq<Event>,
    verdict: Verdict,
    id: i32,
    failed: Seq<char>,
    done: Seq<char>,
)
    requires
        plan.steps@ == find_and_write(),
        conversation(plan, events),
        outcome(plan, before, events).1 == Action::Respond(verdict),
        entry_outcome(verdict, id, failed, done).succeeded(),
    ensures
        outcome(plan, before, events).2.commits == 1,
        outcome(plan, before, events).2.rollbacks == 0,
        outcome(plan, before, events).2.performed.len() > 0,
        outcome(plan, before, events).2.visible == before + outcome(plan, before, events).2.performed,
{
    assert(writes_at(plan.steps@, 1));
    lemma_done_is_committed(plan, before, events);
}

/// What the store says of a failure reaches the log and never the client: two
/// verdicts that differ only in that detail are answered with the same status
/// and the same body.
pub proof fn lemma_cart_details_stay_in_the_log(
    a: Verdict,
    b: Verdict,
    id: i32,
    failed: Seq<char>,
    done: Seq<char>,
)
    requires
        alike(a, b),
    ensures
        add_product_outcome(a, id).told() == add_product_outcome(b, id).told(),
        remove_product_outcome(a, id).told() == remove_product_outcome(b, id).told(),
        entry_outcome(a, id, failed, done).told() == entry_outcome(b, id, failed, done).told(),
{
}

} // verus!
