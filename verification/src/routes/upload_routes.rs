//! Images: how they are uploaded, served, renamed and deleted.

use vstd::prelude::*;
use vstd::string::*;
use crate::entities::image::FileExtension;
use crate::middleware::logging::{ApiError, ApiErrorView, Reply, ReplyView};
use crate::routes::{
    conflicting, conflicting_view, content, content_with, failed_with, failure, find_and_write,
    find_and_write_plan, invalid, invalid_view, lacking, lacking_view, listing_outcome, listing_reply, not_set_up,
    not_set_up_view, read_only, read_only_plan, store_failed, store_failed_view, succeeded_with, success,
    unexpected, unexpected_view, BAD_REQUEST, CONFLICT, CREATED, INTERNAL_SERVER_ERROR, NOT_FOUND, OK,
    PAYLOAD_TOO_LARGE,
};
use crate::text::{naming, same_text, worded};
use crate::transaction::{
    alike, conversation, lemma_done_is_committed, outcome, writes_at, Action, Event, Guard, Plan, Step, Verdict,
};
use crate::validation::{is_file_name, valid_file_name};

verus! {

/// The extension under which a part of the given content type is stored, if
/// it is one that can be uploaded: JPEG and PNG images are.
pub fn allowed_content_types(content_type: &str) -> (extension: Option<FileExtension>)
    ensures
        extension == FileExtension::of_content_type(content_type@),
{
    if same_text(content_type, "image/jpeg") {
        Some(FileExtension::JPG)
    } else if same_text(content_type, "image/png") {
        Some(FileExtension::PNG)
    } else {
        None
    }
}

/// Where the file of an image lies: in the upload directory, under its path
/// name and its extension.
pub open spec fn image_path_of(path_name: Seq<char>, extension: FileExtension) -> Seq<char> {
    "./uploads/"@ + path_name + "."@ + extension.label()
}

/// The path of the file of an image.
pub fn image_path(path_name: &str, extension: FileExtension) -> (path: String)
    ensures
        path@ == image_path_of(path_name@, extension),
{
    let mut path = "./uploads/".to_owned();
    path.append(path_name);
    path.append(".");
    let label = extension.to_string();
    path.append(label.as_str());
    path
}

/// The media type that the extension of a path suggests first, if any.
pub uninterp spec fn guessed_media_type(path: Seq<char>) -> Option<Seq<char>>;

/// The content of an optional static text.
pub open spec fn static_text_view(text: Option<&'static str>) -> Option<Seq<char>> {
    match text {
        Some(t) => Some(t@),
        None => None,
    }
}

/// `mime_guess::from_path(path).first_raw()`: the first media type that the
/// path's extension is known under, if it is known at all.
#[verifier::external_body]
fn guess_media_type(path: &str) -> (media_type: Option<&'static str>)
    ensures
        static_text_view(media_type) == guessed_media_type(path@),
{
    mime_guess::from_path(path).first_raw()
}

/// The content type under which a file is served: what its path suggests,
/// and a stream of octets where the path suggests nothing.
pub open spec fn served_as(path: Seq<char>) -> Seq<char> {
    match guessed_media_type(path) {
        Some(media_type) => media_type,
        None => "application/octet-stream"@,
    }
}

/// The content type under which the file at `path` is served.
pub fn content_type_for(path: &str) -> (content_type: String)
    ensures
        content_type@ == served_as(path@),
{
    match guess_media_type(path) {
        Some(media_type) => media_type.to_owned(),
        None => "application/octet-stream".to_owned(),
    }
}

/// A character of a random name: a digit, a letter from `a` to `f`, or a
/// hyphen.
pub open spec fn is_name_char(c: char) -> bool {
    ('0' <= c && c <= '9') || ('a' <= c && c <= 'f') || c == '-'
}

/// Whether a text can be a random name: 36 characters, each a digit, a
/// letter from `a` to `f`, or a hyphen. Such a text names one file in the
/// directory it is put in, and no other directory.
pub open spec fn is_random_name(name: Seq<char>) -> bool {
    name.len() == 36 && forall|i: int| 0 <= i < name.len() ==> is_name_char(#[trigger] name[i])
}

/// `uuid::Uuid::new_v4().to_string()`: a random identifier as text. Which
/// one it is, is not known; it is written in lower-case hexadecimal digits
/// in five groups that hyphens part, 36 characters in all.
#[verifier::external_body]
fn random_name() -> (name: String)
    ensures
        is_random_name(name@),
{
    uuid::Uuid::new_v4().to_string()
}

/// Where a new upload will lie.
#[derive(Debug)]
pub struct Storage {
    /// The name of the file, without its extension.
    pub path_name: String,
    /// The path of the file.
    pub path: String,
}

/// Chooses where a new upload of the given kind will lie: under a random
/// name in the upload directory, and nowhere else, for the name holds no
/// separator and no dot.
pub fn new_storage(extension: FileExtension) -> (storage: Storage)
    ensures
        is_random_name(storage.path_name@),
        storage.path@ == image_path_of(storage.path_name@, extension),
{
    let path_name = random_name();
    let path = image_path(path_name.as_str(), extension);
    Storage { path_name, path }
}

/// Plans the serving of an image: its row has to exist.
pub fn print_image() -> (plan: Plan)
    ensures
        plan.admitted,
        plan.steps@ == read_only(true),
{
    read_only_plan(true)
}

/// The reply to each verdict on the reading of the row of the image `id`.
pub open spec fn print_image_outcome(verdict: Verdict, id: i32) -> ReplyView {
    match verdict {
        Verdict::SetupFailed => not_set_up_view(),
        Verdict::Missing { step } => lacking_view(NOT_FOUND, naming("Image not found with "@, id, " id"@)),
        Verdict::Failed { step, detail } => store_failed_view(
            INTERNAL_SERVER_ERROR,
            "Internal server error"@,
            detail@,
        ),
        Verdict::Done { wrote } => content_with(OK),
        _ => unexpected_view(),
    }
}

/// Words the reply to a verdict on the reading of the row of the image `id`.
pub fn print_image_reply(verdict: Verdict, id: i32) -> (reply: Reply)
    ensures
        reply@ == print_image_outcome(verdict, id),
        reply@.classified(),
        reply@.succeeded() <==> verdict is Done,
{
    match verdict {
        Verdict::SetupFailed => not_set_up(),
        Verdict::Missing { step } => lacking(NOT_FOUND, worded("Image not found with ", id, " id")),
        Verdict::Failed { step, detail } => store_failed(INTERNAL_SERVER_ERROR, "Internal server error", detail),
        Verdict::Done { wrote } => content(OK),
        _ => unexpected(),
    }
}

/// Words the reply to a request for an image whose file cannot be opened;
/// `detail` is why.
pub fn file_missing_reply(detail: String) -> (reply: Reply)
    ensures
        reply@ == failed_with(NOT_FOUND, "Not found"@, ApiErrorView::General(detail@)),
        reply@.classified(),
        !reply@.succeeded(),
{
    failure(NOT_FOUND, "Not found", ApiError::General(detail))
}

/// What is known of the first part of an upload before anything is stored.
#[derive(Debug)]
pub struct UploadField {
    pub content_type: Option<String>,
    pub name: Option<String>,
    /// The size of the part in bytes, or why it could not be read.
    pub size: Result<usize, String>,
}

/// The mathematical content of what is known of a part.
pub struct UploadFieldView {
    pub content_type: Option<Seq<char>>,
    pub name: Option<Seq<char>>,
    pub size: Result<usize, Seq<char>>,
}

impl View for UploadField {
    type V = UploadFieldView;

    open spec fn view(&self) -> UploadFieldView {
        UploadFieldView {
            content_type: match self.content_type {
                Some(c) => Some(c@),
                None => None,
            },
            name: match self.name {
                Some(n) => Some(n@),
                None => None,
            },
            size: match self.size {
                Ok(s) => Ok(s),
                Err(e) => Err(e@),
            },
        }
    }
}

/// The content of an optional part.
pub open spec fn field_view(field: Option<&UploadField>) -> Option<UploadFieldView> {
    match field {
        Some(f) => Some(f@),
        None => None,
    }
}

/// The checks of an upload, in the order in which they are made: there is a
/// part; it states a content type; the type is one that can be uploaded; the
/// part has a name; the name is a file name; the part could be read; it is
/// no larger than the limit.
pub open spec fn upload_checks(field: Option<UploadFieldView>, limit: usize) -> Seq<bool> {
    match field {
        None => seq![false, false, false, false, false, false, false],
        Some(f) => seq![
            true,
            f.content_type is Some,
            f.content_type matches Some(c) && FileExtension::of_content_type(c) is Some,
            f.name is Some,
            f.name matches Some(n) && is_file_name(n),
            f.size is Ok,
            f.size matches Ok(s) && s <= limit,
        ],
    }
}

/// The step of an upload that inserts the image's row.
pub const INSERT_ROW: usize = 7;

/// The step of an upload that writes the image's file.
pub const WRITE_FILE: usize = 8;

/// The steps of an upload: its seven checks, the insertion of the row, and
/// the writing of the file.
pub open spec fn upload_steps(field: Option<UploadFieldView>, limit: usize) -> Seq<Step> {
    let checks = upload_checks(field, limit);
    seq![
        Step::Check { passed: checks[0] },
        Step::Check { passed: checks[1] },
        Step::Check { passed: checks[2] },
        Step::Check { passed: checks[3] },
        Step::Check { passed: checks[4] },
        Step::Check { passed: checks[5] },
        Step::Check { passed: checks[6] },
        Step::Write { when: Guard::Always },
        Step::Write { when: Guard::Always },
    ]
}

/// Plans the upload of the first part of a request, with the size limit
/// `limit` in bytes.
pub fn upload(field: Option<&UploadField>, limit: usize) -> (plan: Plan)
    ensures
        plan.admitted,
        plan.steps@ == upload_steps(field_view(field), limit),
{
    let mut present = false;
    let mut typed = false;
    let mut allowed = false;
    let mut named = false;
    let mut well_named = false;
    let mut read = false;
    let mut small = false;
    match field {
        Some(f) => {
            present = true;
            match &f.content_type {
                Some(c) => {
                    typed = true;
                    allowed = allowed_content_types(c.as_str()).is_some();
                },
                None => {},
            }
            match &f.name {
                Some(n) => {
                    named = true;
                    well_named = valid_file_name(n.as_str());
                },
                None => {},
            }
            match &f.size {
                Ok(s) => {
                    read = true;
                    small = *s <= limit;
                },
                Err(_) => {},
            }
        },
        None => {},
    }
    let mut steps: Vec<Step> = Vec::new();
    steps.push(Step::Check { passed: present });
    steps.push(Step::Check { passed: typed });
    steps.push(Step::Check { passed: allowed });
    steps.push(Step::Check { passed: named });
    steps.push(Step::Check { passed: well_named });
    steps.push(Step::Check { passed: read });
    steps.push(Step::Check { passed: small });
    steps.push(Step::Write { when: Guard::Always });
    steps.push(Step::Write { when: Guard::Always });
    assert(steps@ =~= upload_steps(field_view(field), limit));
    Plan { admitted: true, steps }
}

/// What the client is told of a name that is no file name.
pub open spec fn bad_file_name() -> Seq<char> {
    "Invalid file name. It should contain only Latin letters, numbers, '-', or '_'."@
}

/// The reply to the check of an upload that did not pass; `read_error` is
/// why the part could not be read, where it could not.
pub open spec fn upload_rejection(step: usize, read_error: Option<Seq<char>>) -> ReplyView {
    if step == 0 {
        lacking_view(BAD_REQUEST, "Dont know what went wrong"@)
    } else if step == 1 {
        lacking_view(BAD_REQUEST, "Content type is not set."@)
    } else if step == 2 {
        lacking_view(BAD_REQUEST, "Unsupported content type."@)
    } else if step == 3 {
        lacking_view(BAD_REQUEST, "File name is not set."@)
    } else if step == 4 {
        failed_with(BAD_REQUEST, bad_file_name(), ApiErrorView::General("Regex match failed"@))
    } else if step == 5 {
        match read_error {
            Some(e) => failed_with(
                INTERNAL_SERVER_ERROR,
                "Failed to read file bytes."@,
                ApiErrorView::General("Multipart error: "@ + e),
            ),
            None => unexpected_view(),
        }
    } else if step == 6 {
        lacking_view(PAYLOAD_TOO_LARGE, "Payload too large"@)
    } else {
        unexpected_view()
    }
}

/// The reply to each verdict on an upload.
pub open spec fn upload_outcome(verdict: Verdict, read_error: Option<Seq<char>>) -> ReplyView {
    match verdict {
        Verdict::SetupFailed => not_set_up_view(),
        Verdict::Rejected { step } => upload_rejection(step, read_error),
        Verdict::Failed { step, detail } => if step == WRITE_FILE {
            store_failed_view(INTERNAL_SERVER_ERROR, "Failed to upload file to the server"@, detail@)
        } else {
            store_failed_view(INTERNAL_SERVER_ERROR, "Internal server error."@, detail@)
        },
        Verdict::Conflict { step, detail } => conflicting_view(CONFLICT, "Image already exists"@, detail@),
        Verdict::CommitFailed { detail } => store_failed_view(
            INTERNAL_SERVER_ERROR,
            "Internal server error."@,
            detail@,
        ),
        Verdict::Done { wrote } => succeeded_with(CREATED, "File uploaded successfully."@),
        _ => unexpected_view(),
    }
}

/// The content of an optional text.
pub open spec fn error_text_view(text: Option<&str>) -> Option<Seq<char>> {
    match text {
        Some(t) => Some(t@),
        None => None,
    }
}

fn upload_rejected(step: usize, read_error: Option<&str>) -> (reply: Reply)
    ensures
        reply@ == upload_rejection(step, error_text_view(read_error)),
        reply@.classified(),
        !reply@.succeeded(),
{
    if step == 0 {
        lacking(BAD_REQUEST, "Dont know what went wrong".to_owned())
    } else if step == 1 {
        lacking(BAD_REQUEST, "Content type is not set.".to_owned())
    } else if step == 2 {
        lacking(BAD_REQUEST, "Unsupported content type.".to_owned())
    } else if step == 3 {
        lacking(BAD_REQUEST, "File name is not set.".to_owned())
    } else if step == 4 {
        failure(
            BAD_REQUEST,
            "Invalid file name. It should contain only Latin letters, numbers, '-', or '_'.",
            ApiError::General("Regex match failed".to_owned()),
        )
    } else if step == 5 {
        match read_error {
            Some(e) => {
                let mut detail = "Multipart error: ".to_owned();
                detail.append(e);
                failure(INTERNAL_SERVER_ERROR, "Failed to read file bytes.", ApiError::General(detail))
            },
            None => unexpected(),
        }
    } else if step == 6 {
        lacking(PAYLOAD_TOO_LARGE, "Payload too large".to_owned())
    } else {
        unexpected()
    }
}

/// Words the reply to a verdict on an upload; `read_error` is why the part
/// could not be read, where it could not.
pub fn upload_reply(verdict: Verdict, read_error: Option<&str>) -> (reply: Reply)
    ensures
        reply@ == upload_outcome(verdict, error_text_view(read_error)),
        reply@.classified(),
        reply@.succeeded() <==> verdict is Done,
{
    match verdict {
        Verdict::SetupFailed => not_set_up(),
        Verdict::Rejected { step } => upload_rejected(step, read_error),
        Verdict::Failed { step, detail } => {
            if step == WRITE_FILE {
                store_failed(INTERNAL_SERVER_ERROR, "Failed to upload file to the server", detail)
            } else {
                store_failed(INTERNAL_SERVER_ERROR, "Internal server error.", detail)
            }
        },
        Verdict::Conflict { step, detail } => conflicting(CONFLICT, "Image already exists", detail),
        Verdict::CommitFailed { detail } => store_failed(INTERNAL_SERVER_ERROR, "Internal server error.", detail),
        Verdict::Done { wrote } => success(CREATED, "File uploaded successfully."),
        _ => unexpected(),
    }
}

/// Plans the listing of images for an administrator.
pub fn get_images() -> (plan: Plan)
    ensures
        plan.admitted,
        plan.steps@ == read_only(false),
{
    read_only_plan(false)
}

/// Words the reply to a verdict on the listing of images.
pub fn get_images_reply(verdict: Verdict) -> (reply: Reply)
    ensures
        reply@ == listing_outcome(verdict, "Internal server error."@),
        reply@.classified(),
        reply@.succeeded() <==> verdict is Done,
{
    listing_reply(verdict, "Internal server error.")
}

/// Plans the renaming of an image: the new name has to be a file name
/// before a transaction is opened, the image has to exist, and its row is
/// updated.
pub fn patch_image(file_name: &str) -> (plan: Plan)
    ensures
        plan.admitted == is_file_name(file_name@),
        plan.steps@ == find_and_write(),
{
    let plan = find_and_write_plan();
    Plan { admitted: valid_file_name(file_name), steps: plan.steps }
}

/// The reply to each verdict on the renaming of the image `id`.
pub open spec fn patch_image_outcome(verdict: Verdict, id: i32) -> ReplyView {
    match verdict {
        Verdict::Refused => invalid_view(BAD_REQUEST, bad_file_name(), "Invalid file name"@),
        Verdict::SetupFailed => not_set_up_view(),
        Verdict::Missing { step } => lacking_view(BAD_REQUEST, naming("No image with "@, id, " id was found."@)),
        Verdict::Failed { step, detail } => if step == 0 {
            store_failed_view(INTERNAL_SERVER_ERROR, "Internal server error."@, detail@)
        } else {
            store_failed_view(BAD_REQUEST, "Failed to patch this resource"@, detail@)
        },
        Verdict::Conflict { step, detail } => conflicting_view(CONFLICT, "Image already exists"@, detail@),
        Verdict::CommitFailed { detail } => store_failed_view(
            INTERNAL_SERVER_ERROR,
            "Internal server error"@,
            detail@,
        ),
        Verdict::Done { wrote } => succeeded_with(OK, "Resource patched successfully."@),
        _ => unexpected_view(),
    }
}

/// Words the reply to a verdict on the renaming of the image `id`.
pub fn patch_image_reply(verdict: Verdict, id: i32) -> (reply: Reply)
    ensures
        reply@ == patch_image_outcome(verdict, id),
        reply@.classified(),
        reply@.succeeded() <==> verdict is Done,
{
    match verdict {
        Verdict::Refused => invalid(
            BAD_REQUEST,
            "Invalid file name. It should contain only Latin letters, numbers, '-', or '_'.",
            "Invalid file name",
        ),
        Verdict::SetupFailed => not_set_up(),
        Verdict::Missing { step } => lacking(BAD_REQUEST, worded("No image with ", id, " id was found.")),
        Verdict::Failed { step, detail } => {
            if step == 0 {
                store_failed(INTERNAL_SERVER_ERROR, "Internal server error.", detail)
            } else {
                store_failed(BAD_REQUEST, "Failed to patch this resource", detail)
            }
        },
        Verdict::Conflict { step, detail } => conflicting(CONFLICT, "Image already exists", detail),
        Verdict::CommitFailed { detail } => store_failed(INTERNAL_SERVER_ERROR, "Internal server error", detail),
        Verdict::Done { wrote } => success(OK, "Resource patched successfully."),
        _ => unexpected(),
    }
}

/// The steps of deleting an image: it has to exist, its row is deleted, and
/// its file is removed.
pub open spec fn delete_image_steps() -> Seq<Step> {
    seq![
        Step::Read { must_exist: true, must_succeed: true },
        Step::Write { when: Guard::Always },
        Step::Write { when: Guard::Always },
    ]
}

/// Plans the deletion of an image.
pub fn delete_image() -> (plan: Plan)
    ensures
        plan.admitted,
        plan.steps@ == delete_image_steps(),
{
    let mut steps: Vec<Step> = Vec::new();
    steps.push(Step::Read { must_exist: true, must_succeed: true });
    steps.push(Step::Write { when: Guard::Always });
    steps.push(Step::Write { when: Guard::Always });
    assert(steps@ =~= delete_image_steps());
    Plan { admitted: true, steps }
}

/// The reply to each verdict on the deletion of the image `id`.
pub open spec fn delete_image_outcome(verdict: Verdict, id: i32) -> ReplyView {
    match verdict {
        Verdict::SetupFailed => not_set_up_view(),
        Verdict::Missing { step } => lacking_view(BAD_REQUEST, naming("No image with id "@, id, " was found."@)),
        Verdict::Failed { step, detail } => if step == 0 {
            store_failed_view(INTERNAL_SERVER_ERROR, "Failed to fetch image from database"@, detail@)
        } else {
            store_failed_view(BAD_REQUEST, "Failed to delete this resource"@, detail@)
        },
        Verdict::Conflict { step, detail } => conflicting_view(
            BAD_REQUEST,
            "Failed to delete this resource"@,
            detail@,
        ),
        Verdict::CommitFailed { detail } => store_failed_view(
            INTERNAL_SERVER_ERROR,
            "Internal server error"@,
            detail@,
        ),
        Verdict::Done { wrote } => succeeded_with(OK, "Resource deleted successfully."@),
        _ => unexpected_view(),
    }
}

/// Words the reply to a verdict on the deletion of the image `id`.
pub fn delete_image_reply(verdict: Verdict, id: i32) -> (reply: Reply)
    ensures
        reply@ == delete_image_outcome(verdict, id),
        reply@.classified(),
        reply@.succeeded() <==> verdict is Done,
{
    match verdict {
        Verdict::SetupFailed => not_set_up(),
        Verdict::Missing { step } => lacking(BAD_REQUEST, worded("No image with id ", id, " was found.")),
        Verdict::Failed { step, detail } => {
            if step == 0 {
                store_failed(INTERNAL_SERVER_ERROR, "Failed to fetch image from database", detail)
            } else {
                store_failed(BAD_REQUEST, "Failed to delete this resource", detail)
            }
        },
        Verdict::Conflict { step, detail } => conflicting(BAD_REQUEST, "Failed to delete this resource", detail),
        Verdict::CommitFailed { detail } => store_failed(INTERNAL_SERVER_ERROR, "Internal server error", detail),
        Verdict::Done { wrote } => success(OK, "Resource deleted successfully."),
        _ => unexpected(),
    }
}

/// An image is reported as uploaded only once its row and its file are
/// written and the row is committed.
pub proof fn lemma_uploaded_image_is_committed(
    plan: Plan,
    before: Seq<usize>,
    events: Seq<Event>,
    verdict: Verdict,
    field: Option<UploadFieldView>,
    limit: usize,
    read_error: Option<Seq<char>>,
)
    requires
        plan.steps@ == upload_steps(field, limit),
        conversation(plan, events),
        outcome(plan, before, events).1 == Action::Respond(verdict),
        upload_outcome(verdict, read_error).succeeded(),
    ensures
        outcome(plan, before, events).2.commits == 1,
        outcome(plan, before, events).2.rollbacks == 0,
        outcome(plan, before, events).2.performed.len() > 0,
        outcome(plan, before, events).2.visible == before + outcome(plan, before, events).2.performed,
{
    assert(writes_at(plan.steps@, 7));
    lemma_done_is_committed(plan, before, events);
}

/// An image is reported as renamed only once the update is committed.
pub proof fn lemma_patched_image_is_committed(
    plan: Plan,
    before: Seq<usize>,
    events: Seq<Event>,
    verdict: Verdict,
    id: i32,
)
    requires
        plan.steps@ == find_and_write(),
        conversation(plan, events),
        outcome(plan, before, events).1 == Action::Respond(verdict),
        patch_image_outcome(verdict, id).succeeded(),
    ensures
        outcome(plan, before, events).2.commits == 1,
        outcome(plan, before, events).2.rollbacks == 0,
        outcome(plan, before, events).2.performed.len() > 0,
        outcome(plan, before, events).2.visible == before + outcome(plan, before, events).2.performed,
{
    assert(writes_at(plan.steps@, 1));
    lemma_done_is_committed(plan, before, events);
}

/// An image is reported as deleted only once the deletion of its row is
/// committed.
pub proof fn lemma_deleted_image_is_committed(
    plan: Plan,
    before: Seq<usize>,
    events: Seq<Event>,
    verdict: Verdict,
    id: i32,
)
    requires
        plan.steps@ == delete_image_steps(),
        conversation(plan, events),
        outcome(plan, before, events).1 == Action::Respond(verdict),
        delete_image_outcome(verdict, id).succeeded(),
    ensures
        outcome(plan, before, events).2.commits == 1,
        outcome(plan, before, events).2.rollbacks == 0,
        outcome(plan, before, events).2.performed.len() > 0,
        outcome(plan, before, events).2.visible == before + outcome(plan, before, events).2.performed,
{
    assert(writes_at(plan.steps@, 1));
    lemma_done_is_committed(plan, before, events);
}

/// What the store says of a failure reaches the log and never the client: two
/// verdicts that differ only in that detail are answered with the same status
/// and the same body.
pub proof fn lemma_image_details_stay_in_the_log(
    a: Verdict,
    b: Verdict,
    id: i32,
    read_error: Option<Seq<char>>,
)
    requires
        alike(a, b),
    ensures
        print_image_outcome(a, id).told() == print_image_outcome(b, id).told(),
        upload_outcome(a, read_error).told() == upload_outcome(b, read_error).told(),
        patch_image_outcome(a, id).told() == patch_image_outcome(b, id).told(),
        delete_image_outcome(a, id).told() == delete_image_outcome(b, id).told(),
{
}

} // verus!
