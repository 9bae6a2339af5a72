//! How each outcome is classified for the request log, out of band from the
//! body that the client receives.

use vstd::prelude::*;
use vstd::string::*;
use crate::middleware::auth::AuthMiddlewareError;

verus! {

/// Why a request failed. Exactly one classification, or the success marker
/// `Ok(())`, travels with every reply.
#[derive(Clone, Debug)]
pub enum ApiError {
    /// No transaction could be opened; nothing was done.
    TransactionCreationFailed,
    /// The password could not be hashed.
    PasswordHashFailed(String),
    /// A failure described by its message alone.
    General(String),
    /// No session token could be issued.
    TokenGenerationFailed(String),
    /// The store failed a read, a write or a commit.
    DbError(String),
    /// The request's payload, or what it refers to, is not acceptable.
    ValidationFail(String),
    /// The store rejected a write for a constraint, such as a name already taken.
    Conflict(String),
    /// The request was turned away from a protected route, for the reason given.
    Unauthorized(AuthMiddlewareError),
}

/// The mathematical content of a classification.
pub enum ApiErrorView {
    TransactionCreationFailed,
    PasswordHashFailed(Seq<char>),
    General(Seq<char>),
    TokenGenerationFailed(Seq<char>),
    DbError(Seq<char>),
    ValidationFail(Seq<char>),
    Conflict(Seq<char>),
    Unauthorized(AuthMiddlewareError),
}

impl View for ApiError {
    type V = ApiErrorView;

    open spec fn view(&self) -> ApiErrorView {
        match self {
            ApiError::TransactionCreationFailed => ApiErrorView::TransactionCreationFailed,
            ApiError::PasswordHashFailed(v) => ApiErrorView::PasswordHashFailed(v@),
            ApiError::General(v) => ApiErrorView::General(v@),
            ApiError::TokenGenerationFailed(v) => ApiErrorView::TokenGenerationFailed(v@),
            ApiError::DbError(v) => ApiErrorView::DbError(v@),
            ApiError::ValidationFail(v) => ApiErrorView::ValidationFail(v@),
            ApiError::Conflict(v) => ApiErrorView::Conflict(v@),
            ApiError::Unauthorized(e) => ApiErrorView::Unauthorized(*e),
        }
    }
}

impl ApiErrorView {
    /// The detail that the log shows for the classification.
    pub open spec fn detail(self) -> Seq<char> {
        match self {
            ApiErrorView::TransactionCreationFailed => "Failed to create transaction"@,
            ApiErrorView::PasswordHashFailed(v) => "Failed to hash password "@ + v,
            ApiErrorView::General(v) => v,
            ApiErrorView::TokenGenerationFailed(v) => "Failed to generate token: "@ + v,
            ApiErrorView::DbError(v) => "Database error: "@ + v,
            ApiErrorView::ValidationFail(v) => "Failed to validate: "@ + v,
            ApiErrorView::Conflict(v) => "Conflict: "@ + v,
            ApiErrorView::Unauthorized(e) => e.message(),
        }
    }
}

fn prefixed(prefix: &str, value: &String) -> (text: String)
    ensures
        text@ == prefix@ + value@,
{
    let mut text = prefix.to_owned();
    text.append(value.as_str());
    text
}

impl ApiError {
    /// The detail that the log shows for the classification.
    pub fn to_string(&self) -> (text: String)
        ensures
            text@ == self@.detail(),
    {
        match self {
            ApiError::TransactionCreationFailed => "Failed to create transaction".to_owned(),
            ApiError::PasswordHashFailed(value) => prefixed("Failed to hash password ", value),
            ApiError::General(value) => value.clone(),
            ApiError::TokenGenerationFailed(value) => prefixed("Failed to generate token: ", value),
            ApiError::DbError(value) => prefixed("Database error: ", value),
            ApiError::ValidationFail(value) => prefixed("Failed to validate: ", value),
            ApiError::Conflict(value) => prefixed("Conflict: ", value),
            ApiError::Unauthorized(reason) => reason.to_string(),
        }
    }
}

/// What the client receives as the body of a reply.
#[derive(Clone, Debug)]
pub enum Body {
    /// Nothing.
    Empty,
    /// `{"message": ..}`
    Message(String),
    /// `{"error": ..}`
    Error(String),
    /// `{"token": ..}`
    Token(String),
    /// `{"username": ..}`
    Username(String),
    /// Rows or a file that the caller holds and serialises itself.
    Content,
}

/// The mathematical content of a body.
pub enum BodyView {
    Empty,
    Message(Seq<char>),
    Error(Seq<char>),
    Token(Seq<char>),
    Username(Seq<char>),
    Content,
}

impl View for Body {
    type V = BodyView;

    open spec fn view(&self) -> BodyView {
        match self {
            Body::Empty => BodyView::Empty,
            Body::Message(v) => BodyView::Message(v@),
            Body::Error(v) => BodyView::Error(v@),
            Body::Token(v) => BodyView::Token(v@),
            Body::Username(v) => BodyView::Username(v@),
            Body::Content => BodyView::Content,
        }
    }
}

/// The content of what is attached to a reply.
pub open spec fn extension_view(extension: Option<Result<(), ApiError>>) -> Option<Result<(), ApiErrorView>> {
    match extension {
        None => None,
        Some(Ok(())) => Some(Ok(())),
        Some(Err(e)) => Some(Err(e@)),
    }
}

/// A reply on its way to the client: the status and body that the client
/// sees, and the classification that only the request log sees.
#[derive(Clone, Debug)]
pub struct Reply {
    pub status: u16,
    pub body: Body,
    /// The outcome attached for the log; `None` until one is attached.
    pub extension: Option<Result<(), ApiError>>,
}

/// The mathematical content of a reply.
pub struct ReplyView {
    pub status: u16,
    pub body: BodyView,
    pub extension: Option<Result<(), ApiErrorView>>,
}

impl View for Reply {
    type V = ReplyView;

    open spec fn view(&self) -> ReplyView {
        ReplyView { status: self.status, body: self.body@, extension: extension_view(self.extension) }
    }
}

impl ReplyView {
    /// Whether exactly one outcome is attached.
    pub open spec fn classified(self) -> bool {
        self.extension is Some
    }

    /// What the client is told: the status and the body, and nothing of what
    /// is attached.
    pub open spec fn told(self) -> (u16, BodyView) {
        (self.status, self.body)
    }

    /// Whether the attached outcome is the success marker.
    pub open spec fn succeeded(self) -> bool {
        self.extension == Some(Ok::<(), ApiErrorView>(()))
    }
}

impl Reply {
    /// A reply with nothing attached yet.
    pub fn new(status: u16, body: Body) -> (reply: Reply)
        ensures
            reply@ == (ReplyView { status, body: body@, extension: None }),
    {
        Reply { status, body, extension: None }
    }
}

/// Attaches the outcome to a reply, in place of whatever was attached, and
/// leaves what the client sees as it is.
pub fn to_response(response: Reply, ext: Result<(), ApiError>) -> (reply: Reply)
    ensures
        reply@.status == response@.status,
        reply@.body == response@.body,
        reply@.extension == extension_view(Some(ext)),
        reply@.classified(),
{
    Reply { status: response.status, body: response.body, extension: Some(ext) }
}

/// How loudly the log speaks of a request.
#[derive(Clone, Copy, PartialEq, Eq, Debug, Structural)]
pub enum Level {
    Info,
    Warn,
    Error,
}

/// One entry of the request log.
#[derive(Debug)]
pub struct LogRecord {
    pub level: Level,
    pub message: String,
    pub method: String,
    pub uri: String,
    pub status: u16,
    /// The time the request took, in microseconds.
    pub elapsed: u64,
    /// The detail of the failure, where there was one.
    pub value: Option<String>,
}

/// The mathematical content of a log entry.
pub struct LogRecordView {
    pub level: Level,
    pub message: Seq<char>,
    pub method: Seq<char>,
    pub uri: Seq<char>,
    pub status: u16,
    pub elapsed: u64,
    pub value: Option<Seq<char>>,
}

impl View for LogRecord {
    type V = LogRecordView;

    open spec fn view(&self) -> LogRecordView {
        LogRecordView {
            level: self.level,
            message: self.message@,
            method: self.method@,
            uri: self.uri@,
            status: self.status,
            elapsed: self.elapsed,
            value: match self.value {
                Some(v) => Some(v@),
                None => None,
            },
        }
    }
}

/// The level at which a reply is logged: a success at `Info`, a failure at
/// `Error`, a reply with nothing attached at `Warn`.
pub open spec fn level_of(extension: Option<Result<(), ApiErrorView>>) -> Level {
    match extension {
        Some(Ok(())) => Level::Info,
        Some(Err(_)) => Level::Error,
        None => Level::Warn,
    }
}

/// The message of the log entry for a reply.
pub open spec fn message_of(extension: Option<Result<(), ApiErrorView>>) -> Seq<char> {
    match extension {
        Some(Ok(())) => "Processed request"@,
        Some(Err(_)) => "Failed to process request"@,
        None => "Processed request, but no Response extension is set"@,
    }
}

/// The failure detail of the log entry for a reply.
pub open spec fn value_of(extension: Option<Result<(), ApiErrorView>>) -> Option<Seq<char>> {
    match extension {
        Some(Err(e)) => Some(e.detail()),
        _ => None,
    }
}

/// The log entry for a finished request. The reply is only read.
pub fn logging_middleware(method: &str, uri: &str, elapsed: u64, response: &Reply) -> (record: LogRecord)
    ensures
        record@ == (LogRecordView {
            level: level_of(response@.extension),
            message: message_of(response@.extension),
            method: method@,
            uri: uri@,
            status: response@.status,
            elapsed,
            value: value_of(response@.extension),
        }),
{
    match &response.extension {
        Some(Ok(())) => LogRecord {
            level: Level::Info,
            message: "Processed request".to_owned(),
            method: method.to_owned(),
            uri: uri.to_owned(),
            status: response.status,
            elapsed,
            value: None,
        },
        Some(Err(value)) => LogRecord {
            level: Level::Error,
            message: "Failed to process request".to_owned(),
            method: method.to_owned(),
            uri: uri.to_owned(),
            status: response.status,
            elapsed,
            value: Some(value.to_string()),
        },
        None => LogRecord {
            level: Level::Warn,
            message: "Processed request, but no Response extension is set".to_owned(),
            method: method.to_owned(),
            uri: uri.to_owned(),
            status: response.status,
            elapsed,
            value: None,
        },
    }
}

} // verus!
