//! Session tokens and access to protected routes.
//!
//! A session token is a signed statement of a user's identifier, role and
//! expiry. Nothing about a session is kept on the server: a token is accepted
//! only while the user directory still holds that user with that role, so a
//! change of role or a deletion revokes every outstanding token at once.

use vstd::prelude::*;
use vstd::string::*;
use crate::entities::user::{Model, ModelView, Role};
use crate::middleware::logging::{to_response, ApiError, ApiErrorView, Body, BodyView, Reply, ReplyView};
use crate::text::{begins_with, after, strip_prefix};

verus! {

/// Why a token was not issued or not accepted.
#[derive(Clone, Copy, PartialEq, Eq, Debug, Structural)]
pub enum AuthMiddlewareError {
    /// The directory holds no user with the token's identifier and role, or
    /// the route asks for another role.
    InvalidUserOrRole,
    /// The token's expiry is past.
    TokenExpired,
    /// The token is not one of ours: it is malformed, its signature does not
    /// verify under the signing secret, or its claims are not a session's.
    ValidationFail,
    /// No token could be issued.
    GenerationFail,
    /// The directory could not be asked.
    InternalServerError,
}

impl AuthMiddlewareError {
    /// The text that describes the failure in the log.
    pub open spec fn message(self) -> Seq<char> {
        match self {
            AuthMiddlewareError::InvalidUserOrRole => "Invalid user id or role"@,
            AuthMiddlewareError::TokenExpired => "Token expired"@,
            AuthMiddlewareError::ValidationFail => "Failed to validate token"@,
            AuthMiddlewareError::GenerationFail => "Failed to generate token"@,
            AuthMiddlewareError::InternalServerError => "Internal server error"@,
        }
    }

    /// The text that describes the failure in the log.
    pub fn to_string(&self) -> (text: String)
        ensures
            text@ == self.message(),
    {
        match self {
            AuthMiddlewareError::InvalidUserOrRole => "Invalid user id or role".to_owned(),
            AuthMiddlewareError::TokenExpired => "Token expired".to_owned(),
            AuthMiddlewareError::ValidationFail => "Failed to validate token".to_owned(),
            AuthMiddlewareError::GenerationFail => "Failed to generate token".to_owned(),
            AuthMiddlewareError::InternalServerError => "Internal server error".to_owned(),
        }
    }
}

/// What a session token states: who the user is, which role the user held
/// when the token was issued, and the second (Unix time) after which the
/// token is no longer accepted.
#[derive(Clone, Debug)]
pub struct Claims {
    pub user_id: i32,
    pub role: String,
    pub exp: usize,
}

/// The mathematical content of a token's claims.
pub struct ClaimsView {
    pub user_id: i32,
    pub role: Seq<char>,
    pub exp: usize,
}

impl View for Claims {
    type V = ClaimsView;

    open spec fn view(&self) -> ClaimsView {
        ClaimsView { user_id: self.user_id, role: self.role@, exp: self.exp }
    }
}

/// How long a token is accepted after it was issued: 24 hours, in seconds.
pub const TOKEN_TTL: i64 = 86400;

/// The three fields of a token's payload as they were found in it: each is
/// `None` where the payload has no field of that name and type.
pub struct RawClaims {
    pub user_id: Option<i64>,
    pub role: Option<String>,
    pub exp: Option<u64>,
}

/// The mathematical content of a payload's fields.
pub struct RawClaimsView {
    pub user_id: Option<i64>,
    pub role: Option<Seq<char>>,
    pub exp: Option<u64>,
}

impl View for RawClaims {
    type V = RawClaimsView;

    open spec fn view(&self) -> RawClaimsView {
        RawClaimsView {
            user_id: self.user_id,
            role: match self.role {
                Some(r) => Some(r@),
                None => None,
            },
            exp: self.exp,
        }
    }
}

/// The HS256 token that states the three claims under `secret`, where one
/// can be made.
pub uninterp spec fn signed_token(user_id: i32, role: Seq<char>, exp: u64, secret: Seq<char>) -> Option<Seq<char>>;

/// The payload fields of `token`, where `token` is a well-formed HS256 token
/// whose signature verifies under `secret` and which carries an expiry.
pub uninterp spec fn token_payload(token: Seq<char>, secret: Seq<char>) -> Option<RawClaimsView>;

/// The expiry written in `token`, read without any regard to its signature.
pub uninterp spec fn unverified_expiry(token: Seq<char>) -> Option<u64>;

/// The fields of a payload that states exactly `claims`.
pub open spec fn raw_of(claims: ClaimsView) -> RawClaimsView {
    RawClaimsView {
        user_id: Some(claims.user_id as i64),
        role: Some(claims.role),
        exp: Some(claims.exp as u64),
    }
}

/// Whether the expiry that is read from `token` without regard to its
/// signature is the expiry of the payload that verifies under `secret`,
/// where one does. It is, for every token: both are read from the same
/// payload. Every function that opens a token says so of it.
pub open spec fn expiry_agrees(token: Seq<char>, secret: Seq<char>) -> bool {
    token_payload(token, secret) matches Some(raw) ==> unverified_expiry(token) == raw.exp
}

/// Whether `token` is a token for `claims` under `secret`: its signature
/// verifies, and its payload states these claims.
pub open spec fn opens_to(token: Seq<char>, secret: Seq<char>, claims: ClaimsView) -> bool {
    &&& token_payload(token, secret) == Some(raw_of(claims))
    &&& unverified_expiry(token) == Some(claims.exp as u64)
}

/// The content of an optional text.
pub open spec fn text_of(text: Option<String>) -> Option<Seq<char>> {
    match text {
        Some(t) => Some(t@),
        None => None,
    }
}

/// The content of an optional payload.
pub open spec fn payload_of(raw: Option<RawClaims>) -> Option<RawClaimsView> {
    match raw {
        Some(r) => Some(r@),
        None => None,
    }
}

/// `jsonwebtoken::encode` with the default header (HS256), a JSON object of
/// the fields `user_id`, `role` and `exp`, and the secret's bytes as the key.
/// The result is a function of the arguments. With this header, this kind
/// of key and a payload of three plain fields the call does not fail, and
/// the token opens under the same secret to the same three fields.
#[verifier::external_body]
fn sign_claims(user_id: i32, role: &str, exp: u64, secret: &str) -> (token: Option<String>)
    ensures
        text_of(token) == signed_token(user_id, role@, exp, secret@),
        token is Some,
        token matches Some(t) ==> token_payload(t@, secret@) == Some(
            RawClaimsView { user_id: Some(user_id as i64), role: Some(role@), exp: Some(exp) },
        ),
        token matches Some(t) ==> unverified_expiry(t@) == Some(exp),
{
    let mut claims = serde_json::Map::new();
    claims.insert("user_id".to_string(), serde_json::Value::from(user_id));
    claims.insert("role".to_string(), serde_json::Value::from(role));
    claims.insert("exp".to_string(), serde_json::Value::from(exp));
    let key = jsonwebtoken::EncodingKey::from_secret(secret.as_bytes());
    jsonwebtoken::encode(&jsonwebtoken::Header::default(), &serde_json::Value::Object(claims), &key).ok()
}

/// `jsonwebtoken::decode` for HS256 with the secret's bytes as the key and the
/// expiry left unjudged: the signature is verified and an expiry has to be
/// present. The result is a function of the arguments; the expiry of a token
/// that opens is the one that `peek_expiry` reads.
#[verifier::external_body]
fn open_token(token: &str, secret: &str) -> (raw: Option<RawClaims>)
    ensures
        payload_of(raw) == token_payload(token@, secret@),
        raw matches Some(r) ==> unverified_expiry(token@) == r.exp,
{
    let mut validation = jsonwebtoken::Validation::new(jsonwebtoken::Algorithm::HS256);
    validation.validate_exp = false;
    let key = jsonwebtoken::DecodingKey::from_secret(secret.as_bytes());
    let data = jsonwebtoken::decode::<serde_json::Value>(token, &key, &validation).ok()?;
    Some(RawClaims {
        user_id: data.claims["user_id"].as_i64(),
        role: data.claims["role"].as_str().map(String::from),
        exp: data.claims["exp"].as_u64(),
    })
}

/// `jsonwebtoken::decode` with the signature check switched off and the
/// expiry left unjudged: the expiry that the token's payload carries, as a
/// whole number of seconds, whoever wrote it.
#[verifier::external_body]
fn peek_expiry(token: &str) -> (exp: Option<u64>)
    ensures
        exp == unverified_expiry(token@),
{
    let mut validation = jsonwebtoken::Validation::new(jsonwebtoken::Algorithm::HS256);
    validation.validate_exp = false;
    validation.insecure_disable_signature_validation();
    let key = jsonwebtoken::DecodingKey::from_secret(&[]);
    let data = jsonwebtoken::decode::<serde_json::Value>(token, &key, &validation).ok()?;
    data.claims["exp"].as_u64()
}

/// The bound below which every reading of the clock lies: 2 to the power
/// of 43 seconds, which is past the last year that a date can name.
pub const CLOCK_END: i64 = 0x800_0000_0000;

/// `chrono::Utc::now().timestamp()`: the clock's reading, in seconds of Unix
/// time. Which reading it is, is not known; it is not negative, for the
/// time is taken as a duration since 1970, and it names a date, of which
/// none lies later than the year 262143.
#[verifier::external_body]
fn unix_now() -> (now: i64)
    ensures
        0 <= now < CLOCK_END,
{
    chrono::Utc::now().timestamp()
}

/// The claims that a payload states, where it states a session: an
/// identifier that fits 32 bits, a role name and an expiry.
pub open spec fn claims_of(raw: RawClaimsView) -> Option<ClaimsView> {
    match (raw.user_id, raw.role, raw.exp) {
        (Some(id), Some(role), Some(exp)) => if i32::MIN <= id <= i32::MAX && exp <= usize::MAX {
            Some(ClaimsView { user_id: id as i32, role, exp: exp as usize })
        } else {
            None
        },
        _ => None,
    }
}

/// The content of a result that carries claims.
pub open spec fn session_view(result: Result<Claims, AuthMiddlewareError>) -> Result<
    ClaimsView,
    AuthMiddlewareError,
> {
    match result {
        Ok(c) => Ok(c@),
        Err(e) => Err(e),
    }
}

/// The content of a result that carries a token.
pub open spec fn token_view(result: Result<String, AuthMiddlewareError>) -> Result<
    Seq<char>,
    AuthMiddlewareError,
> {
    match result {
        Ok(t) => Ok(t@),
        Err(e) => Err(e),
    }
}

/// The expiry of a token issued at `now`, where it can be written down.
pub open spec fn expiry_at(now: i64) -> Option<usize> {
    if 0 <= now + TOKEN_TTL <= i64::MAX && now + TOKEN_TTL <= usize::MAX {
        Some((now + TOKEN_TTL) as usize)
    } else {
        None
    }
}

/// What issuing a token at `now` gives.
pub open spec fn issue_spec(user_id: i32, role: Seq<char>, secret: Seq<char>, now: i64) -> Result<
    Seq<char>,
    AuthMiddlewareError,
> {
    match expiry_at(now) {
        None => Err(AuthMiddlewareError::GenerationFail),
        Some(exp) => match signed_token(user_id, role, exp as u64, secret) {
            Some(t) => Ok(t),
            None => Err(AuthMiddlewareError::GenerationFail),
        },
    }
}

/// Issues a token for a user and role at the time `now`: it expires
/// `TOKEN_TTL` seconds later. Fails with `GenerationFail` exactly where that
/// expiry cannot be written down.
pub fn issue_token(user_id: i32, role: &str, secret: &str, now: i64) -> (token: Result<
    String,
    AuthMiddlewareError,
>)
    ensures
        token_view(token) == issue_spec(user_id, role@, secret@, now),
        token is Ok <==> expiry_at(now) is Some,
        token matches Err(e) ==> e == AuthMiddlewareError::GenerationFail,
        token matches Ok(t) ==> opens_to(
            t@,
            secret@,
            ClaimsView { user_id, role: role@, exp: expiry_at(now)->0 },
        ),
{
    if now > i64::MAX - TOKEN_TTL {
        return Err(AuthMiddlewareError::GenerationFail);
    }
    let expiry: i64 = now + TOKEN_TTL;
    if expiry < 0 || expiry as u64 > usize::MAX as u64 {
        return Err(AuthMiddlewareError::GenerationFail);
    }
    match sign_claims(user_id, role, expiry as u64, secret) {
        Some(t) => Ok(t),
        None => Err(AuthMiddlewareError::GenerationFail),
    }
}

/// Issues a token for a user and role, valid for `TOKEN_TTL` seconds from
/// the clock's present reading. It fails only where the expiry cannot be
/// written down, which no reading of the clock brings about where `usize`
/// has 64 bits.
pub fn generate_token(user_id: i32, role: String, secret: &str) -> (token: Result<
    String,
    AuthMiddlewareError,
>)
    ensures
        exists|now: i64|
            {
                &&& 0 <= now < CLOCK_END
                &&& #[trigger] issue_spec(user_id, role@, secret@, now) == token_view(token)
                &&& token is Ok <==> expiry_at(now) is Some
                &&& token matches Ok(t) ==> opens_to(
                    t@,
                    secret@,
                    ClaimsView { user_id, role: role@, exp: expiry_at(now)->0 },
                )
            },
        usize::MAX >= u64::MAX ==> token is Ok,
{
    let now: i64 = unix_now();
    issue_token(user_id, role.as_str(), secret, now)
}

/// What decoding a token at `now` gives. A token whose payload carries an
/// expiry before `now` is expired, whatever its signature; any other token
/// has to verify under `secret` and state a session's claims.
pub open spec fn decode_spec(token: Seq<char>, secret: Seq<char>, now: i64) -> Result<
    ClaimsView,
    AuthMiddlewareError,
> {
    if unverified_expiry(token) matches Some(exp) && exp < now {
        Err(AuthMiddlewareError::TokenExpired)
    } else {
        match token_payload(token, secret) {
            None => Err(AuthMiddlewareError::ValidationFail),
            Some(raw) => match claims_of(raw) {
                None => Err(AuthMiddlewareError::ValidationFail),
                Some(c) => Ok(c),
            },
        }
    }
}

/// Decodes a token at the time `now`: `TokenExpired` where its expiry is
/// before `now`, `ValidationFail` where it does not verify under `secret` or
/// does not state a session's claims, and the claims otherwise. The user
/// directory is not consulted.
pub fn decode_token(token: &str, secret: &str, now: i64) -> (claims: Result<Claims, AuthMiddlewareError>)
    ensures
        session_view(claims) == decode_spec(token@, secret@, now),
        expiry_agrees(token@, secret@),
        claims matches Ok(c) ==> now <= c.exp,
{
    let opened = open_token(token, secret);
    match peek_expiry(token) {
        Some(exp) => {
            if now >= 0 && exp < now as u64 {
                return Err(AuthMiddlewareError::TokenExpired);
            }
        },
        None => {},
    }
    let raw = match opened {
        Some(raw) => raw,
        None => {
            return Err(AuthMiddlewareError::ValidationFail);
        },
    };
    match (raw.user_id, raw.role, raw.exp) {
        (Some(id), Some(role), Some(exp)) => {
            if id < i32::MIN as i64 || id > i32::MAX as i64 || exp > usize::MAX as u64 {
                Err(AuthMiddlewareError::ValidationFail)
            } else {
                Ok(Claims { user_id: id as i32, role, exp: exp as usize })
            }
        },
        _ => Err(AuthMiddlewareError::ValidationFail),
    }
}

/// What the user directory answered when asked for one user with one role.
#[derive(Clone, Copy, PartialEq, Eq, Debug, Structural)]
pub enum Lookup {
    /// It holds that user with that role.
    Found,
    /// It holds no such user, or the user holds another role.
    Missing,
    /// It could not be asked.
    Unavailable,
}

/// Whether the directory holds the user `id` with the role `role`.
pub open spec fn holds_role(users: Seq<ModelView>, id: i32, role: Role) -> bool {
    exists|i: int| 0 <= i < users.len() && (#[trigger] users[i]).id == id && users[i].role == role
}

/// The content of a list of users.
pub open spec fn directory_view(users: Seq<Model>) -> Seq<ModelView> {
    users.map_values(|u: Model| u@)
}

/// What an in-memory directory answers.
pub open spec fn lookup_in(users: Seq<ModelView>, id: i32, role: Role) -> Lookup {
    if holds_role(users, id, role) {
        Lookup::Found
    } else {
        Lookup::Missing
    }
}

/// Asks an in-memory directory for the user `id` with the role `role`.
pub fn find_user_with_role(users: &Vec<Model>, id: i32, role: Role) -> (answer: Lookup)
    ensures
        answer == lookup_in(directory_view(users@), id, role),
{
    let mut i: usize = 0;
    while i < users.len()
        invariant
            i <= users.len(),
            forall|j: int|
                0 <= j < i ==> !((#[trigger] directory_view(users@)[j]).id == id && directory_view(
                    users@,
                )[j].role == role),
        decreases users.len() - i,
    {
        if users[i].id == id && users[i].role == role {
            assert(directory_view(users@)[i as int].id == id);
            return Lookup::Found;
        }
        i += 1;
    }
    Lookup::Missing
}

/// A decoded token on its way through validation: the claims, and the role
/// that they name. The directory has to confirm the user with this role.
#[derive(Debug)]
pub struct Session {
    pub claims: Claims,
    pub role: Role,
}

/// The mathematical content of a pending session.
pub struct SessionView {
    pub claims: ClaimsView,
    pub role: Role,
}

impl View for Session {
    type V = SessionView;

    open spec fn view(&self) -> SessionView {
        SessionView { claims: self.claims@, role: self.role }
    }
}

/// The content of a result that carries a pending session.
pub open spec fn pending_view(result: Result<Session, AuthMiddlewareError>) -> Result<
    SessionView,
    AuthMiddlewareError,
> {
    match result {
        Ok(s) => Ok(s@),
        Err(e) => Err(e),
    }
}

/// The first half of validation, which needs no directory: the token decodes
/// at `now` and its role is one of the two that exist.
pub open spec fn session_spec(token: Seq<char>, secret: Seq<char>, now: i64) -> Result<
    SessionView,
    AuthMiddlewareError,
> {
    match decode_spec(token, secret, now) {
        Err(e) => Err(e),
        Ok(claims) => match Role::parse(claims.role) {
            None => Err(AuthMiddlewareError::ValidationFail),
            Some(role) => Ok(SessionView { claims, role }),
        },
    }
}

/// The second half of validation: what the directory answered, and the role
/// that the route requires. A token is accepted only if the directory still
/// holds its user with its role, and that role is the required one.
pub open spec fn confirm_spec(session: SessionView, answer: Lookup, req_role: Role) -> Result<
    ClaimsView,
    AuthMiddlewareError,
> {
    match answer {
        Lookup::Unavailable => Err(AuthMiddlewareError::InternalServerError),
        Lookup::Missing => Err(AuthMiddlewareError::InvalidUserOrRole),
        Lookup::Found => if session.role == req_role {
            Ok(session.claims)
        } else {
            Err(AuthMiddlewareError::InvalidUserOrRole)
        },
    }
}

/// What validating a token against a directory gives.
pub open spec fn validate_spec(
    users: Seq<ModelView>,
    token: Seq<char>,
    req_role: Role,
    secret: Seq<char>,
    now: i64,
) -> Result<ClaimsView, AuthMiddlewareError> {
    match session_spec(token, secret, now) {
        Err(e) => Err(e),
        Ok(session) => confirm_spec(
            session,
            lookup_in(users, session.claims.user_id, session.role),
            req_role,
        ),
    }
}

/// Decodes a token and names the directory entry that has to confirm it: the
/// user `claims.user_id` with the role `role`.
pub fn begin_validation(token: &str, secret: &str, now: i64) -> (session: Result<
    Session,
    AuthMiddlewareError,
>)
    ensures
        pending_view(session) == session_spec(token@, secret@, now),
        expiry_agrees(token@, secret@),
        session matches Ok(s) ==> now <= s.claims.exp,
{
    let claims = match decode_token(token, secret, now) {
        Ok(claims) => claims,
        Err(e) => {
            return Err(e);
        },
    };
    match Role::from_str(claims.role.as_str()) {
        Ok(role) => Ok(Session { claims, role }),
        Err(_) => Err(AuthMiddlewareError::ValidationFail),
    }
}

/// Decides on a decoded token from the directory's answer and the role that
/// the route requires.
pub fn finish_validation(session: Session, answer: Lookup, req_role: Role) -> (claims: Result<
    Claims,
    AuthMiddlewareError,
>)
    ensures
        session_view(claims) == confirm_spec(session@, answer, req_role),
{
    match answer {
        Lookup::Unavailable => Err(AuthMiddlewareError::InternalServerError),
        Lookup::Missing => Err(AuthMiddlewareError::InvalidUserOrRole),
        Lookup::Found => {
            if session.role == req_role {
                Ok(session.claims)
            } else {
                Err(AuthMiddlewareError::InvalidUserOrRole)
            }
        },
    }
}

/// Validates a token against the directory `users` at the time `now`, for a
/// route that requires `req_role`.
///
/// Fails with `TokenExpired` or `ValidationFail` as decoding does, with
/// `ValidationFail` where the token names no role that exists, and with
/// `InvalidUserOrRole` where the directory does not hold the user with the
/// token's role or the route requires another role.
pub fn validate_token(users: &Vec<Model>, token: &str, req_role: Role, secret: &str, now: i64) -> (claims:
    Result<Claims, AuthMiddlewareError>)
    ensures
        session_view(claims) == validate_spec(directory_view(users@), token@, req_role, secret@, now),
        expiry_agrees(token@, secret@),
        claims matches Ok(c) ==> now <= c.exp,
{
    let session = match begin_validation(token, secret, now) {
        Ok(session) => session,
        Err(e) => {
            return Err(e);
        },
    };
    let answer = find_user_with_role(users, session.claims.user_id, session.role);
    finish_validation(session, answer, req_role)
}

/// The status of every reply to a request that is turned away.
pub const UNAUTHORIZED: u16 = 401;

/// The scheme that the `Authorization` header has to name, and the space
/// that follows it.
pub open spec fn bearer_prefix() -> Seq<char> {
    "Bearer "@
}

/// What the log is told where the header is absent or names no bearer token.
pub open spec fn missing_bearer() -> Seq<char> {
    "missing/invalid Authorization"@
}

/// The token that an `Authorization` header carries.
pub open spec fn bearer_spec(authorization: Option<Seq<char>>) -> Option<Seq<char>> {
    match authorization {
        Some(header) => if begins_with(header, bearer_prefix()) {
            Some(after(header, bearer_prefix().len()))
        } else {
            None
        },
        None => None,
    }
}

/// The content of an optional header.
pub open spec fn header_view(authorization: Option<&str>) -> Option<Seq<char>> {
    match authorization {
        Some(h) => Some(h@),
        None => None,
    }
}

/// Takes the token out of an `Authorization` header: what follows `Bearer `.
pub fn bearer_token<'a>(authorization: Option<&'a str>) -> (token: Option<&'a str>)
    ensures
        header_view(token) == bearer_spec(header_view(authorization)),
{
    match authorization {
        Some(header) => strip_prefix(header, "Bearer "),
        None => None,
    }
}

/// Where a request stands on its way into a protected route.
#[derive(Debug)]
pub enum Access {
    /// The token decoded; the directory has yet to confirm the session.
    Pending(Session),
    /// The request goes on to its handler, which reads these claims.
    Authorized(Claims),
    /// The request ends here, with this reply.
    Rejected(Reply),
}

/// The mathematical content of a request's standing.
pub enum AccessView {
    Pending(SessionView),
    Authorized(ClaimsView),
    Rejected(ReplyView),
}

impl View for Access {
    type V = AccessView;

    open spec fn view(&self) -> AccessView {
        match self {
            Access::Pending(s) => AccessView::Pending(s@),
            Access::Authorized(c) => AccessView::Authorized(c@),
            Access::Rejected(r) => AccessView::Rejected(r@),
        }
    }
}

/// The reply to a request that is turned away: the same status and the
/// same empty body whatever the reason, and the reason attached for the log.
pub open spec fn rejection(reason: ApiErrorView) -> ReplyView {
    ReplyView { status: UNAUTHORIZED, body: BodyView::Empty, extension: Some(Err(reason)) }
}

fn reject(reason: ApiError) -> (access: Access)
    ensures
        access@ == AccessView::Rejected(rejection(reason@)),
{
    Access::Rejected(to_response(Reply::new(UNAUTHORIZED, Body::Empty), Err(reason)))
}

/// Where a request stands once its header has been read.
pub open spec fn arrive_spec(authorization: Option<Seq<char>>, secret: Seq<char>, now: i64) -> AccessView {
    match bearer_spec(authorization) {
        None => AccessView::Rejected(rejection(ApiErrorView::General(missing_bearer()))),
        Some(token) => match session_spec(token, secret, now) {
            Err(e) => AccessView::Rejected(rejection(ApiErrorView::Unauthorized(e))),
            Ok(session) => AccessView::Pending(session),
        },
    }
}

/// Where a pending request stands once the directory has answered.
pub open spec fn settle_spec(session: SessionView, answer: Lookup, role: Role) -> AccessView {
    match confirm_spec(session, answer, role) {
        Err(e) => AccessView::Rejected(rejection(ApiErrorView::Unauthorized(e))),
        Ok(claims) => AccessView::Authorized(claims),
    }
}

/// Where a request stands on its way into a route that requires `role`, with
/// the directory `users`.
pub open spec fn access_spec(
    role: Role,
    users: Seq<ModelView>,
    authorization: Option<Seq<char>>,
    secret: Seq<char>,
    now: i64,
) -> AccessView {
    match arrive_spec(authorization, secret, now) {
        AccessView::Pending(session) => settle_spec(
            session,
            lookup_in(users, session.claims.user_id, session.role),
            role,
        ),
        other => other,
    }
}

/// Reads the `Authorization` header of a request to a protected route at the
/// time `now`. The request is rejected where the header is absent, names no
/// bearer token, or carries a token that does not decode; it is pending
/// otherwise, until the directory has been asked.
pub fn arrive_at(authorization: Option<&str>, secret: &str, now: i64) -> (access: Access)
    ensures
        access@ == arrive_spec(header_view(authorization), secret@, now),
        !(access@ is Authorized),
        bearer_spec(header_view(authorization)) matches Some(token) ==> expiry_agrees(token, secret@),
        access@ matches AccessView::Pending(session) ==> now <= session.claims.exp,
{
    let token = match bearer_token(authorization) {
        Some(token) => token,
        None => {
            return reject(ApiError::General("missing/invalid Authorization".to_owned()));
        },
    };
    match begin_validation(token, secret, now) {
        Ok(session) => Access::Pending(session),
        Err(e) => reject(ApiError::Unauthorized(e)),
    }
}

/// Settles a pending request from the directory's answer: authorized where
/// the directory confirms the session and its role is the one that the route
/// requires, rejected otherwise.
pub fn settle(session: Session, answer: Lookup, role: Role) -> (access: Access)
    ensures
        access@ == settle_spec(session@, answer, role),
        !(access@ is Pending),
{
    match finish_validation(session, answer, role) {
        Ok(claims) => Access::Authorized(claims),
        Err(e) => reject(ApiError::Unauthorized(e)),
    }
}

/// Access to a route that requires `role`, against the directory `users`
/// at the time `now`: the request is authorized, with the claims that its
/// handler will read, or rejected with status 401, an empty body and the
/// reason attached for the log.
pub fn auth_middleware(
    role: Role,
    users: &Vec<Model>,
    authorization: Option<&str>,
    secret: &str,
    now: i64,
) -> (access: Access)
    ensures
        access@ == access_spec(role, directory_view(users@), header_view(authorization), secret@, now),
        !(access@ is Pending),
        bearer_spec(header_view(authorization)) matches Some(token) ==> expiry_agrees(token, secret@),
        access@ matches AccessView::Authorized(claims) ==> now <= claims.exp,
        access@ matches AccessView::Rejected(reply) ==> reply.classified() && !reply.succeeded()
            && reply.status == UNAUTHORIZED && reply.body == BodyView::Empty,
{
    match arrive_at(authorization, secret, now) {
        Access::Pending(session) => {
            let answer = find_user_with_role(users, session.claims.user_id, session.role);
            settle(session, answer, role)
        },
        other => other,
    }
}

/// Reads the `Authorization` header of a request to a protected route at
/// the clock's present reading.
pub fn arrive(authorization: Option<&str>, secret: &str) -> (access: Access)
    ensures
        exists|now: i64|
            {
                &&& 0 <= now < CLOCK_END
                &&& #[trigger] arrive_spec(header_view(authorization), secret@, now) == access@
                &&& access@ matches AccessView::Pending(session) ==> now <= session.claims.exp
            },
        !(access@ is Authorized),
        bearer_spec(header_view(authorization)) matches Some(token) ==> expiry_agrees(token, secret@),
{
    let now: i64 = unix_now();
    arrive_at(authorization, secret, now)
}

/// The directory after the user `id` was given the role `role`.
pub open spec fn with_role(users: Seq<ModelView>, id: i32, role: Role) -> Seq<ModelView> {
    users.map_values(
        |u: ModelView|
            if u.id == id {
                ModelView { role, ..u }
            } else {
                u
            },
    )
}

/// The directory after the user `id` was deleted.
pub open spec fn without_user(users: Seq<ModelView>, id: i32) -> Seq<ModelView> {
    users.filter(|u: ModelView| u.id != id)
}

/// A token issued for a user and role validates, up to and including the
/// second of its expiry, for as long as the directory holds that user with
/// that role, on every route that requires that role.
///
/// `opens_to` is what `issue_token` and `generate_token` promise of the
/// token they return.
pub proof fn lemma_issued_token_validates(
    users: Seq<ModelView>,
    token: Seq<char>,
    secret: Seq<char>,
    claims: ClaimsView,
    role: Role,
    now: i64,
)
    requires
        opens_to(token, secret, claims),
        Role::parse(claims.role) == Some(role),
        holds_role(users, claims.user_id, role),
        now <= claims.exp,
    ensures
        validate_spec(users, token, role, secret, now) == Ok::<ClaimsView, AuthMiddlewareError>(claims),
{
    assert(claims_of(raw_of(claims)) == Some(claims));
}

/// A token whose user the directory no longer holds with the token's role
/// fails with `InvalidUserOrRole` on every route, though its signature
/// verifies and its expiry is still ahead.
pub proof fn lemma_unconfirmed_token_fails(
    users: Seq<ModelView>,
    token: Seq<char>,
    secret: Seq<char>,
    claims: ClaimsView,
    role: Role,
    req_role: Role,
    now: i64,
)
    requires
        opens_to(token, secret, claims),
        Role::parse(claims.role) == Some(role),
        !holds_role(users, claims.user_id, role),
        now <= claims.exp,
    ensures
        validate_spec(users, token, req_role, secret, now) == Err::<ClaimsView, AuthMiddlewareError>(
            AuthMiddlewareError::InvalidUserOrRole,
        ),
{
    assert(claims_of(raw_of(claims)) == Some(claims));
}

/// Once a user's stored role has changed, the directory no longer holds the
/// user with any other role.
pub proof fn lemma_role_change_unseats(users: Seq<ModelView>, id: i32, new_role: Role, role: Role)
    requires
        new_role != role,
    ensures
        !holds_role(with_role(users, id, new_role), id, role),
{
    let changed = with_role(users, id, new_role);
    assert forall|i: int| 0 <= i < changed.len() && (#[trigger] changed[i]).id == id implies changed[i].role
        != role by {
        assert(changed[i].id == users[i].id);
    }
}

/// Once a user has been deleted, the directory holds the user with no role.
pub proof fn lemma_deletion_unseats(users: Seq<ModelView>, id: i32, role: Role)
    ensures
        !holds_role(without_user(users, id), id, role),
{
    let keep = |u: ModelView| u.id != id;
    let rest = without_user(users, id);
    assert forall|i: int| 0 <= i < rest.len() implies (#[trigger] rest[i]).id != id by {
        users.lemma_filter_pred(keep, i);
    }
}

/// Revocation by re-check: once the stored role of a token's user has
/// changed, or the user has been deleted, the token fails with
/// `InvalidUserOrRole`, though its signature verifies and its expiry is
/// still ahead.
pub proof fn lemma_revoked_token_fails(
    users: Seq<ModelView>,
    token: Seq<char>,
    secret: Seq<char>,
    claims: ClaimsView,
    role: Role,
    new_role: Role,
    req_role: Role,
    now: i64,
)
    requires
        opens_to(token, secret, claims),
        Role::parse(claims.role) == Some(role),
        new_role != role,
        now <= claims.exp,
    ensures
        validate_spec(with_role(users, claims.user_id, new_role), token, req_role, secret, now) == Err::<
            ClaimsView,
            AuthMiddlewareError,
        >(AuthMiddlewareError::InvalidUserOrRole),
        validate_spec(without_user(users, claims.user_id), token, req_role, secret, now) == Err::<
            ClaimsView,
            AuthMiddlewareError,
        >(AuthMiddlewareError::InvalidUserOrRole),
{
    lemma_role_change_unseats(users, claims.user_id, new_role, role);
    lemma_deletion_unseats(users, claims.user_id, role);
    lemma_unconfirmed_token_fails(
        with_role(users, claims.user_id, new_role),
        token,
        secret,
        claims,
        role,
        req_role,
        now,
    );
    lemma_unconfirmed_token_fails(
        without_user(users, claims.user_id),
        token,
        secret,
        claims,
        role,
        req_role,
        now,
    );
}

/// A token whose payload carries an expiry before `now` fails with
/// `TokenExpired`, whether or not its signature verifies and whatever the
/// directory holds.
pub proof fn lemma_expired_token_fails(
    users: Seq<ModelView>,
    token: Seq<char>,
    secret: Seq<char>,
    req_role: Role,
    exp: u64,
    now: i64,
)
    requires
        unverified_expiry(token) == Some(exp),
        exp < now,
    ensures
        decode_spec(token, secret, now) == Err::<ClaimsView, AuthMiddlewareError>(
            AuthMiddlewareError::TokenExpired,
        ),
        validate_spec(users, token, req_role, secret, now) == Err::<ClaimsView, AuthMiddlewareError>(
            AuthMiddlewareError::TokenExpired,
        ),
{
}

/// A token is accepted only if its signature verifies, its expiry is not
/// past, the directory holds its user with its role, and that role is the
/// one that the route requires.
pub proof fn lemma_accepted_token(
    users: Seq<ModelView>,
    token: Seq<char>,
    secret: Seq<char>,
    req_role: Role,
    now: i64,
    claims: ClaimsView,
)
    requires
        validate_spec(users, token, req_role, secret, now) == Ok::<ClaimsView, AuthMiddlewareError>(claims),
    ensures
        token_payload(token, secret) is Some,
        claims_of(token_payload(token, secret)->0) == Some(claims),
        unverified_expiry(token) matches Some(exp) ==> now <= exp,
        Role::parse(claims.role) == Some(req_role),
        holds_role(users, claims.user_id, req_role),
{
}

/// A token is accepted if and only if its signature verifies, its payload
/// states a session's claims, its expiry is not past, the directory holds
/// its user with its role, and that role is the one that the route
/// requires; the claims that come back are those of the verified payload.
pub proof fn lemma_accepted_exactly(
    users: Seq<ModelView>,
    token: Seq<char>,
    secret: Seq<char>,
    req_role: Role,
    now: i64,
    claims: ClaimsView,
)
    requires
        expiry_agrees(token, secret),
    ensures
        validate_spec(users, token, req_role, secret, now) == Ok::<ClaimsView, AuthMiddlewareError>(claims) <==> {
            &&& token_payload(token, secret) matches Some(raw)
            &&& claims_of(raw) == Some(claims)
            &&& now <= claims.exp
            &&& Role::parse(claims.role) == Some(req_role)
            &&& holds_role(users, claims.user_id, req_role)
        },
{
}

/// Whatever is decided, a rejected request carries exactly one
/// classification, which is a failure, and the client is told nothing but
/// the status 401.
pub proof fn lemma_rejection_is_classified(
    role: Role,
    users: Seq<ModelView>,
    authorization: Option<Seq<char>>,
    secret: Seq<char>,
    now: i64,
)
    ensures
        !(access_spec(role, users, authorization, secret, now) is Pending),
        access_spec(role, users, authorization, secret, now) matches AccessView::Rejected(reply) ==> {
            &&& reply.classified()
            &&& !reply.succeeded()
            &&& reply.status == UNAUTHORIZED
            &&& reply.body == BodyView::Empty
        },
        access_spec(role, users, authorization, secret, now) matches AccessView::Authorized(claims) ==> {
            &&& bearer_spec(authorization) matches Some(token)
            &&& validate_spec(users, token, role, secret, now) == Ok::<ClaimsView, AuthMiddlewareError>(claims)
        },
{
}

} // verus!
