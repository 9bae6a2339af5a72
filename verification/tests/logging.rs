use baranki::middleware::auth::AuthMiddlewareError;
use baranki::middleware::logging::{logging_middleware, to_response, ApiError, Body, Level, Reply};

#[test]
fn classifications_have_their_details() {
    assert_eq!(ApiError::TransactionCreationFailed.to_string(), "Failed to create transaction");
    assert_eq!(ApiError::PasswordHashFailed("x".to_string()).to_string(), "Failed to hash password x");
    assert_eq!(ApiError::General("plain".to_string()).to_string(), "plain");
    assert_eq!(ApiError::TokenGenerationFailed("y".to_string()).to_string(), "Failed to generate token: y");
    assert_eq!(ApiError::DbError("down".to_string()).to_string(), "Database error: down");
    assert_eq!(ApiError::ValidationFail("name".to_string()).to_string(), "Failed to validate: name");
    assert_eq!(ApiError::Conflict("taken".to_string()).to_string(), "Conflict: taken");
    assert_eq!(ApiError::Unauthorized(AuthMiddlewareError::TokenExpired).to_string(), "Token expired");
    assert_eq!(ApiError::General(String::new()).to_string(), "");
}

#[test]
fn new_reply_has_nothing_attached() {
    let reply = Reply::new(204, Body::Empty);
    assert_eq!(reply.status, 204);
    assert!(reply.extension.is_none());
}

#[test]
fn outcome_is_attached_out_of_band() {
    let reply = to_response(Reply::new(200, Body::Message("alive".to_string())), Ok(()));
    assert_eq!(reply.status, 200);
    assert!(matches!(&reply.body, Body::Message(text) if text == "alive"));
    assert!(matches!(reply.extension, Some(Ok(()))));
    let failed = to_response(
        Reply::new(500, Body::Error("Internal server error".to_string())),
        Err(ApiError::DbError("connection reset".to_string())),
    );
    assert_eq!(failed.status, 500);
    assert!(matches!(&failed.body, Body::Error(text) if text == "Internal server error"));
    assert!(matches!(&failed.extension, Some(Err(ApiError::DbError(detail))) if detail == "connection reset"));
}

#[test]
fn attaching_again_replaces_the_outcome() {
    let reply = to_response(Reply::new(200, Body::Empty), Err(ApiError::TransactionCreationFailed));
    let reply = to_response(reply, Ok(()));
    assert!(matches!(reply.extension, Some(Ok(()))));
}

#[test]
fn success_is_logged_at_info() {
    let reply = to_response(Reply::new(201, Body::Message("created".to_string())), Ok(()));
    let record = logging_middleware("POST", "/api/admin/category", 1_500, &reply);
    assert_eq!(record.level, Level::Info);
    assert_eq!(record.message, "Processed request");
    assert_eq!(record.method, "POST");
    assert_eq!(record.uri, "/api/admin/category");
    assert_eq!(record.status, 201);
    assert_eq!(record.elapsed, 1_500);
    assert_eq!(record.value, None);
    assert_eq!(reply.status, 201);
}

#[test]
fn failure_is_logged_at_error_with_its_detail() {
    let reply = to_response(
        Reply::new(409, Body::Error("Category already exists".to_string())),
        Err(ApiError::Conflict("UNIQUE constraint failed: category.name".to_string())),
    );
    let record = logging_middleware("POST", "/api/admin/category", 7, &reply);
    assert_eq!(record.level, Level::Error);
    assert_eq!(record.message, "Failed to process request");
    assert_eq!(record.status, 409);
    assert_eq!(record.value.as_deref(), Some("Conflict: UNIQUE constraint failed: category.name"));
    assert!(matches!(&reply.body, Body::Error(text) if text == "Category already exists"));
}

#[test]
fn unclassified_reply_is_logged_as_a_warning() {
    let reply = Reply::new(200, Body::Content);
    let record = logging_middleware("GET", "/", 0, &reply);
    assert_eq!(record.level, Level::Warn);
    assert_eq!(record.message, "Processed request, but no Response extension is set");
    assert_eq!(record.value, None);
    assert_eq!(record.status, 200);
}
