use baranki::entities::user::{Model, Role};
use baranki::middleware::auth::{
    begin_validation, decode_token, find_user_with_role, finish_validation, generate_token, issue_token,
    validate_token, AuthMiddlewareError, Claims, Lookup, Session, TOKEN_TTL,
};

fn user(id: i32, name: &str, role: Role) -> Model {
    Model { id, username: name.to_string(), password: String::new(), role }
}

fn directory() -> Vec<Model> {
    vec![user(1, "root", Role::Admin), user(2, "guest", Role::User)]
}

#[test]
fn issued_token_decodes_to_its_claims() {
    let token = issue_token(1, "admin", "secret", 1_000).unwrap();
    let claims = decode_token(&token, "secret", 1_000).unwrap();
    assert_eq!(claims.user_id, 1);
    assert_eq!(claims.role, "admin");
    assert_eq!(claims.exp as i64, 1_000 + TOKEN_TTL);
}

#[test]
fn token_has_three_parts_and_is_reproducible() {
    let first = issue_token(7, "user", "secret", 5).unwrap();
    let second = issue_token(7, "user", "secret", 5).unwrap();
    assert_eq!(first, second);
    assert_eq!(first.split('.').count(), 3);
    assert_ne!(first, issue_token(7, "user", "secret", 6).unwrap());
    assert_ne!(first, issue_token(7, "user", "secret2", 5).unwrap());
    assert_ne!(first, issue_token(8, "user", "secret", 5).unwrap());
    assert_ne!(first, issue_token(7, "admin", "secret", 5).unwrap());
}

#[test]
fn token_lives_for_a_day() {
    assert_eq!(TOKEN_TTL, 24 * 60 * 60);
    let token = issue_token(2, "user", "k", 0).unwrap();
    assert_eq!(decode_token(&token, "k", 0).unwrap().exp, 86_400);
}

#[test]
fn issuing_fails_where_the_expiry_cannot_be_written() {
    assert_eq!(issue_token(1, "admin", "secret", i64::MAX).unwrap_err(), AuthMiddlewareError::GenerationFail);
    assert_eq!(
        issue_token(1, "admin", "secret", i64::MAX - TOKEN_TTL + 1).unwrap_err(),
        AuthMiddlewareError::GenerationFail
    );
    assert_eq!(
        issue_token(1, "admin", "secret", -TOKEN_TTL - 1).unwrap_err(),
        AuthMiddlewareError::GenerationFail
    );
    assert!(issue_token(1, "admin", "secret", -TOKEN_TTL).is_ok());
}

#[test]
fn issued_token_validates_then_fails_after_downgrade() {
    let token = issue_token(1, "admin", "secret", 1_000).unwrap();
    let claims = validate_token(&directory(), &token, Role::Admin, "secret", 1_000).unwrap();
    assert_eq!(claims.user_id, 1);
    assert_eq!(claims.role, "admin");
    let downgraded = vec![user(1, "root", Role::User), user(2, "guest", Role::User)];
    let again = validate_token(&downgraded, &token, Role::Admin, "secret", 1_000);
    assert_eq!(again.unwrap_err(), AuthMiddlewareError::InvalidUserOrRole);
}

#[test]
fn issued_token_validates_until_its_expiry() {
    let token = issue_token(2, "user", "secret", 1_000).unwrap();
    let users = directory();
    for now in [0, 1_000, 2_000, 1_000 + TOKEN_TTL - 1, 1_000 + TOKEN_TTL] {
        let claims = validate_token(&users, &token, Role::User, "secret", now).unwrap();
        assert_eq!(claims.user_id, 2);
        assert_eq!(claims.role, "user");
        assert_eq!(claims.exp as i64, 1_000 + TOKEN_TTL);
    }
    let late = validate_token(&users, &token, Role::User, "secret", 1_000 + TOKEN_TTL + 1);
    assert_eq!(late.unwrap_err(), AuthMiddlewareError::TokenExpired);
}

#[test]
fn token_of_a_deleted_user_is_revoked() {
    let token = issue_token(2, "user", "secret", 1_000).unwrap();
    let without = vec![user(1, "root", Role::Admin)];
    assert_eq!(
        validate_token(&without, &token, Role::User, "secret", 1_000).unwrap_err(),
        AuthMiddlewareError::InvalidUserOrRole
    );
    assert_eq!(
        validate_token(&Vec::new(), &token, Role::User, "secret", 1_000).unwrap_err(),
        AuthMiddlewareError::InvalidUserOrRole
    );
}

#[test]
fn token_of_a_promoted_user_is_revoked_too() {
    let token = issue_token(2, "user", "secret", 1_000).unwrap();
    let promoted = vec![user(1, "root", Role::Admin), user(2, "guest", Role::Admin)];
    assert_eq!(
        validate_token(&promoted, &token, Role::User, "secret", 1_000).unwrap_err(),
        AuthMiddlewareError::InvalidUserOrRole
    );
    assert_eq!(
        validate_token(&promoted, &token, Role::Admin, "secret", 1_000).unwrap_err(),
        AuthMiddlewareError::InvalidUserOrRole
    );
}

#[test]
fn valid_token_fails_on_a_route_for_another_role() {
    let token = issue_token(2, "user", "secret", 1_000).unwrap();
    assert_eq!(
        validate_token(&directory(), &token, Role::Admin, "secret", 1_000).unwrap_err(),
        AuthMiddlewareError::InvalidUserOrRole
    );
    let admin = issue_token(1, "admin", "secret", 1_000).unwrap();
    assert_eq!(
        validate_token(&directory(), &admin, Role::User, "secret", 1_000).unwrap_err(),
        AuthMiddlewareError::InvalidUserOrRole
    );
}

#[test]
fn token_signed_with_wrong_key_is_invalid() {
    let token = issue_token(1, "admin", "other secret", 1_000).unwrap();
    assert_eq!(decode_token(&token, "secret", 1_000).unwrap_err(), AuthMiddlewareError::ValidationFail);
    assert_eq!(
        validate_token(&directory(), &token, Role::Admin, "secret", 1_000).unwrap_err(),
        AuthMiddlewareError::ValidationFail
    );
}

#[test]
fn tampered_token_is_invalid() {
    let token = issue_token(2, "user", "secret", 1_000).unwrap();
    let forged = issue_token(2, "admin", "guess", 1_000).unwrap();
    let signature = token.rsplit('.').next().unwrap();
    let mut parts: Vec<&str> = forged.split('.').collect();
    parts[2] = signature;
    let spliced = parts.join(".");
    assert_eq!(decode_token(&spliced, "secret", 1_000).unwrap_err(), AuthMiddlewareError::ValidationFail);
}

#[test]
fn malformed_token_is_invalid() {
    for text in ["", "abc", "a.b", "a.b.c", "a.b.c.d", "....", "Bearer x"] {
        assert_eq!(decode_token(text, "secret", 1_000).unwrap_err(), AuthMiddlewareError::ValidationFail);
    }
}

#[test]
fn expired_token_fails_whatever_its_signature() {
    let token = issue_token(1, "admin", "secret", 1_000).unwrap();
    let last = 1_000 + TOKEN_TTL;
    assert!(decode_token(&token, "secret", last).is_ok());
    assert_eq!(decode_token(&token, "secret", last + 1).unwrap_err(), AuthMiddlewareError::TokenExpired);
    assert_eq!(decode_token(&token, "wrong", last + 1).unwrap_err(), AuthMiddlewareError::TokenExpired);
    assert_eq!(
        validate_token(&Vec::new(), &token, Role::User, "wrong", i64::MAX).unwrap_err(),
        AuthMiddlewareError::TokenExpired
    );
}

#[test]
fn token_with_an_unknown_role_is_invalid() {
    let token = issue_token(1, "root", "secret", 1_000).unwrap();
    assert_eq!(decode_token(&token, "secret", 1_000).unwrap().role, "root");
    assert_eq!(begin_validation(&token, "secret", 1_000).unwrap_err(), AuthMiddlewareError::ValidationFail);
    assert_eq!(
        validate_token(&directory(), &token, Role::Admin, "secret", 1_000).unwrap_err(),
        AuthMiddlewareError::ValidationFail
    );
    let upper = issue_token(1, "Admin", "secret", 1_000).unwrap();
    assert_eq!(begin_validation(&upper, "secret", 1_000).unwrap_err(), AuthMiddlewareError::ValidationFail);
}

#[test]
fn validation_names_the_entry_to_confirm() {
    let token = issue_token(-5, "user", "secret", 1_000).unwrap();
    let session = begin_validation(&token, "secret", 1_000).unwrap();
    assert_eq!(session.claims.user_id, -5);
    assert_eq!(session.claims.role, "user");
    assert_eq!(session.role, Role::User);
}

fn session(role: Role) -> Session {
    Session { claims: Claims { user_id: 3, role: role.to_string(), exp: 99 }, role }
}

#[test]
fn directory_answer_decides() {
    let found = finish_validation(session(Role::Admin), Lookup::Found, Role::Admin).unwrap();
    assert_eq!((found.user_id, found.role.as_str(), found.exp), (3, "admin", 99));
    assert_eq!(
        finish_validation(session(Role::Admin), Lookup::Found, Role::User).unwrap_err(),
        AuthMiddlewareError::InvalidUserOrRole
    );
    assert_eq!(
        finish_validation(session(Role::Admin), Lookup::Missing, Role::Admin).unwrap_err(),
        AuthMiddlewareError::InvalidUserOrRole
    );
    assert_eq!(
        finish_validation(session(Role::User), Lookup::Unavailable, Role::User).unwrap_err(),
        AuthMiddlewareError::InternalServerError
    );
}

#[test]
fn directory_is_asked_for_user_and_role_together() {
    let users = directory();
    assert_eq!(find_user_with_role(&users, 1, Role::Admin), Lookup::Found);
    assert_eq!(find_user_with_role(&users, 1, Role::User), Lookup::Missing);
    assert_eq!(find_user_with_role(&users, 2, Role::User), Lookup::Found);
    assert_eq!(find_user_with_role(&users, 3, Role::User), Lookup::Missing);
    assert_eq!(find_user_with_role(&Vec::new(), 1, Role::Admin), Lookup::Missing);
}

#[test]
fn generated_token_is_valid_now() {
    let before = std::time::SystemTime::now().duration_since(std::time::UNIX_EPOCH).unwrap().as_secs() as i64;
    let token = generate_token(1, "admin".to_string(), "secret").unwrap();
    let after = std::time::SystemTime::now().duration_since(std::time::UNIX_EPOCH).unwrap().as_secs() as i64;
    let claims = validate_token(&directory(), &token, Role::Admin, "secret", after).unwrap();
    assert_eq!(claims.user_id, 1);
    assert!(before + TOKEN_TTL <= claims.exp as i64 && claims.exp as i64 <= after + TOKEN_TTL);
}

#[test]
fn failures_have_their_messages() {
    assert_eq!(AuthMiddlewareError::InvalidUserOrRole.to_string(), "Invalid user id or role");
    assert_eq!(AuthMiddlewareError::TokenExpired.to_string(), "Token expired");
    assert_eq!(AuthMiddlewareError::ValidationFail.to_string(), "Failed to validate token");
    assert_eq!(AuthMiddlewareError::GenerationFail.to_string(), "Failed to generate token");
    assert_eq!(AuthMiddlewareError::InternalServerError.to_string(), "Internal server error");
}
