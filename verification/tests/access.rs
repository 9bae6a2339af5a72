use baranki::entities::user::{Model, Role};
use baranki::middleware::auth::{
    arrive, arrive_at, auth_middleware, bearer_token, issue_token, settle, Access, AuthMiddlewareError, Lookup,
    TOKEN_TTL,
};
use baranki::middleware::logging::{logging_middleware, ApiError, Body, Level, Reply};

fn users() -> Vec<Model> {
    vec![
        Model { id: 1, username: "root".to_string(), password: String::new(), role: Role::Admin },
        Model { id: 2, username: "guest".to_string(), password: String::new(), role: Role::User },
    ]
}

fn rejected(access: Access) -> Reply {
    match access {
        Access::Rejected(reply) => reply,
        other => panic!("{:?}", other),
    }
}

fn reason(access: Access) -> ApiError {
    let reply = rejected(access);
    assert_eq!(reply.status, 401);
    assert!(matches!(reply.body, Body::Empty));
    match reply.extension {
        Some(Err(error)) => error,
        other => panic!("{:?}", other),
    }
}

#[test]
fn bearer_token_follows_the_scheme() {
    assert_eq!(bearer_token(Some("Bearer abc.def")), Some("abc.def"));
    assert_eq!(bearer_token(Some("Bearer ")), Some(""));
    assert_eq!(bearer_token(Some("Bearer  x")), Some(" x"));
    assert_eq!(bearer_token(Some("Bearer")), None);
    assert_eq!(bearer_token(Some("bearer abc")), None);
    assert_eq!(bearer_token(Some("Basic abc")), None);
    assert_eq!(bearer_token(Some(" Bearer abc")), None);
    assert_eq!(bearer_token(Some("")), None);
    assert_eq!(bearer_token(None), None);
    assert_eq!(bearer_token(Some("Bearer \u{44f}\u{43a}")), Some("\u{44f}\u{43a}"));
}

#[test]
fn request_without_a_bearer_token_is_rejected() {
    for header in [None, Some(""), Some("Basic dXNlcg=="), Some("Bearer"), Some("bearer x")] {
        match reason(auth_middleware(Role::User, &users(), header, "secret", 10)) {
            ApiError::General(message) => assert_eq!(message, "missing/invalid Authorization"),
            other => panic!("{:?}", other),
        }
    }
}

#[test]
fn issued_token_is_authorized_with_its_claims() {
    let token = issue_token(1, "admin", "secret", 1_000).unwrap();
    let header = format!("Bearer {}", token);
    match auth_middleware(Role::Admin, &users(), Some(&header), "secret", 1_000) {
        Access::Authorized(claims) => {
            assert_eq!(claims.user_id, 1);
            assert_eq!(claims.role, "admin");
            assert_eq!(claims.exp as i64, 1_000 + TOKEN_TTL);
        }
        other => panic!("{:?}", other),
    }
}

#[test]
fn token_signed_with_wrong_key_is_rejected_as_invalid() {
    let token = issue_token(1, "admin", "other secret", 1_000).unwrap();
    let header = format!("Bearer {}", token);
    let error = reason(auth_middleware(Role::Admin, &users(), Some(&header), "secret", 1_000));
    assert!(matches!(error, ApiError::Unauthorized(AuthMiddlewareError::ValidationFail)));
    assert_eq!(error.to_string(), "Failed to validate token");
}

#[test]
fn every_rejection_looks_the_same_to_the_client() {
    let admin = format!("Bearer {}", issue_token(1, "admin", "secret", 1_000).unwrap());
    let user = format!("Bearer {}", issue_token(2, "user", "secret", 1_000).unwrap());
    let gone = format!("Bearer {}", issue_token(9, "user", "secret", 1_000).unwrap());
    let cases = [
        (auth_middleware(Role::Admin, &users(), Some(&admin), "secret", 90_000), AuthMiddlewareError::TokenExpired),
        (auth_middleware(Role::Admin, &users(), Some(&user), "secret", 1_000), AuthMiddlewareError::InvalidUserOrRole),
        (auth_middleware(Role::User, &users(), Some(&gone), "secret", 1_000), AuthMiddlewareError::InvalidUserOrRole),
        (auth_middleware(Role::User, &users(), Some("Bearer x.y.z"), "secret", 1_000), AuthMiddlewareError::ValidationFail),
    ];
    for (access, expected) in cases {
        match reason(access) {
            ApiError::Unauthorized(why) => assert_eq!(why, expected),
            other => panic!("{:?}", other),
        }
    }
}

#[test]
fn pending_request_is_settled_by_the_directory() {
    let header = format!("Bearer {}", issue_token(2, "user", "secret", 1_000).unwrap());
    let pending = || match arrive_at(Some(&header), "secret", 1_000) {
        Access::Pending(session) => session,
        other => panic!("{:?}", other),
    };
    assert_eq!(pending().claims.user_id, 2);
    assert_eq!(pending().role, Role::User);
    assert!(matches!(settle(pending(), Lookup::Found, Role::User), Access::Authorized(_)));
    for (answer, role, expected) in [
        (Lookup::Found, Role::Admin, AuthMiddlewareError::InvalidUserOrRole),
        (Lookup::Missing, Role::User, AuthMiddlewareError::InvalidUserOrRole),
        (Lookup::Unavailable, Role::User, AuthMiddlewareError::InternalServerError),
    ] {
        match reason(settle(pending(), answer, role)) {
            ApiError::Unauthorized(why) => assert_eq!(why, expected),
            other => panic!("{:?}", other),
        }
    }
}

#[test]
fn arrival_reads_the_clock() {
    let now = std::time::SystemTime::now().duration_since(std::time::UNIX_EPOCH).unwrap().as_secs() as i64;
    let fresh = format!("Bearer {}", issue_token(2, "user", "secret", now).unwrap());
    assert!(matches!(arrive(Some(&fresh), "secret"), Access::Pending(_)));
    let stale = format!("Bearer {}", issue_token(2, "user", "secret", now - TOKEN_TTL - 100).unwrap());
    match reason(arrive(Some(&stale), "secret")) {
        ApiError::Unauthorized(why) => assert_eq!(why, AuthMiddlewareError::TokenExpired),
        other => panic!("{:?}", other),
    }
    assert!(matches!(reason(arrive(None, "secret")), ApiError::General(_)));
}

#[test]
fn rejection_is_logged_as_an_error_with_its_reason() {
    let reply = rejected(auth_middleware(Role::User, &users(), Some("Bearer x"), "secret", 10));
    let record = logging_middleware("GET", "/api/cart", 12, &reply);
    assert_eq!(record.level, Level::Error);
    assert_eq!(record.status, 401);
    assert_eq!(record.value.as_deref(), Some("Failed to validate token"));
}
