use me_tube::authentication::{
    authenticate, parse_bearer, require_permission, AuthenticationError, GuardLevel, StoreError,
};
use me_tube::token::ExpiringToken;
use me_tube::user::{Permissions, User, ADMIN, WATCH_VIDEO};

fn user_with_access(secret: &str, expires: i64) -> User {
    User {
        username: "alice".to_owned(),
        password_hash: String::new(),
        access_token: Some(ExpiringToken { token: secret.to_owned(), expires }),
        refresh_token: None,
        permissions: Permissions::new(),
        password_reset: false,
    }
}

#[test]
fn bearer_header_present_and_well_formed() {
    let r = parse_bearer(Some("Bearer abc123")).expect("should parse");
    assert_eq!(r.into_inner(), "abc123");
}

#[test]
fn bearer_header_tolerates_extra_whitespace() {
    let r = parse_bearer(Some("  Bearer   tok9  ")).expect("should parse");
    assert_eq!(r.into_inner(), "tok9");
}

#[test]
fn bearer_header_missing() {
    assert!(matches!(
        parse_bearer(None),
        Err(AuthenticationError::MissingAccessToken)
    ));
}

#[test]
fn bearer_header_malformed() {
    for h in ["bearer abc", "Bearer", "Bearer a b", "Basic abc", ""] {
        assert!(
            matches!(parse_bearer(Some(h)), Err(AuthenticationError::MalformedAccessToken)),
            "header {:?} should be malformed",
            h
        );
    }
}

#[test]
fn chain_accepts_live_token() {
    let u = user_with_access("tok", 10_000);
    let r = authenticate(Ok(Some(u)), "tok", 5_000, GuardLevel::Basic);
    assert_eq!(r.expect("should pass").username, "alice");
}

#[test]
fn chain_store_error_is_not_an_auth_failure() {
    let r = authenticate(
        Err(StoreError { message: "down".to_owned() }),
        "tok",
        0,
        GuardLevel::Basic,
    );
    assert!(matches!(r, Err(AuthenticationError::DatabaseError(_))));
}

#[test]
fn chain_unknown_token() {
    let r = authenticate(Ok(None), "tok", 0, GuardLevel::Basic);
    assert!(matches!(r, Err(AuthenticationError::InvalidAccessToken)));
}

#[test]
fn chain_mismatched_token() {
    let u = user_with_access("tok", 10_000);
    let r = authenticate(Ok(Some(u)), "other", 0, GuardLevel::Basic);
    assert!(matches!(r, Err(AuthenticationError::InvalidAccessToken)));
}

#[test]
fn chain_expired_token() {
    let u = user_with_access("tok", 1_000);
    let r = authenticate(Ok(Some(u)), "tok", 1_000, GuardLevel::Basic);
    assert!(matches!(r, Err(AuthenticationError::ExpiredAccessToken)));
}

#[test]
fn identity_level_tolerates_expired_token() {
    let u = user_with_access("tok", 1_000);
    let r = authenticate(Ok(Some(u)), "tok", 2_000, GuardLevel::AllowExpiredPassword);
    assert!(r.is_ok());
}

#[test]
fn identity_level_still_requires_matching_token() {
    let u = user_with_access("tok", 1_000);
    let r = authenticate(Ok(Some(u)), "other", 2_000, GuardLevel::AllowExpiredPassword);
    assert!(matches!(r, Err(AuthenticationError::InvalidAccessToken)));
}

#[test]
fn reset_gate_blocks_basic_but_not_identity() {
    let mut u = user_with_access("tok", 10_000);
    u.password_reset = true;
    let r = authenticate(Ok(Some(u)), "tok", 0, GuardLevel::Basic);
    assert!(matches!(r, Err(AuthenticationError::ExpiredPassword)));

    let mut u2 = user_with_access("tok", 10_000);
    u2.password_reset = true;
    let r2 = authenticate(Ok(Some(u2)), "tok", 0, GuardLevel::AllowExpiredPassword);
    assert!(r2.is_ok());
}

#[test]
fn admin_gate() {
    let u = user_with_access("tok", 10_000);
    let r = authenticate(Ok(Some(u)), "tok", 0, GuardLevel::RequireAdmin);
    assert!(matches!(
        r,
        Err(AuthenticationError::InsufficientPermissions(f)) if f == ADMIN
    ));

    let mut u2 = user_with_access("tok", 10_000);
    u2.push_permissions(ADMIN);
    assert!(authenticate(Ok(Some(u2)), "tok", 0, GuardLevel::RequireAdmin).is_ok());
}

#[test]
fn capability_gate_specific_flag() {
    let mut u = user_with_access("tok", 10_000);
    assert!(matches!(
        require_permission(&u, WATCH_VIDEO),
        Err(AuthenticationError::InsufficientPermissions(f)) if f == WATCH_VIDEO
    ));
    u.push_permissions(WATCH_VIDEO);
    assert!(require_permission(&u, WATCH_VIDEO).is_ok());
}

#[test]
fn capability_gate_admin_overrides() {
    let mut u = user_with_access("tok", 10_000);
    u.push_permissions(ADMIN);
    assert!(require_permission(&u, WATCH_VIDEO).is_ok());
}

#[test]
fn error_codes_and_statuses() {
    assert_eq!(AuthenticationError::InvalidAccessToken.ty(), "invalid_access_token");
    assert_eq!(AuthenticationError::InvalidAccessToken.status(), 401);
    assert_eq!(AuthenticationError::ExpiredAccessToken.status(), 401);
    assert_eq!(AuthenticationError::MissingAccessToken.status(), 403);
    assert_eq!(AuthenticationError::MalformedAccessToken.status(), 401);
    assert_eq!(AuthenticationError::ExpiredPassword.status(), 401);
    assert_eq!(AuthenticationError::GameNotAllowed.status(), 403);
    assert_eq!(AuthenticationError::InternalServerError.status(), 500);
    assert_eq!(
        AuthenticationError::DatabaseError(StoreError { message: "x".to_owned() }).status(),
        500
    );
    assert_eq!(AuthenticationError::InsufficientPermissions(WATCH_VIDEO).status(), 403);
    assert_eq!(
        AuthenticationError::InsufficientPermissions(WATCH_VIDEO).message(),
        "Insufficient permissions: watch videos"
    );
}

#[test]
fn api_error_envelope_from_auth_error() {
    let e = AuthenticationError::ExpiredPassword;
    let a = e.to_api_error();
    assert_eq!(a.error, "expired_password");
    assert_eq!(a.message, "Password expired");
    assert_eq!(a.status, 401);
}
