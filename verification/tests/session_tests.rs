use me_tube::authentication::{
    login, refresh, LoginError, LoginFailure, RefreshError, RefreshFailure, StoreError,
};
use me_tube::config::{CorsConfig, MeTube};
use me_tube::user::User;

fn config() -> MeTube {
    MeTube::new(
        900_000,
        86_400_000,
        String::new(),
        String::new(),
        CorsConfig { allowed_origins: vec![], allowed_methods: vec![], allowed_headers: vec![] },
    )
}

#[test]
fn login_rotates_both_tokens() {
    let u = User::create("alice".to_owned(), "password1".to_owned()).expect("hashing failed");
    let (stored, access, refresh_secret) =
        login(Ok(Some(u)), "password1".to_owned(), &config()).expect("right password");
    assert!(stored.check_access(&access));
    assert!(stored.check_refresh(&refresh_secret));
    assert_ne!(access, refresh_secret);
}

#[test]
fn login_refuses_wrong_password() {
    let u = User::create("alice".to_owned(), "password1".to_owned()).expect("hashing failed");
    let r = login(Ok(Some(u)), "password2".to_owned(), &config());
    assert!(matches!(
        r,
        Err(LoginFailure::Refused(LoginError::InvalidCredentials))
    ));
}

#[test]
fn login_refuses_unknown_user() {
    let r = login(Ok(None), "password1".to_owned(), &config());
    assert!(matches!(r, Err(LoginFailure::Refused(LoginError::UserNotFound))));
}

#[test]
fn login_keeps_store_failures_apart() {
    let r = login(
        Err(StoreError { message: "down".to_owned() }),
        "password1".to_owned(),
        &config(),
    );
    assert!(matches!(r, Err(LoginFailure::Store(_))));
}

#[test]
fn login_error_codes() {
    assert_eq!(LoginError::UserNotFound.ty(), "user_not_found");
    assert_eq!(LoginError::UserNotFound.status(), 404);
    assert_eq!(LoginError::UserNotFound.message(), "User not found");
    assert_eq!(LoginError::InvalidCredentials.ty(), "invalid_credentials");
    assert_eq!(LoginError::InvalidCredentials.status(), 401);
}

fn user_with_refresh(now: i64) -> (User, String) {
    let mut u = User {
        username: "alice".to_owned(),
        password_hash: String::new(),
        access_token: None,
        refresh_token: None,
        permissions: me_tube::user::Permissions::new(),
        password_reset: false,
    };
    let secret = u.generate_refresh_at(10_000, now);
    (u, secret)
}

#[test]
fn refresh_rotates_both_tokens() {
    let (u, secret) = user_with_refresh(1_000);
    let (stored, access, new_refresh) =
        refresh(Some(&secret), Ok(Some(u)), 2_000, &config()).expect("live refresh token");
    assert!(stored.check_access(&access));
    assert!(stored.check_refresh(&new_refresh));
    // The old cookie value no longer validates: it was superseded.
    assert!(!stored.check_refresh(&secret));
    assert_ne!(access, new_refresh);
}

#[test]
fn refresh_without_cookie() {
    let (u, _secret) = user_with_refresh(1_000);
    let r = refresh(None, Ok(Some(u)), 2_000, &config());
    assert!(matches!(
        r,
        Err(RefreshFailure::Refused(RefreshError::MissingRefreshToken))
    ));
}

#[test]
fn refresh_with_expired_token() {
    let (u, secret) = user_with_refresh(1_000);
    let r = refresh(Some(&secret), Ok(Some(u)), 11_001, &config());
    assert!(matches!(
        r,
        Err(RefreshFailure::Refused(RefreshError::InvalidRefreshToken))
    ));
}

#[test]
fn refresh_with_wrong_token_or_unknown_user() {
    let (u, _secret) = user_with_refresh(1_000);
    let r = refresh(Some("not-the-secret"), Ok(Some(u)), 2_000, &config());
    assert!(matches!(
        r,
        Err(RefreshFailure::Refused(RefreshError::InvalidRefreshToken))
    ));
    let r = refresh(Some("anything"), Ok(None), 2_000, &config());
    assert!(matches!(
        r,
        Err(RefreshFailure::Refused(RefreshError::InvalidRefreshToken))
    ));
}

#[test]
fn refresh_error_codes() {
    assert_eq!(RefreshError::InvalidRefreshToken.ty(), "invalid_refresh_token");
    assert_eq!(RefreshError::InvalidRefreshToken.status(), 401);
    assert_eq!(RefreshError::MissingRefreshToken.ty(), "missing_refresh_token");
    assert_eq!(RefreshError::MissingRefreshToken.status(), 403);
    assert_eq!(RefreshError::MissingRefreshToken.message(), "Missing refresh token");
}
