//! The authorization guard chain: bearer extraction, identity
//! resolution, token liveness, the password-reset gate and the
//! capability gate, each able to short-circuit with its own error.
//!
//! Store lookups happen outside; the chain takes their results as plain
//! values and makes every decision here.

use vstd::prelude::*;

use crate::config::MeTube;
use crate::response::{
    ApiError, STATUS_FORBIDDEN, STATUS_INTERNAL_SERVER_ERROR, STATUS_UNAUTHORIZED,
};
use crate::text::{spec_split_ws, split_whitespace_tokens, str_eq};
use crate::user::{spec_allows, spec_label, Permissions, User, ADMIN};

verus! {

/// A failure reported by the external store, carried through the chain
/// so that it stays distinguishable from "not found".
#[derive(Debug)]
pub struct StoreError {
    pub message: String,
}

/// The token string extracted from an `Authorization: Bearer <token>`
/// header.
#[derive(Debug)]
pub struct Authorization(pub String);

impl Authorization {
    pub fn into_inner(self) -> (r: String)
        ensures
            r@ == self.0@,
    {
        self.0
    }
}

/// Why a request failed authentication or authorization.
#[derive(Debug)]
pub enum AuthenticationError {
    InvalidAccessToken,
    ExpiredAccessToken,
    MissingAccessToken,
    DatabaseError(StoreError),
    InsufficientPermissions(u32),
    GameNotAllowed,
    MalformedAccessToken,
    InternalServerError,
    ExpiredPassword,
}

impl AuthenticationError {
    /// The stable machine-readable code of the error.
    pub open spec fn spec_ty(&self) -> Seq<char> {
        match self {
            AuthenticationError::InvalidAccessToken => "invalid_access_token"@,
            AuthenticationError::ExpiredAccessToken => "expired_access_token"@,
            AuthenticationError::MissingAccessToken => "missing_access_token"@,
            AuthenticationError::DatabaseError(..) => "database_error"@,
            AuthenticationError::InsufficientPermissions(..) => "insufficient_permissions"@,
            AuthenticationError::MalformedAccessToken => "malformed_access_token"@,
            AuthenticationError::InternalServerError => "internal_server_error"@,
            AuthenticationError::GameNotAllowed => "game_not_allowed"@,
            AuthenticationError::ExpiredPassword => "expired_password"@,
        }
    }

    pub fn ty(&self) -> (r: &'static str)
        ensures
            r@ == self.spec_ty(),
    {
        match self {
            AuthenticationError::InvalidAccessToken => "invalid_access_token",
            AuthenticationError::ExpiredAccessToken => "expired_access_token",
            AuthenticationError::MissingAccessToken => "missing_access_token",
            AuthenticationError::DatabaseError(..) => "database_error",
            AuthenticationError::InsufficientPermissions(..) => "insufficient_permissions",
            AuthenticationError::MalformedAccessToken => "malformed_access_token",
            AuthenticationError::InternalServerError => "internal_server_error",
            AuthenticationError::GameNotAllowed => "game_not_allowed",
            AuthenticationError::ExpiredPassword => "expired_password",
        }
    }

    /// The HTTP status the error is reported under: 401 for a token
    /// that was presented but does not pass, 403 for a missing token or
    /// a missing capability, 500 for store trouble.
    pub open spec fn spec_status(&self) -> u16 {
        match self {
            AuthenticationError::InvalidAccessToken => STATUS_UNAUTHORIZED,
            AuthenticationError::ExpiredAccessToken => STATUS_UNAUTHORIZED,
            AuthenticationError::MissingAccessToken => STATUS_FORBIDDEN,
            AuthenticationError::DatabaseError(..) => STATUS_INTERNAL_SERVER_ERROR,
            AuthenticationError::InsufficientPermissions(..) => STATUS_FORBIDDEN,
            AuthenticationError::MalformedAccessToken => STATUS_UNAUTHORIZED,
            AuthenticationError::InternalServerError => STATUS_INTERNAL_SERVER_ERROR,
            AuthenticationError::GameNotAllowed => STATUS_FORBIDDEN,
            AuthenticationError::ExpiredPassword => STATUS_UNAUTHORIZED,
        }
    }

    pub fn status(&self) -> (r: u16)
        ensures
            r == self.spec_status(),
    {
        match self {
            AuthenticationError::InvalidAccessToken => STATUS_UNAUTHORIZED,
            AuthenticationError::ExpiredAccessToken => STATUS_UNAUTHORIZED,
            AuthenticationError::MissingAccessToken => STATUS_FORBIDDEN,
            AuthenticationError::DatabaseError(..) => STATUS_INTERNAL_SERVER_ERROR,
            AuthenticationError::InsufficientPermissions(..) => STATUS_FORBIDDEN,
            AuthenticationError::MalformedAccessToken => STATUS_UNAUTHORIZED,
            AuthenticationError::InternalServerError => STATUS_INTERNAL_SERVER_ERROR,
            AuthenticationError::GameNotAllowed => STATUS_FORBIDDEN,
            AuthenticationError::ExpiredPassword => STATUS_UNAUTHORIZED,
        }
    }

    /// The human-readable text of the error.
    pub open spec fn spec_message(&self) -> Seq<char> {
        match self {
            AuthenticationError::InvalidAccessToken => "Invalid access token"@,
            AuthenticationError::ExpiredAccessToken => "Expired access token"@,
            AuthenticationError::MissingAccessToken => "Missing access token"@,
            AuthenticationError::DatabaseError(..) => "Database error"@,
            AuthenticationError::InsufficientPermissions(p) => "Insufficient permissions: "@
                + spec_label(*p),
            AuthenticationError::MalformedAccessToken => "Malformed access token"@,
            AuthenticationError::InternalServerError => "Internal server error"@,
            AuthenticationError::GameNotAllowed => "You are not part of this game"@,
            AuthenticationError::ExpiredPassword => "Password expired"@,
        }
    }

    pub fn message(&self) -> (r: String)
        ensures
            r@ == self.spec_message(),
    {
        match self {
            AuthenticationError::InvalidAccessToken => "Invalid access token".to_owned(),
            AuthenticationError::ExpiredAccessToken => "Expired access token".to_owned(),
            AuthenticationError::MissingAccessToken => "Missing access token".to_owned(),
            AuthenticationError::DatabaseError(..) => "Database error".to_owned(),
            AuthenticationError::InsufficientPermissions(p) => {
                let mut s = "Insufficient permissions: ".to_owned();
                s.append(Permissions::label(*p));
                s
            },
            AuthenticationError::MalformedAccessToken => "Malformed access token".to_owned(),
            AuthenticationError::InternalServerError => "Internal server error".to_owned(),
            AuthenticationError::GameNotAllowed => "You are not part of this game".to_owned(),
            AuthenticationError::ExpiredPassword => "Password expired".to_owned(),
        }
    }

    /// The response envelope for the error.
    pub fn to_api_error(&self) -> (r: ApiError)
        ensures
            r.error@ == self.spec_ty(),
            r.message@ == self.spec_message(),
            r.status == self.spec_status(),
    {
        ApiError { error: self.ty().to_owned(), message: self.message(), status: self.status() }
    }
}

/// What `parse_bearer` decides: no header is a missing token; a header
/// that is not exactly the two tokens `Bearer <value>` is malformed;
/// otherwise the second token is the credential.
pub open spec fn spec_parse_bearer(header: Option<&str>) -> Result<Seq<char>, AuthenticationError> {
    match header {
        None => Err(AuthenticationError::MissingAccessToken),
        Some(h) => {
            let toks = spec_split_ws(h@);
            if toks.len() != 2 || toks[0] != "Bearer"@ {
                Err(AuthenticationError::MalformedAccessToken)
            } else {
                Ok(toks[1])
            }
        },
    }
}

/// Extracts the token from an `Authorization` header value, if one was
/// sent at all.
pub fn parse_bearer(header: Option<&str>) -> (r: Result<Authorization, AuthenticationError>)
    ensures
        r matches Ok(a) ==> spec_parse_bearer(header) == Ok::<_, AuthenticationError>(a.0@),
        r matches Err(e) ==> spec_parse_bearer(header) == Err::<Seq<char>, _>(e),
{
    match header {
        None => Err(AuthenticationError::MissingAccessToken),
        Some(h) => {
            let toks = split_whitespace_tokens(h);
            if toks.len() != 2 {
                return Err(AuthenticationError::MalformedAccessToken);
            }
            if !str_eq(toks[0].as_str(), "Bearer") {
                return Err(AuthenticationError::MalformedAccessToken);
            }
            let tok = toks[1].clone();
            Ok(Authorization(tok))
        },
    }
}

/// How demanding an endpoint is about the caller.
///
/// `AllowExpiredPassword` resolves identity only: the presented token
/// must match the stored one exactly, but may be expired, and a pending
/// password reset is tolerated — for self-service endpoints that must
/// work in exactly those states. `Basic` enforces liveness and the
/// reset gate; `RequireAdmin` additionally demands the ADMIN bit.
#[derive(Clone, Copy, Debug)]
pub enum GuardLevel {
    AllowExpiredPassword,
    Basic,
    RequireAdmin,
}

/// The decision of the guard chain, in its strict order: store failure,
/// unknown token, liveness, password-reset gate, admin gate.
pub open spec fn spec_authenticate(
    lookup: Result<Option<User>, StoreError>,
    presented: Seq<char>,
    now: i64,
    level: GuardLevel,
) -> Result<User, AuthenticationError> {
    match lookup {
        Err(e) => Err(AuthenticationError::DatabaseError(e)),
        Ok(None) => Err(AuthenticationError::InvalidAccessToken),
        Ok(Some(u)) => match u.access_token {
            None => Err(AuthenticationError::InvalidAccessToken),
            Some(t) => if t.token@ != presented {
                Err(AuthenticationError::InvalidAccessToken)
            } else if now >= t.expires && !(level is AllowExpiredPassword) {
                Err(AuthenticationError::ExpiredAccessToken)
            } else if u.password_reset && !(level is AllowExpiredPassword) {
                Err(AuthenticationError::ExpiredPassword)
            } else if level is RequireAdmin && !spec_allows(u.permissions.inner, ADMIN) {
                Err(AuthenticationError::InsufficientPermissions(ADMIN))
            } else {
                Ok(u)
            },
        },
    }
}

/// Runs the guard chain on the result of the store's lookup of the user
/// whose access token matches `presented`.
pub fn authenticate(
    lookup: Result<Option<User>, StoreError>,
    presented: &str,
    now: i64,
    level: GuardLevel,
) -> (r: Result<User, AuthenticationError>)
    ensures
        r == spec_authenticate(lookup, presented@, now, level),
{
    let tolerant = matches!(level, GuardLevel::AllowExpiredPassword);
    let need_admin = matches!(level, GuardLevel::RequireAdmin);
    match lookup {
        Err(e) => Err(AuthenticationError::DatabaseError(e)),
        Ok(None) => Err(AuthenticationError::InvalidAccessToken),
        Ok(Some(u)) => {
            let matches_token = match &u.access_token {
                None => return Err(AuthenticationError::InvalidAccessToken),
                Some(t) => str_eq(t.token.as_str(), presented),
            };
            if !matches_token {
                return Err(AuthenticationError::InvalidAccessToken);
            }
            let expired = match &u.access_token {
                Some(t) => now >= t.expires,
                None => true,
            };
            if expired && !tolerant {
                return Err(AuthenticationError::ExpiredAccessToken);
            }
            if u.password_reset && !tolerant {
                return Err(AuthenticationError::ExpiredPassword);
            }
            if need_admin && !u.allowed(ADMIN) {
                return Err(AuthenticationError::InsufficientPermissions(ADMIN));
            }
            Ok(u)
        },
    }
}

/// Why a login was refused.
#[derive(Debug)]
pub enum LoginError {
    UserNotFound,
    InvalidCredentials,
}

impl LoginError {
    pub fn ty(&self) -> (r: &'static str)
        ensures
            self is UserNotFound ==> r@ == "user_not_found"@,
            self is InvalidCredentials ==> r@ == "invalid_credentials"@,
    {
        match self {
            LoginError::UserNotFound => "user_not_found",
            LoginError::InvalidCredentials => "invalid_credentials",
        }
    }

    pub fn message(&self) -> (r: &'static str)
        ensures
            self is UserNotFound ==> r@ == "User not found"@,
            self is InvalidCredentials ==> r@ == "Invalid credentials"@,
    {
        match self {
            LoginError::UserNotFound => "User not found",
            LoginError::InvalidCredentials => "Invalid credentials",
        }
    }

    /// 404 for an unknown account, 401 for a wrong password.
    pub fn status(&self) -> (r: u16)
        ensures
            self is UserNotFound ==> r == crate::response::STATUS_NOT_FOUND,
            self is InvalidCredentials ==> r == STATUS_UNAUTHORIZED,
    {
        match self {
            LoginError::UserNotFound => crate::response::STATUS_NOT_FOUND,
            LoginError::InvalidCredentials => STATUS_UNAUTHORIZED,
        }
    }
}

/// How a login attempt can fail: the store broke, or the credentials
/// were refused.
#[derive(Debug)]
pub enum LoginFailure {
    Store(StoreError),
    Refused(LoginError),
}

/// Decides a login from the store's lookup of the account: an unknown
/// account is refused as such; a known one must present the password
/// its hash verifies; on success both session tokens are rotated and
/// the new secrets returned, for the caller to persist and to hand
/// out as the access token and the refresh cookie.
pub fn login(lookup: Result<Option<User>, StoreError>, password: String, config: &MeTube) -> (r:
    Result<(User, String, String), LoginFailure>)
    requires
        config.wf(),
    ensures
        match lookup {
            Err(e) => r matches Err(LoginFailure::Store(e2)) && e2 == e,
            Ok(None) => r matches Err(LoginFailure::Refused(le)) && le is UserNotFound,
            Ok(Some(u)) => {
                if crate::user::argon2_verifies(u.password_hash@, password@) {
                    r matches Ok(t) && {
                        &&& t.0.username@ == u.username@
                        &&& t.0.password_hash@ == u.password_hash@
                        &&& t.0.permissions == u.permissions
                        &&& t.0.password_reset == u.password_reset
                        &&& (t.0.access_token matches Some(a) && a.token@ == t.1@)
                        &&& (t.0.refresh_token matches Some(f) && f.token@ == t.2@)
                        &&& t.1@.len() == 44 && t.2@.len() == 44
                    }
                } else {
                    r matches Err(LoginFailure::Refused(le)) && le is InvalidCredentials
                }
            },
        },
{
    match lookup {
        Err(e) => Err(LoginFailure::Store(e)),
        Ok(None) => Err(LoginFailure::Refused(LoginError::UserNotFound)),
        Ok(Some(mut u)) => {
            if u.verify_password(password) {
                let (access, refresh) = u.generate_access_and_refresh(config);
                Ok((u, access, refresh))
            } else {
                Err(LoginFailure::Refused(LoginError::InvalidCredentials))
            }
        },
    }
}

/// Why a token refresh was refused.
#[derive(Debug)]
pub enum RefreshError {
    InvalidRefreshToken,
    MissingRefreshToken,
}

impl RefreshError {
    pub fn ty(&self) -> (r: &'static str)
        ensures
            self is InvalidRefreshToken ==> r@ == "invalid_refresh_token"@,
            self is MissingRefreshToken ==> r@ == "missing_refresh_token"@,
    {
        match self {
            RefreshError::InvalidRefreshToken => "invalid_refresh_token",
            RefreshError::MissingRefreshToken => "missing_refresh_token",
        }
    }

    pub fn message(&self) -> (r: &'static str)
        ensures
            self is InvalidRefreshToken ==> r@ == "Invalid refresh token"@,
            self is MissingRefreshToken ==> r@ == "Missing refresh token"@,
    {
        match self {
            RefreshError::InvalidRefreshToken => "Invalid refresh token",
            RefreshError::MissingRefreshToken => "Missing refresh token",
        }
    }

    /// 401 for a presented token that does not pass, 403 when none was
    /// sent at all.
    pub fn status(&self) -> (r: u16)
        ensures
            self is InvalidRefreshToken ==> r == STATUS_UNAUTHORIZED,
            self is MissingRefreshToken ==> r == STATUS_FORBIDDEN,
    {
        match self {
            RefreshError::InvalidRefreshToken => STATUS_UNAUTHORIZED,
            RefreshError::MissingRefreshToken => STATUS_FORBIDDEN,
        }
    }
}

/// How a refresh attempt can fail.
#[derive(Debug)]
pub enum RefreshFailure {
    Store(StoreError),
    Refused(RefreshError),
}

/// Decides a refresh from the cookie and the store's lookup of the
/// user whose refresh token matches it: the cookie must be present,
/// match the stored refresh token exactly and still be alive; then
/// both session tokens are rotated — the new access secret is handed
/// out and the new refresh secret re-sets the cookie.
pub fn refresh(
    cookie: Option<&str>,
    lookup: Result<Option<User>, StoreError>,
    now: i64,
    config: &MeTube,
) -> (r: Result<(User, String, String), RefreshFailure>)
    requires
        config.wf(),
    ensures
        match cookie {
            None => r matches Err(RefreshFailure::Refused(re)) && re is MissingRefreshToken,
            Some(c) => match lookup {
                Err(e) => r matches Err(RefreshFailure::Store(e2)) && e2 == e,
                Ok(None) => r matches Err(RefreshFailure::Refused(re)) && re
                    is InvalidRefreshToken,
                Ok(Some(u)) => {
                    if u.spec_check_refresh(c@, now) {
                        r matches Ok(t) && {
                            &&& t.0.username@ == u.username@
                            &&& t.0.password_hash@ == u.password_hash@
                            &&& t.0.permissions == u.permissions
                            &&& t.0.password_reset == u.password_reset
                            &&& (t.0.access_token matches Some(a) && a.token@ == t.1@)
                            &&& (t.0.refresh_token matches Some(f) && f.token@ == t.2@)
                            &&& t.1@.len() == 44 && t.2@.len() == 44
                        }
                    } else {
                        r matches Err(RefreshFailure::Refused(re)) && re is InvalidRefreshToken
                    }
                },
            },
        },
{
    let c = match cookie {
        None => {
            return Err(RefreshFailure::Refused(RefreshError::MissingRefreshToken));
        },
        Some(c) => c,
    };
    match lookup {
        Err(e) => Err(RefreshFailure::Store(e)),
        Ok(None) => Err(RefreshFailure::Refused(RefreshError::InvalidRefreshToken)),
        Ok(Some(mut u)) => {
            if u.check_refresh_at(c, now) {
                let (access, new_refresh) = u.generate_access_and_refresh(config);
                Ok((u, access, new_refresh))
            } else {
                Err(RefreshFailure::Refused(RefreshError::InvalidRefreshToken))
            }
        },
    }
}

/// The capability gate for a specific flag: ADMIN or the flag itself.
pub fn require_permission(u: &User, flag: u32) -> (r: Result<(), AuthenticationError>)
    ensures
        r == if spec_allows(u.permissions.inner, flag) {
            Ok::<(), AuthenticationError>(())
        } else {
            Err(AuthenticationError::InsufficientPermissions(flag))
        },
{
    if u.allowed(flag) {
        Ok(())
    } else {
        Err(AuthenticationError::InsufficientPermissions(flag))
    }
}

} // verus!
