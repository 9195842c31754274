//! Accounts: permission bitmasks, credential checks, and the pair of
//! rotating session tokens every user holds.

use vstd::prelude::*;

use crate::config::MeTube;
use crate::token::{now_millis, ExpiringToken};

verus! {

/// Full access: implies every other capability at check time.
pub const ADMIN: u32 = 1;

pub const ADD_GAME: u32 = 2;

pub const ADD_VIDEOS: u32 = 4;

pub const VIEW_VIDEOS: u32 = 8;

pub const VIEW_GAMES: u32 = 16;

pub const READ_MEDIA: u32 = 32;

pub const WATCH_VIDEO: u32 = 64;

/// Modify videos that are not owned by the user. The modifying user
/// must still be part of the game.
pub const MODIFY_VIDEO_OTHERS: u32 = 128;

/// A set of independent capability flags packed into one integer.
#[derive(Debug)]
pub struct Permissions {
    pub inner: u32,
}

/// A bitmask is granted `flag` iff it carries ADMIN or carries the
/// flag itself.
pub open spec fn spec_allows(inner: u32, flag: u32) -> bool {
    inner & ADMIN != 0 || inner & flag != 0
}

/// The label printed for a single capability flag.
pub open spec fn spec_label(p: u32) -> Seq<char> {
    if p == ADMIN {
        "forbidden"@
    } else if p == ADD_GAME {
        "add games"@
    } else if p == ADD_VIDEOS {
        "add videos"@
    } else if p == VIEW_VIDEOS {
        "view videos"@
    } else if p == VIEW_GAMES {
        "view games"@
    } else if p == READ_MEDIA {
        "view media"@
    } else if p == WATCH_VIDEO {
        "watch videos"@
    } else if p == MODIFY_VIDEO_OTHERS {
        "modify videos of others"@
    } else {
        "unknown"@
    }
}

impl Permissions {
    /// The empty set of capabilities.
    pub fn new() -> (p: Permissions)
        ensures
            p.inner == 0,
    {
        Permissions { inner: 0 }
    }

    /// Adds the given flags to the set.
    pub fn push(&mut self, permission: u32)
        ensures
            final(self).inner == old(self).inner | permission,
    {
        self.inner = self.inner | permission;
    }

    /// Human-readable label of a single capability flag.
    pub fn label(p: u32) -> (r: &'static str)
        ensures
            r@ == spec_label(p),
    {
        if p == ADMIN {
            "forbidden"
        } else if p == ADD_GAME {
            "add games"
        } else if p == ADD_VIDEOS {
            "add videos"
        } else if p == VIEW_VIDEOS {
            "view videos"
        } else if p == VIEW_GAMES {
            "view games"
        } else if p == READ_MEDIA {
            "view media"
        } else if p == WATCH_VIDEO {
            "watch videos"
        } else if p == MODIFY_VIDEO_OTHERS {
            "modify videos of others"
        } else {
            "unknown"
        }
    }
}

/// A user with ADMIN set is granted every capability, whatever the
/// other bits say.
pub proof fn lemma_admin_grants_every_capability(inner: u32, flag: u32)
    requires
        inner & ADMIN != 0,
    ensures
        spec_allows(inner, flag),
{
}

/// A user with no capability bits set is granted nothing.
pub proof fn lemma_no_bits_grants_nothing(flag: u32)
    ensures
        !spec_allows(0, flag),
{
    assert(0u32 & ADMIN == 0) by (bit_vector);
    assert(0u32 & flag == 0) by (bit_vector);
}

/// Why a registration or password change was refused.
#[derive(Debug)]
pub enum ValidationError {
    InvalidUsername,
    InvalidPassword,
    UsernameTaken,
}

impl ValidationError {
    pub fn message(&self) -> (r: &'static str)
        ensures
            self is InvalidUsername ==> r@ == "Invalid username"@,
            self is InvalidPassword ==> r@ == "Invalid password"@,
            self is UsernameTaken ==> r@ == "Username taken"@,
    {
        match self {
            ValidationError::InvalidUsername => "Invalid username",
            ValidationError::InvalidPassword => "Invalid password",
            ValidationError::UsernameTaken => "Username taken",
        }
    }
}

/// Whether `c` counts as alphanumeric (Unicode).
pub uninterp spec fn alphanumeric_char(c: char) -> bool;

/// Whether `c` counts as numeric (Unicode).
pub uninterp spec fn numeric_char(c: char) -> bool;

/// Relies on std's `char::is_alphanumeric`: a pure Unicode-table
/// classification of the character.
#[verifier::external_body]
fn char_is_alphanumeric(c: char) -> (r: bool)
    ensures
        r == alphanumeric_char(c),
{
    c.is_alphanumeric()
}

/// Relies on std's `char::is_numeric`: a pure Unicode-table
/// classification of the character.
#[verifier::external_body]
fn char_is_numeric(c: char) -> (r: bool)
    ensures
        r == numeric_char(c),
{
    c.is_numeric()
}

fn contains_alphanumeric(s: &str) -> (r: bool)
    ensures
        r == exists|i: int| 0 <= i < s@.len() && alphanumeric_char(#[trigger] s@[i]),
{
    let n = s.unicode_len();
    let mut i: usize = 0;
    while i < n
        invariant
            n == s@.len(),
            i <= n,
            forall|j: int| 0 <= j < i ==> !alphanumeric_char(#[trigger] s@[j]),
        decreases n - i,
    {
        if char_is_alphanumeric(s.get_char(i)) {
            assert(alphanumeric_char(s@[i as int]));
            return true;
        }
        i += 1;
    }
    false
}

fn contains_numeric(s: &str) -> (r: bool)
    ensures
        r == exists|i: int| 0 <= i < s@.len() && numeric_char(#[trigger] s@[i]),
{
    let n = s.unicode_len();
    let mut i: usize = 0;
    while i < n
        invariant
            n == s@.len(),
            i <= n,
            forall|j: int| 0 <= j < i ==> !numeric_char(#[trigger] s@[j]),
        decreases n - i,
    {
        if char_is_numeric(s.get_char(i)) {
            assert(numeric_char(s@[i as int]));
            return true;
        }
        i += 1;
    }
    false
}

/// A username must be at least four characters long.
pub open spec fn spec_valid_username(u: Seq<char>) -> bool {
    u.len() >= 4
}

/// A password must be at least eight characters long and contain an
/// alphanumeric and a numeric character.
pub open spec fn spec_valid_password(p: Seq<char>) -> bool {
    &&& p.len() >= 8
    &&& exists|i: int| 0 <= i < p.len() && alphanumeric_char(#[trigger] p[i])
    &&& exists|i: int| 0 <= i < p.len() && numeric_char(#[trigger] p[i])
}

/// An account as the store holds it: identity, credential hash, the two
/// rotating session tokens, capabilities, and the forced-reset flag.
#[derive(Debug)]
pub struct User {
    pub username: String,
    pub password_hash: String,
    pub access_token: Option<ExpiringToken>,
    pub refresh_token: Option<ExpiringToken>,
    pub permissions: Permissions,
    pub password_reset: bool,
}

/// A password hash string produced by the argon2 suite, and whether the
/// given password verifies against it. Deterministic in both arguments.
pub uninterp spec fn argon2_verifies(hash: Seq<char>, password: Seq<char>) -> bool;

/// Relies on argon2's `Argon2::hash_password` with a fresh salt from
/// `SaltString::generate` over the system RNG. `verify_password`
/// recomputes the hash from the salt and parameters stored in the
/// produced string, so whatever salt was drawn, the result verifies
/// against the hashed password.
#[verifier::external_body]
fn argon2_hash_password(password: &str) -> (r: Option<String>)
    ensures
        r matches Some(h) ==> argon2_verifies(h@, password@),
{
    let salt = argon2::password_hash::SaltString::generate(&mut rand::rngs::OsRng);
    match argon2::PasswordHasher::hash_password(
        &argon2::Argon2::default(),
        password.as_bytes(),
        &salt,
    ) {
        Ok(h) => Some(h.to_string()),
        Err(_) => None,
    }
}

/// Relies on argon2's `PasswordHash` parsing and
/// `PasswordVerifier::verify_password`: both are deterministic in the
/// hash string and the password. A string that does not parse as a hash
/// verifies no password.
#[verifier::external_body]
fn argon2_verify(hash: &str, password: &str) -> (r: bool)
    ensures
        r == argon2_verifies(hash@, password@),
{
    match argon2::password_hash::PasswordHash::new(hash) {
        Ok(parsed) => argon2::PasswordVerifier::verify_password(
            &argon2::Argon2::default(),
            password.as_bytes(),
            &parsed,
        ).is_ok(),
        Err(_) => false,
    }
}

impl User {
    /// The decision `validate` makes: the username is checked first,
    /// then the password; an absent field is not checked.
    pub open spec fn spec_validate(username: Option<&str>, password: Option<&str>) -> Result<
        (),
        ValidationError,
    > {
        if username matches Some(u) && !spec_valid_username(u@) {
            Err(ValidationError::InvalidUsername)
        } else if password matches Some(p) && !spec_valid_password(p@) {
            Err(ValidationError::InvalidPassword)
        } else {
            Ok(())
        }
    }

    /// Checks registration rules for whichever fields are present.
    pub fn validate(username: Option<&str>, password: Option<&str>) -> (r: Result<
        (),
        ValidationError,
    >)
        ensures
            r == Self::spec_validate(username, password),
    {
        if let Some(u) = username {
            if u.unicode_len() < 4 {
                return Err(ValidationError::InvalidUsername);
            }
        }
        if let Some(p) = password {
            if p.unicode_len() < 8 || !contains_alphanumeric(p) || !contains_numeric(p) {
                return Err(ValidationError::InvalidPassword);
            }
        }
        Ok(())
    }

    /// A fresh account: hashed password, no session tokens, no
    /// capabilities. `None` only if the password hasher refused.
    pub fn create(username: String, password: String) -> (r: Option<User>)
        ensures
            r matches Some(u) ==> {
                &&& u.username@ == username@
                &&& argon2_verifies(u.password_hash@, password@)
                &&& u.access_token is None
                &&& u.refresh_token is None
                &&& u.permissions.inner == 0
                &&& !u.password_reset
            },
    {
        let hash = argon2_hash_password(password.as_str());
        match hash {
            Some(password_hash) => Some(
                User {
                    username,
                    password_hash,
                    access_token: None,
                    refresh_token: None,
                    permissions: Permissions::new(),
                    password_reset: false,
                },
            ),
            None => None,
        }
    }

    /// Adds capability flags to the account.
    pub fn push_permissions(&mut self, permission: u32)
        ensures
            final(self).permissions.inner == old(self).permissions.inner | permission,
            final(self).username@ == old(self).username@,
            final(self).password_hash@ == old(self).password_hash@,
            final(self).access_token == old(self).access_token,
            final(self).refresh_token == old(self).refresh_token,
            final(self).password_reset == old(self).password_reset,
    {
        self.permissions.push(permission);
    }

    /// Whether the presented password matches the stored hash.
    pub fn verify_password(&self, password: String) -> (r: bool)
        ensures
            r == argon2_verifies(self.password_hash@, password@),
    {
        argon2_verify(self.password_hash.as_str(), password.as_str())
    }

    /// The stored access token accepts `presented` at instant `now`.
    pub open spec fn spec_check_access(&self, presented: Seq<char>, now: i64) -> bool {
        match self.access_token {
            Some(t) => t.valid_spec(presented, now),
            None => false,
        }
    }

    /// The stored refresh token accepts `presented` at instant `now`.
    pub open spec fn spec_check_refresh(&self, presented: Seq<char>, now: i64) -> bool {
        match self.refresh_token {
            Some(t) => t.valid_spec(presented, now),
            None => false,
        }
    }

    /// Checks the access token at an explicit instant.
    pub fn check_access_at(&self, access_token: &str, now: i64) -> (r: bool)
        ensures
            r == self.spec_check_access(access_token@, now),
    {
        match &self.access_token {
            Some(t) => t.valid_at(access_token, now),
            None => false,
        }
    }

    /// Checks the access token against the current time. Whatever the
    /// clock read, a pass means the string matched the stored value.
    pub fn check_access(&self, access_token: &str) -> (r: bool)
        ensures
            r ==> (self.access_token matches Some(t) && access_token@ == t.token@),
    {
        let now = now_millis();
        self.check_access_at(access_token, now)
    }

    /// Checks the refresh token at an explicit instant.
    pub fn check_refresh_at(&self, refresh_token: &str, now: i64) -> (r: bool)
        ensures
            r == self.spec_check_refresh(refresh_token@, now),
    {
        match &self.refresh_token {
            Some(t) => t.valid_at(refresh_token, now),
            None => false,
        }
    }

    /// Checks the refresh token against the current time.
    pub fn check_refresh(&self, refresh_token: &str) -> (r: bool)
        ensures
            r ==> (self.refresh_token matches Some(t) && refresh_token@ == t.token@),
    {
        let now = now_millis();
        self.check_refresh_at(refresh_token, now)
    }

    /// A fresh token living for `duration` from now.
    pub fn generate_expiring_token(duration: i64) -> (t: ExpiringToken)
        requires
            0 <= duration,
        ensures
            t.token@.len() == 44,
    {
        ExpiringToken::new(duration)
    }

    /// Replaces the access token with a fresh one expiring at
    /// `now + duration`; the previous value is discarded. Returns the
    /// new secret.
    pub fn generate_access_at(&mut self, duration: i64, now: i64) -> (r: String)
        requires
            0 <= duration,
            now <= i64::MAX - duration,
        ensures
            final(self).access_token matches Some(t) && t.expires == now + duration && r@
                == t.token@ && t.token@.len() == 44,
            final(self).refresh_token == old(self).refresh_token,
            final(self).username@ == old(self).username@,
            final(self).password_hash@ == old(self).password_hash@,
            final(self).permissions == old(self).permissions,
            final(self).password_reset == old(self).password_reset,
    {
        let t = ExpiringToken::issue_at(now, duration);
        let r = t.token.clone();
        self.access_token = Some(t);
        r
    }

    /// Clock-reading form of access rotation; the lifetime comes from
    /// the configuration.
    pub fn generate_access(&mut self, config: &MeTube) -> (r: String)
        requires
            config.wf(),
        ensures
            final(self).access_token matches Some(t) && r@ == t.token@ && t.token@.len() == 44,
            final(self).refresh_token == old(self).refresh_token,
            final(self).username@ == old(self).username@,
            final(self).password_hash@ == old(self).password_hash@,
            final(self).permissions == old(self).permissions,
            final(self).password_reset == old(self).password_reset,
    {
        let t = ExpiringToken::new(config.access_token_duration);
        let r = t.token.clone();
        self.access_token = Some(t);
        r
    }

    /// Replaces the refresh token with a fresh one expiring at
    /// `now + duration`; the previous value is discarded.
    pub fn generate_refresh_at(&mut self, duration: i64, now: i64) -> (r: String)
        requires
            0 <= duration,
            now <= i64::MAX - duration,
        ensures
            final(self).refresh_token matches Some(t) && t.expires == now + duration && r@
                == t.token@ && t.token@.len() == 44,
            final(self).access_token == old(self).access_token,
            final(self).username@ == old(self).username@,
            final(self).password_hash@ == old(self).password_hash@,
            final(self).permissions == old(self).permissions,
            final(self).password_reset == old(self).password_reset,
    {
        let t = ExpiringToken::issue_at(now, duration);
        let r = t.token.clone();
        self.refresh_token = Some(t);
        r
    }

    /// Clock-reading form of refresh rotation.
    pub fn generate_refresh(&mut self, config: &MeTube) -> (r: String)
        requires
            config.wf(),
        ensures
            final(self).refresh_token matches Some(t) && r@ == t.token@ && t.token@.len() == 44,
            final(self).access_token == old(self).access_token,
            final(self).username@ == old(self).username@,
            final(self).password_hash@ == old(self).password_hash@,
            final(self).permissions == old(self).permissions,
            final(self).password_reset == old(self).password_reset,
    {
        let t = ExpiringToken::new(config.refresh_token_duration);
        let r = t.token.clone();
        self.refresh_token = Some(t);
        r
    }

    /// Rotates both session tokens, returning `(access, refresh)`.
    pub fn generate_access_and_refresh(&mut self, config: &MeTube) -> (r: (String, String))
        requires
            config.wf(),
        ensures
            final(self).access_token matches Some(t) && r.0@ == t.token@ && t.token@.len() == 44,
            final(self).refresh_token matches Some(t) && r.1@ == t.token@ && t.token@.len() == 44,
            final(self).username@ == old(self).username@,
            final(self).password_hash@ == old(self).password_hash@,
            final(self).permissions == old(self).permissions,
            final(self).password_reset == old(self).password_reset,
    {
        let access = self.generate_access(config);
        let refresh = self.generate_refresh(config);
        (access, refresh)
    }

    /// The capability gate: ADMIN passes everything, otherwise the
    /// specific flag must be present.
    pub fn allowed(&self, permission: u32) -> (r: bool)
        ensures
            r == spec_allows(self.permissions.inner, permission),
    {
        self.permissions.inner & ADMIN != 0 || self.permissions.inner & permission != 0
    }
}

/// Rotation invalidates the previous secret: once the stored access
/// token carries a value other than `old_token`, presenting `old_token`
/// fails at every instant, even before its old expiry.
pub proof fn lemma_rotation_invalidates_old_access(u: User, old_token: Seq<char>, now: i64)
    requires
        match u.access_token {
            Some(t) => t.token@ != old_token,
            None => true,
        },
    ensures
        !u.spec_check_access(old_token, now),
{
}

} // verus!
