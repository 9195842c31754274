//! Time-bounded opaque tokens: creation, validation and expiry.
//!
//! All instants and durations are milliseconds on the Unix epoch scale,
//! so that validity is plain integer arithmetic.

use vstd::prelude::*;

use base64::Engine;
use rand::RngCore;

use crate::text::str_eq;

verus! {

/// The URL-safe base64 encoding (with padding) of a byte sequence.
pub uninterp spec fn base64_url_of(bytes: Seq<u8>) -> Seq<char>;

/// A character of the URL-safe base64 alphabet, or its `=` padding.
pub open spec fn base64_url_char(c: char) -> bool {
    ||| 'A' <= c && c <= 'Z'
    ||| 'a' <= c && c <= 'z'
    ||| '0' <= c && c <= '9'
    ||| c == '-'
    ||| c == '_'
    ||| c == '='
}

/// Relies on rand's `OsRng` (`RngCore::fill_bytes`): fills a buffer with
/// operating-system entropy. Nothing can be promised about the values.
#[verifier::external_body]
fn os_random_bytes_32() -> (r: Vec<u8>)
    ensures
        r@.len() == 32,
{
    let mut bytes = [0u8; 32];
    rand::rngs::OsRng.fill_bytes(&mut bytes);
    bytes.to_vec()
}

/// Relies on base64's `Engine::encode` with the `BASE64_URL_SAFE`
/// engine: the result encodes exactly the input bytes, four characters
/// for every three bytes, padded, drawn from the URL-safe alphabet
/// (`A`-`Z`, `a`-`z`, `0`-`9`, `-`, `_`) plus `=` padding.
#[verifier::external_body]
fn base64_url_encode(bytes: &Vec<u8>) -> (r: String)
    ensures
        r@ == base64_url_of(bytes@),
        r@.len() == ((bytes@.len() + 2) / 3) * 4,
        forall|i: int| 0 <= i < r@.len() ==> base64_url_char(#[trigger] r@[i]),
{
    base64::prelude::BASE64_URL_SAFE.encode(bytes)
}

/// Relies on chrono's `Utc::now`: the current wall-clock time in
/// milliseconds since the Unix epoch. No claim is made about the value.
#[verifier::external_body]
pub(crate) fn now_millis() -> (t: i64) {
    chrono::Utc::now().timestamp_millis()
}

/// The shape every token secret has: the URL-safe base64 encoding of
/// some 32-byte value, hence 44 characters of the URL-safe alphabet.
pub open spec fn wf_token_string(s: Seq<char>) -> bool {
    &&& s.len() == 44
    &&& exists|b: Seq<u8>| b.len() == 32 && s == base64_url_of(b)
    &&& forall|i: int| 0 <= i < s.len() ==> base64_url_char(#[trigger] s[i])
}

/// A fresh unguessable token string: 32 random bytes, URL-safe encoded.
pub fn secure_rnd_string() -> (r: String)
    ensures
        wf_token_string(r@),
{
    let bytes = os_random_bytes_32();
    let r = base64_url_encode(&bytes);
    proof {
        assert(bytes@.len() == 32 && r@ == base64_url_of(bytes@));
    }
    r
}

/// An opaque credential that stops working at a fixed instant.
#[derive(Debug)]
pub struct ExpiringToken {
    /// The secret value the caller must present.
    pub token: String,
    /// First instant (milliseconds) at which the token no longer works.
    pub expires: i64,
}

impl ExpiringToken {
    /// A presented string passes exactly when it matches the stored
    /// value and the expiry lies in the future.
    pub open spec fn valid_spec(&self, presented: Seq<char>, now: i64) -> bool {
        now < self.expires && presented == self.token@
    }

    /// Mints a token that lives for `duration` from the instant `now`.
    pub fn issue_at(now: i64, duration: i64) -> (t: ExpiringToken)
        requires
            0 <= duration,
            now <= i64::MAX - duration,
        ensures
            t.expires == now + duration,
            wf_token_string(t.token@),
    {
        ExpiringToken { token: secure_rnd_string(), expires: now + duration }
    }

    /// Mints a token that lives for `duration` from the current time,
    /// saturating at the end of the representable range.
    pub fn new(duration: i64) -> (t: ExpiringToken)
        requires
            0 <= duration,
        ensures
            wf_token_string(t.token@),
    {
        let now = now_millis();
        if now <= i64::MAX - duration {
            ExpiringToken::issue_at(now, duration)
        } else {
            ExpiringToken { token: secure_rnd_string(), expires: i64::MAX }
        }
    }

    /// Checks a presented string at the explicit instant `now`.
    pub fn valid_at(&self, token: &str, now: i64) -> (r: bool)
        ensures
            r == self.valid_spec(token@, now),
    {
        now < self.expires && str_eq(token, self.token.as_str())
    }

    /// Checks a presented string against the current wall-clock time.
    /// Whatever the clock read, a pass means the string matched.
    pub fn valid(&self, token: &str) -> (r: bool)
        ensures
            r ==> token@ == self.token@,
    {
        let now = now_millis();
        self.valid_at(token, now)
    }
}

/// A token issued for a positive duration is valid the moment it is
/// issued, and invalid at or after `now + duration`.
pub proof fn lemma_issue_lifecycle(
    t: ExpiringToken,
    now: i64,
    duration: i64,
    presented: Seq<char>,
    later: i64,
)
    requires
        0 < duration,
        now <= i64::MAX - duration,
        t.expires == now + duration,
        presented == t.token@,
        now + duration <= later,
    ensures
        t.valid_spec(presented, now),
        !t.valid_spec(presented, later),
{
}

} // verus!
