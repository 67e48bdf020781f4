//! Browser sessions: the token a browser holds, and the hash of it that is stored.
use crate::models::crypto::{sha256_digest, sha256_of};
use crate::models::clock::now_millis;
use crate::models::hex::{hex32, hex_u128_accepts, parses_as_hex_u128, random_hex_token, TokenParseError};
use crate::models::paste::owned;
use crate::models::user::User;
use crate::helpers::time::{in_timestamp_range, instant_before, seconds_before};
use vstd::prelude::*;

verus! {

pub const SESSION_COOKIE_NAME: &'static str = "session_token";
/// Sessions end 14 days after they start.
pub const ABSOLUTE_SESSION_TTL_SECONDS: i64 = 1_209_600;
/// Sessions end after 8 hours without use.
pub const IDLE_SESSION_TTL_SECONDS: i64 = 28_800;

/// The token a browser presents: 32 hexadecimal digits.
#[derive(Clone)]
pub struct UnhashedToken(String);

impl View for UnhashedToken {
    type V = Seq<char>;

    closed spec fn view(&self) -> Seq<char> {
        self.0@
    }
}

impl UnhashedToken {
    /// A fresh random token: a random `u128` written as 32 lowercase hexadecimal digits.
    pub fn generate() -> (t: Self)
        ensures
            exists|n: u128| t@ == #[trigger] hex32(n),
            parses_as_hex_u128(t@),
    {
        UnhashedToken(random_hex_token())
    }

    /// The token `value`, when it reads as a hexadecimal `u128` (an optional '+' and digits of
    /// either case, with a value under 2^128).
    pub fn try_from(value: &str) -> (r: Result<Self, TokenParseError>)
        ensures
            r is Ok <==> parses_as_hex_u128(value@),
            r matches Ok(t) ==> t@ == value@,
    {
        if hex_u128_accepts(value) {
            Ok(UnhashedToken(owned(value)))
        } else {
            Err(TokenParseError)
        }
    }

    /// The token's text.
    pub fn expose_secret(&self) -> (s: &str)
        ensures
            s@ == self@,
    {
        self.0.as_str()
    }
}

/// What is stored of a token: the SHA-256 digest of its text.
pub struct HashedToken(Vec<u8>);

impl View for HashedToken {
    type V = Seq<u8>;

    closed spec fn view(&self) -> Seq<u8> {
        self.0@
    }
}

impl HashedToken {
    /// The SHA-256 digest of the token's UTF-8 text.
    pub fn from(token: &UnhashedToken) -> (h: Self)
        ensures
            h@ == sha256_of(vstd::utf8::encode_utf8(token@)),
            h@.len() == 32,
    {
        HashedToken(sha256_digest(token.expose_secret().as_bytes()))
    }

    /// A stored digest, as read back.
    pub fn from_stored(bytes: Vec<u8>) -> (h: Self)
        ensures
            h@ == bytes@,
    {
        HashedToken(bytes)
    }

    /// The digest.
    pub fn expose_secret(&self) -> (b: &Vec<u8>)
        ensures
            b@ == self@,
    {
        &self.0
    }
}

/// A stored session: the hashed token, its user, and when it started and was last used.
pub struct SessionToken {
    pub token: HashedToken,
    pub user_id: u128,
    /// Milliseconds since the Unix epoch.
    pub created_at: i64,
    /// Milliseconds since the Unix epoch.
    pub last_used_at: i64,
}

impl SessionToken {
    /// A new session for `user_id`: a fresh token for the browser, and the record to store,
    /// which holds the token's hash.
    pub fn new(user_id: u128) -> (r: (UnhashedToken, Self))
        ensures
            r.1.token@ == sha256_of(vstd::utf8::encode_utf8(r.0@)),
            r.1.user_id == user_id,
            parses_as_hex_u128(r.0@),
    {
        let unhashed_token = UnhashedToken::generate();
        let session_token = SessionToken {
            token: HashedToken::from(&unhashed_token),
            user_id,
            created_at: now_millis(),
            last_used_at: now_millis(),
        };
        (unhashed_token, session_token)
    }
}

/// The instant before which a session that started has ended, `now_ms` being now: 14 days
/// ago. `None` when that instant, or now, lies outside the range `jiff` represents.
pub fn absolute_expiration_cutoff(now_ms: i64) -> (r: Option<i64>)
    ensures
        r == instant_before(now_ms, ABSOLUTE_SESSION_TTL_SECONDS),
        r == (if in_timestamp_range(now_ms as int) && in_timestamp_range(now_ms - 1_209_600_000) {
            Some((now_ms - 1_209_600_000) as i64)
        } else {
            None::<i64>
        }),
{
    seconds_before(now_ms, ABSOLUTE_SESSION_TTL_SECONDS)
}

/// The instant before which a session last used has ended, `now_ms` being now: 8 hours ago.
/// `None` when that instant, or now, lies outside the range `jiff` represents.
pub fn idle_expiration_cutoff(now_ms: i64) -> (r: Option<i64>)
    ensures
        r == instant_before(now_ms, IDLE_SESSION_TTL_SECONDS),
        r == (if in_timestamp_range(now_ms as int) && in_timestamp_range(now_ms - 28_800_000) {
            Some((now_ms - 28_800_000) as i64)
        } else {
            None::<i64>
        }),
{
    seconds_before(now_ms, IDLE_SESSION_TTL_SECONDS)
}

impl SessionToken {
    /// Whether the session started before `cutoff`, and so ends under the absolute limit.
    pub fn started_before(&self, cutoff: i64) -> (b: bool)
        ensures
            b == (self.created_at < cutoff),
    {
        self.created_at < cutoff
    }

    /// Whether the session was last used before `cutoff`, and so ends under the idle limit.
    pub fn idle_since_before(&self, cutoff: i64) -> (b: bool)
        ensures
            b == (self.last_used_at < cutoff),
    {
        self.last_used_at < cutoff
    }
}

/// A session found by its token, with its user.
pub struct Session {
    pub session_token: SessionToken,
    pub user: User,
}

} // verus!
