//! API keys: the key a client sends, and the hash of it that is stored.
use crate::models::crypto::{sha256_digest, sha256_of};
use crate::models::clock::{new_id, now_millis};
use crate::models::hex::{hex32, hex_u128_accepts, parses_as_hex_u128, random_hex_token, TokenParseError};
use crate::models::paste::owned;
use crate::models::user::User;
use crate::text::{chars_of, push_char};
use vstd::prelude::*;

verus! {

pub const API_KEY_HEADER_NAME: &'static str = "X-GLUESTICK-API-KEY";

/// The key a client presents: 32 hexadecimal digits.
#[derive(Clone)]
pub struct UnhashedKey(String);

impl View for UnhashedKey {
    type V = Seq<char>;

    closed spec fn view(&self) -> Seq<char> {
        self.0@
    }
}

impl UnhashedKey {
    /// A fresh random key: a random `u128` written as 32 lowercase hexadecimal digits.
    pub fn generate() -> (k: Self)
        ensures
            exists|n: u128| k@ == #[trigger] hex32(n),
            parses_as_hex_u128(k@),
    {
        UnhashedKey(random_hex_token())
    }

    /// The key `value`, when it reads as a hexadecimal `u128`.
    pub fn try_from(value: &str) -> (r: Result<Self, TokenParseError>)
        ensures
            r is Ok <==> parses_as_hex_u128(value@),
            r matches Ok(k) ==> k@ == value@,
    {
        if hex_u128_accepts(value) {
            Ok(UnhashedKey(owned(value)))
        } else {
            Err(TokenParseError)
        }
    }

    /// The key's text.
    pub fn expose_secret(&self) -> (s: &str)
        ensures
            s@ == self@,
    {
        self.0.as_str()
    }
}

/// What is stored of a key: the SHA-256 digest of its text.
pub struct HashedKey(Vec<u8>);

impl View for HashedKey {
    type V = Seq<u8>;

    closed spec fn view(&self) -> Seq<u8> {
        self.0@
    }
}

impl HashedKey {
    /// The SHA-256 digest of the key's UTF-8 text.
    pub fn from(key: &UnhashedKey) -> (h: Self)
        ensures
            h@ == sha256_of(vstd::utf8::encode_utf8(key@)),
            h@.len() == 32,
    {
        HashedKey(sha256_digest(key.expose_secret().as_bytes()))
    }

    /// A stored digest, as read back.
    pub fn from_stored(bytes: Vec<u8>) -> (h: Self)
        ensures
            h@ == bytes@,
    {
        HashedKey(bytes)
    }

    /// The digest.
    pub fn expose_secret(&self) -> (b: &Vec<u8>)
        ensures
            b@ == self@,
    {
        &self.0
    }
}

/// The name a key is listed under: its last four characters, quoted.
pub open spec fn key_name(key: Seq<char>) -> Seq<char> {
    let from = if key.len() >= 4 {
        key.len() - 4
    } else {
        0
    };
    "API Key ending in '"@ + key.subrange(from, key.len() as int) + "'"@
}

/// `key_name(key)` as a string.
pub fn key_name_string(key: &str) -> (s: String)
    ensures
        s@ == key_name(key@),
{
    let v = chars_of(key);
    let from: usize = if v.len() >= 4 {
        v.len() - 4
    } else {
        0
    };
    let mut s = owned("API Key ending in '");
    let ghost head = s@;
    let mut i = from;
    while i < v.len()
        invariant
            from <= i <= v.len(),
            s@ == head + v@.subrange(from as int, i as int),
        decreases v.len() - i,
    {
        push_char(&mut s, v[i]);
        assert(v@.subrange(from as int, i + 1) =~= v@.subrange(from as int, i as int).push(v@[i as int]));
        i = i + 1;
    }
    s.append("'");
    s
}

/// A stored API key of a user.
pub struct ApiKey {
    pub id: u128,
    pub name: String,
    pub key: HashedKey,
    pub user_id: u128,
    /// Milliseconds since the Unix epoch.
    pub created_at: i64,
    /// Milliseconds since the Unix epoch.
    pub last_used_at: i64,
}

impl ApiKey {
    /// A new key for `user_id`: a fresh key for the client, and the record to store, named
    /// after the key's last four characters and holding its hash.
    pub fn new(user_id: u128) -> (r: (UnhashedKey, Self))
        ensures
            r.1.key@ == sha256_of(vstd::utf8::encode_utf8(r.0@)),
            r.1.user_id == user_id,
            r.1.name@ == key_name(r.0@),
            r.1.created_at == r.1.last_used_at,
            parses_as_hex_u128(r.0@),
    {
        let now = now_millis();
        let unhashed_key = UnhashedKey::generate();
        let api_key = ApiKey {
            id: new_id(),
            name: key_name_string(unhashed_key.expose_secret()),
            key: HashedKey::from(&unhashed_key),
            user_id,
            created_at: now,
            last_used_at: now,
        };
        (unhashed_key, api_key)
    }
}

/// An API key found by its hash, with its user.
pub struct ApiSession {
    pub api_key: ApiKey,
    pub user: User,
}

} // verus!
