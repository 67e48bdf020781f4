//! The session cookie's token, and the user it authenticates.
use crate::models::crypto::{sha256_digest, sha256_of};
use crate::models::hex::{hex32, hex_u128_accepts, parses_as_hex_u128, random_hex_token, TokenParseError};
use crate::models::paste::owned;
use crate::models::user::User;
use vstd::prelude::*;

verus! {

/// The user that a request's session token belongs to.
pub struct AuthenticatedUser(pub User);

/// The token of a session cookie: 32 hexadecimal digits.
#[derive(Clone)]
pub struct SessionToken(String);

impl View for SessionToken {
    type V = Seq<char>;

    closed spec fn view(&self) -> Seq<char> {
        self.0@
    }
}

impl SessionToken {
    /// A fresh random token: a random `u128` written as 32 lowercase hexadecimal digits.
    pub fn generate() -> (t: Self)
        ensures
            exists|n: u128| t@ == #[trigger] hex32(n),
            parses_as_hex_u128(t@),
    {
        SessionToken(random_hex_token())
    }

    /// The SHA-256 digest of the token's UTF-8 text.
    pub fn to_hash(&self) -> (h: HashedSessionToken)
        ensures
            h@ == sha256_of(vstd::utf8::encode_utf8(self@)),
    {
        HashedSessionToken(sha256_digest(self.0.as_str().as_bytes()))
    }

    /// The token `s`, when it reads as a hexadecimal `u128`.
    pub fn parse(s: &str) -> (r: Result<Self, TokenParseError>)
        ensures
            r is Ok <==> parses_as_hex_u128(s@),
            r matches Ok(t) ==> t@ == s@,
    {
        if hex_u128_accepts(s) {
            Ok(SessionToken(owned(s)))
        } else {
            Err(TokenParseError)
        }
    }

    /// The token's text.
    pub fn expose_secret(&self) -> (s: &str)
        ensures
            s@ == self@,
    {
        self.0.as_str()
    }
}

/// The SHA-256 digest of a session token.
pub struct HashedSessionToken(Vec<u8>);

impl View for HashedSessionToken {
    type V = Seq<u8>;

    closed spec fn view(&self) -> Seq<u8> {
        self.0@
    }
}

impl HashedSessionToken {
    /// The digest.
    pub fn expose_secret(&self) -> (b: &Vec<u8>)
        ensures
            b@ == self@,
    {
        &self.0
    }
}

} // verus!
