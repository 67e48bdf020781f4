//! Users and the values they are made of.
use crate::models::clock::{new_id, now_millis};
use crate::models::crypto::{argon2_hash, argon2_matches, argon2_verify};
use crate::models::paste::owned;
use crate::models::prelude::{is_parse_error, Error, Result};
use crate::params::users::{
    all_username_chars, is_reserved_username, lemma_lower_word_username, lemma_route_names_are_words,
    reserved_username, route_names, vec_all_username_chars,
};
use crate::text::{
    chars_of, ends_with_char, has_char, has_double_char, lowercased, starts_with_char,
    str_to_lowercase, trim, trimmed, vec_has_char, vec_has_double_char,
};
use vstd::prelude::*;

verus! {

pub const USERNAME_BLANK_MESSAGE: &'static str = "Username may not be blank";
pub const USERNAME_TOO_LONG_MESSAGE: &'static str = "Username is too long (maximum is 32 characters)";
pub const USERNAME_INVALID_CHARS_MESSAGE: &'static str = "Username may only contain alphanumeric characters or single hyphens, and may not begin or end with a hyphen";
pub const USERNAME_UNAVAILABLE_MESSAGE: &'static str = "Username is unavailable";
pub const EMAIL_BLANK_MESSAGE: &'static str = "Email may not be blank";
pub const EMAIL_MISSING_AT_MESSAGE: &'static str = "Email is missing the '@' symbol";
pub const EMAIL_MISSING_USER_MESSAGE: &'static str = "Email is missing the username part before the '@' symbol";
pub const EMAIL_MISSING_DOMAIN_MESSAGE: &'static str = "Email is missing the domain part after the '@' symbol";
pub const PASSWORD_BLANK_MESSAGE: &'static str = "Password may not be blank";
pub const PASSWORD_TOO_SHORT_MESSAGE: &'static str = "Password is too short (minimum is 8 characters)";
pub const PASSWORD_TOO_LONG_MESSAGE: &'static str = "Password is too long (maximum is 256 characters)";

/// Why a lowercased user name is refused, if it is: the first rule it breaks.
pub open spec fn username_rejection(s: Seq<char>) -> Option<Seq<char>> {
    if trimmed(s).len() == 0 {
        Some(USERNAME_BLANK_MESSAGE@)
    } else if s.len() > 32 {
        Some(USERNAME_TOO_LONG_MESSAGE@)
    } else if !all_username_chars(s) || has_double_char(s, '-') || starts_with_char(s, '-')
        || ends_with_char(s, '-') {
        Some(USERNAME_INVALID_CHARS_MESSAGE@)
    } else if is_reserved_username(s) {
        Some(USERNAME_UNAVAILABLE_MESSAGE@)
    } else {
        None
    }
}

/// A lowercased user name that names one of the site's top-level paths is refused as
/// unavailable; "api_sessions", whose underscore breaks the rule on characters first, is refused
/// for its characters.
pub proof fn lemma_route_names_refused(i: int)
    requires
        0 <= i < route_names().len(),
    ensures
        route_names()[i] != "api_sessions"@ ==> username_rejection(route_names()[i]) == Some(
            USERNAME_UNAVAILABLE_MESSAGE@,
        ),
        route_names()[i] == "api_sessions"@ ==> username_rejection(route_names()[i]) == Some(
            USERNAME_INVALID_CHARS_MESSAGE@,
        ),
{
    let s = route_names()[i];
    lemma_route_names_are_words(i);
    lemma_lower_word_username(s);
    assert(is_reserved_username(s));
}

/// Why a lowercased email address is refused, if it is.
pub open spec fn email_rejection(s: Seq<char>) -> Option<Seq<char>> {
    if trimmed(s).len() == 0 {
        Some(EMAIL_BLANK_MESSAGE@)
    } else if !has_char(s, '@') {
        Some(EMAIL_MISSING_AT_MESSAGE@)
    } else if starts_with_char(s, '@') {
        Some(EMAIL_MISSING_USER_MESSAGE@)
    } else if ends_with_char(s, '@') {
        Some(EMAIL_MISSING_DOMAIN_MESSAGE@)
    } else {
        None
    }
}

/// Why a password is refused, if it is.
pub open spec fn password_rejection(s: Seq<char>) -> Option<Seq<char>> {
    if s.len() == 0 {
        Some(PASSWORD_BLANK_MESSAGE@)
    } else if s.len() < 8 {
        Some(PASSWORD_TOO_SHORT_MESSAGE@)
    } else if s.len() > 256 {
        Some(PASSWORD_TOO_LONG_MESSAGE@)
    } else {
        None
    }
}

/// The name a user is known and reached by, in lower case.
#[derive(Debug, PartialEq, Eq)]
pub struct Username(String);

impl Clone for Username {
    fn clone(&self) -> (r: Self)
        ensures
            r == *self,
    {
        Username(self.0.clone())
    }
}

impl View for Username {
    type V = Seq<char>;

    closed spec fn view(&self) -> Seq<char> {
        self.0@
    }
}

impl Username {
    /// The user name `s` in lower case, unless that is blank, longer than 32 characters,
    /// holds characters other than alphanumerics and single inner hyphens, or is reserved.
    pub fn parse(s: &str) -> (r: Result<Self>)
        ensures
            match username_rejection(lowercased(s@)) {
                Some(msg) => is_parse_error(r, msg),
                None => r matches Ok(u) && u@ == lowercased(s@),
            },
    {
        let lower = str_to_lowercase(s);
        let v = chars_of(lower.as_str());
        let n = v.len();
        if trim(lower.as_str()).as_str().is_empty() {
            Err(Error::Parse(owned(USERNAME_BLANK_MESSAGE)))
        } else if n > 32 {
            Err(Error::Parse(owned(USERNAME_TOO_LONG_MESSAGE)))
        } else if !vec_all_username_chars(&v) || vec_has_double_char(&v, '-') || v[0] == '-' || v[n
            - 1] == '-' {
            Err(Error::Parse(owned(USERNAME_INVALID_CHARS_MESSAGE)))
        } else if reserved_username(lower.as_str()) {
            Err(Error::Parse(owned(USERNAME_UNAVAILABLE_MESSAGE)))
        } else {
            Ok(Username(lower))
        }
    }

    /// The name.
    pub fn as_str(&self) -> (s: &str)
        ensures
            s@ == self@,
    {
        self.0.as_str()
    }
}

/// The address a user signs in with, in lower case.
#[derive(Debug, PartialEq, Eq)]
pub struct EmailAddress(String);

impl Clone for EmailAddress {
    fn clone(&self) -> (r: Self)
        ensures
            r == *self,
    {
        EmailAddress(self.0.clone())
    }
}

impl View for EmailAddress {
    type V = Seq<char>;

    closed spec fn view(&self) -> Seq<char> {
        self.0@
    }
}

impl EmailAddress {
    /// The address `s` in lower case, unless that is blank, has no '@', or has nothing before
    /// or after its '@'.
    pub fn parse(s: &str) -> (r: Result<Self>)
        ensures
            match email_rejection(lowercased(s@)) {
                Some(msg) => is_parse_error(r, msg),
                None => r matches Ok(e) && e@ == lowercased(s@),
            },
    {
        let lower = str_to_lowercase(s);
        let v = chars_of(lower.as_str());
        let n = v.len();
        if trim(lower.as_str()).as_str().is_empty() {
            Err(Error::Parse(owned(EMAIL_BLANK_MESSAGE)))
        } else if !vec_has_char(&v, '@') {
            Err(Error::Parse(owned(EMAIL_MISSING_AT_MESSAGE)))
        } else if v[0] == '@' {
            Err(Error::Parse(owned(EMAIL_MISSING_USER_MESSAGE)))
        } else if v[n - 1] == '@' {
            Err(Error::Parse(owned(EMAIL_MISSING_DOMAIN_MESSAGE)))
        } else {
            Ok(EmailAddress(lower))
        }
    }

    /// The address.
    pub fn as_str(&self) -> (s: &str)
        ensures
            s@ == self@,
    {
        self.0.as_str()
    }
}

/// A password as the user typed it.
pub struct UnhashedPassword(String);

impl View for UnhashedPassword {
    type V = Seq<char>;

    closed spec fn view(&self) -> Seq<char> {
        self.0@
    }
}

impl UnhashedPassword {
    /// The password `s`, unless it is blank, shorter than 8 or longer than 256 characters.
    pub fn parse(s: String) -> (r: Result<Self>)
        ensures
            match password_rejection(s@) {
                Some(msg) => is_parse_error(r, msg),
                None => r matches Ok(p) && p@ == s@,
            },
    {
        let n = chars_of(s.as_str()).len();
        if n == 0 {
            Err(Error::Parse(owned(PASSWORD_BLANK_MESSAGE)))
        } else if n < 8 {
            Err(Error::Parse(owned(PASSWORD_TOO_SHORT_MESSAGE)))
        } else if n > 256 {
            Err(Error::Parse(owned(PASSWORD_TOO_LONG_MESSAGE)))
        } else {
            Ok(UnhashedPassword(s))
        }
    }

    /// The password.
    pub fn expose_secret(&self) -> (s: &str)
        ensures
            s@ == self@,
    {
        self.0.as_str()
    }
}

/// A password as stored: an Argon2 hash in PHC string format.
#[derive(PartialEq, Eq)]
pub struct HashedPassword(String);

impl View for HashedPassword {
    type V = Seq<char>;

    closed spec fn view(&self) -> Seq<char> {
        self.0@
    }
}

impl Clone for HashedPassword {
    fn clone(&self) -> (r: Self)
        ensures
            r == *self,
    {
        HashedPassword(self.0.clone())
    }
}

impl HashedPassword {
    /// Hashes `password` with Argon2 under a fresh random salt. The salt is random, so which
    /// hash comes back is not fixed, but the password verifies against it; a failure of the
    /// hasher is passed on.
    pub fn hash(password: &UnhashedPassword) -> (r: Result<Self>)
        ensures
            r matches Ok(h) ==> argon2_matches(password@, h@),
            r is Err ==> r matches Err(Error::Argon2(_)),
    {
        match argon2_hash(password.expose_secret()) {
            Ok(h) => Ok(HashedPassword(h)),
            Err(e) => Err(Error::Argon2(e)),
        }
    }

    /// A stored hash, as read back.
    pub fn from_stored(s: String) -> (r: Self)
        ensures
            r@ == s@,
    {
        HashedPassword(s)
    }

    /// The stored hash.
    pub fn expose_secret(&self) -> (s: &str)
        ensures
            s@ == self@,
    {
        self.0.as_str()
    }
}

/// A user of the site.
#[derive(Clone)]
pub struct User {
    pub id: u128,
    pub username: Username,
    pub email: EmailAddress,
    pub password: HashedPassword,
    /// Milliseconds since the Unix epoch.
    pub created_at: i64,
    /// Milliseconds since the Unix epoch.
    pub updated_at: i64,
}

impl User {
    /// A new user with a fresh id, created and updated now, whose stored password is an Argon2
    /// hash of `password`: the user can sign in with that password.
    pub fn new(username: Username, email: EmailAddress, password: UnhashedPassword) -> (r: Result<
        Self,
    >)
        ensures
            r matches Ok(u) ==> u.username == username && u.email == email && u.created_at
                == u.updated_at && argon2_matches(password@, u.password@),
            r is Err ==> r matches Err(Error::Argon2(_)),
    {
        let now = now_millis();
        let hashed = HashedPassword::hash(&password)?;
        Ok(User {
            id: new_id(),
            username,
            email,
            password: hashed,
            created_at: now,
            updated_at: now,
        })
    }

    /// `Ok` exactly when `password` matches the stored hash.
    pub fn verify_password(&self, password: &UnhashedPassword) -> (r: Result<()>)
        ensures
            r is Ok <==> argon2_matches(password@, self.password@),
            r is Err ==> r matches Err(Error::Argon2(_)),
    {
        match argon2_verify(password.expose_secret(), self.password.expose_secret()) {
            Ok(()) => Ok(()),
            Err(e) => Err(Error::Argon2(e)),
        }
    }
}

} // verus!
