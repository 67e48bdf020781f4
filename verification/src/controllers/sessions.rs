//! The sign-in form: what it submits, and how a submission is checked.
use crate::models::crypto::argon2_matches;
use crate::models::paste::owned;
use crate::models::session::{UnhashedToken, SESSION_COOKIE_NAME};
use crate::models::user::{email_rejection, password_rejection, EmailAddress, UnhashedPassword, User};
use crate::text::lowercased;
use crate::views::sessions::NewSessionsTemplate;
use vstd::prelude::*;

verus! {

pub const SIGN_IN_FAILURE_MESSAGE: &'static str = "Incorrect email or password";

/// The fields of the sign-in form, as submitted.
#[derive(Clone)]
pub struct CreateSessionParams {
    pub email: String,
    pub password: String,
}

/// Whether the submitted credentials are worth a lookup: a valid address and a password that
/// meets the password rules.
pub open spec fn well_formed_credentials(email: Seq<char>, password: Seq<char>) -> bool {
    email_rejection(lowercased(email)) is None && password_rejection(password) is None
}

/// Checks a sign-in against the user that the lookup by (lowercased) address found. Only
/// well-formed credentials of a found user whose stored hash matches the password sign in;
/// every other case gets the same page, with the one message that does not say what was wrong.
pub fn check_sign_in(params: CreateSessionParams, found: Option<User>) -> (r: Result<
    User,
    NewSessionsTemplate,
>)
    ensures
        match r {
            Ok(u) => well_formed_credentials(params.email@, params.password@) && found == Some(u)
                && argon2_matches(params.password@, u.password@),
            Err(t) => {
                &&& !(well_formed_credentials(params.email@, params.password@) && (found matches Some(
                    u,
                ) && argon2_matches(params.password@, u.password@)))
                &&& (t.error_message matches Some(m) && m@ == SIGN_IN_FAILURE_MESSAGE@)
                &&& t.email@ == params.email@
                &&& t.password@ == params.password@
                &&& t.session is None
            },
        },
{
    let email = EmailAddress::parse(params.email.as_str());
    let password = UnhashedPassword::parse(params.password.clone());
    let mut failure = NewSessionsTemplate::from_params(params);
    failure.error_message = Some(owned(SIGN_IN_FAILURE_MESSAGE));
    if email.is_err() {
        return Err(failure);
    }
    let password = match password {
        Ok(p) => p,
        Err(_) => return Err(failure),
    };
    match found {
        Some(user) => if user.verify_password(&password).is_ok() {
            Ok(user)
        } else {
            Err(failure)
        },
        None => Err(failure),
    }
}

/// The `Set-Cookie` value that hands a new session's token to the browser: the cookie
/// "session_token", for a long time, sent only over HTTPS and hidden from scripts, and kept
/// off cross-site requests unless they navigate to the site.
pub fn session_cookie(token: &UnhashedToken) -> (c: String)
    ensures
        c@ == SESSION_COOKIE_NAME@ + "="@ + token@ + "; Max-Age=999999; Secure; HttpOnly; SameSite=Lax"@,
{
    let mut c = owned(SESSION_COOKIE_NAME);
    c.append("=");
    c.append(token.expose_secret());
    c.append("; Max-Age=999999; Secure; HttpOnly; SameSite=Lax");
    c
}

} // verus!
