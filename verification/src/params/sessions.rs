//! The sign-in form, and how it is checked.
use crate::models::crypto::argon2_matches;
use crate::models::user::{UnhashedPassword, User};
use crate::params::prelude::{single_field, Error, Report, Result};
use crate::params::users::{single_message_report, MAX_PASSWORD_LENGTH, MIN_PASSWORD_LENGTH};
use crate::text::{chars_of, has_char, starts_with_char, ends_with_char, vec_has_char};
use vstd::prelude::*;

verus! {

pub const AUTH_FAILURE_MESSAGE: &'static str = "Incorrect email or password";
pub const SELF_REPORT_KEY: &'static str = "self";

/// Whether an email address and password are worth looking up at all: the address has an '@'
/// with something on either side, and the password has between 8 and 256 characters.
pub open spec fn plausible_credentials(email: Seq<char>, password: Seq<char>) -> bool {
    &&& has_char(email, '@')
    &&& !starts_with_char(email, '@')
    &&& !ends_with_char(email, '@')
    &&& MIN_PASSWORD_LENGTH <= password.len() <= MAX_PASSWORD_LENGTH
}

/// Whether `r` is the one failure that sign-in reports, whatever went wrong.
pub open spec fn is_auth_failure<T>(r: Result<T>) -> bool {
    match r {
        Err(Error::Report(rep)) => rep.wf() && rep@ == single_field(
            SELF_REPORT_KEY@,
            seq![AUTH_FAILURE_MESSAGE@],
        ),
        _ => false,
    }
}

/// The fields of the sign-in form.
pub struct CreateSessionParams {
    pub email: String,
    pub password: String,
}

impl CreateSessionParams {
    /// Whether the credentials are worth looking up.
    pub fn is_plausible(&self) -> (b: bool)
        ensures
            b == plausible_credentials(self.email@, self.password@),
    {
        let e = chars_of(self.email.as_str());
        let n = e.len();
        let p = chars_of(self.password.as_str()).len();
        vec_has_char(&e, '@') && !(n > 0 && e[0] == '@') && !(n > 0 && e[n - 1] == '@')
            && p >= MIN_PASSWORD_LENGTH && p <= MAX_PASSWORD_LENGTH
    }

    /// Signs in with the user that the lookup by address found: that user, when the credentials
    /// are plausible and the password matches the user's stored hash; otherwise the one failure
    /// report, which does not say what was wrong.
    pub fn authenticate(self, found: Option<User>) -> (r: Result<User>)
        ensures
            match found {
                Some(u) => if plausible_credentials(self.email@, self.password@) && argon2_matches(
                    self.password@,
                    u.password@,
                ) {
                    r matches Ok(v) && v == u
                } else {
                    is_auth_failure(r)
                },
                None => is_auth_failure(r),
            },
    {
        if !self.is_plausible() {
            return Err(Error::Report(Self::report()));
        }
        match found {
            Some(user) => {
                let password = UnhashedPassword::parse(self.password);
                match password {
                    Ok(p) => {
                        if user.verify_password(&p).is_ok() {
                            Ok(user)
                        } else {
                            Err(Error::Report(Self::report()))
                        }
                    },
                    Err(_) => Err(Error::Report(Self::report())),
                }
            },
            None => Err(Error::Report(Self::report())),
        }
    }

    fn report() -> (r: Report)
        ensures
            r.wf(),
            r@ == single_field(SELF_REPORT_KEY@, seq![AUTH_FAILURE_MESSAGE@]),
    {
        single_message_report(SELF_REPORT_KEY, AUTH_FAILURE_MESSAGE)
    }
}

} // verus!
