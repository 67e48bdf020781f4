//! The sign-up and settings forms: what they submit, and how a submission is checked.
use crate::models::invite_code::InviteCode;
use crate::models::paste::owned;
use crate::controllers::prelude::{message_is, parse_message};
use crate::models::prelude::Error as ModelsError;
use crate::models::user::{
    email_rejection, password_rejection, username_rejection, EmailAddress, UnhashedPassword, User,
    Username,
};
use crate::models::crypto::argon2_matches;
use crate::models::session::{UnhashedToken, SESSION_COOKIE_NAME};
use crate::text::lowercased;
use crate::views::users::{
    ChangePasswordFormPartial, EmailAddressInputPartial, NewUsersTemplate, PasswordInputPartial,
    UsernameInputPartial,
};
use vstd::prelude::*;

verus! {

pub const USERNAME_TAKEN_MESSAGE: &'static str = "Username is already taken";
pub const EMAIL_TAKEN_MESSAGE: &'static str = "Email is already taken";
pub const INVALID_INVITE_CODE_MESSAGE: &'static str = "Invalid invite code";
pub const PASSWORD_MISMATCH_MESSAGE: &'static str = "New password and password confirmation do not match";
pub const INCORRECT_PASSWORD_MESSAGE: &'static str = "Incorrect password";

/// The fields of the sign-up form, as submitted.
#[derive(Clone)]
pub struct CreateUserParams {
    pub username: String,
    pub email: String,
    pub password: String,
    pub invite_code: String,
}

/// The fields of the form that changes a password, as submitted.
#[derive(Clone)]
pub struct ChangePasswordParams {
    pub old_password: String,
    pub new_password: String,
    pub new_password_confirm: String,
}

/// The message a field earns: that of the first rule it breaks, else `taken_message` when the
/// value is already someone's.
pub open spec fn field_message(
    rejection: Option<Seq<char>>,
    taken: bool,
    taken_message: Seq<char>,
) -> Option<Seq<char>> {
    match rejection {
        Some(m) => Some(m),
        None => if taken {
            Some(taken_message)
        } else {
            None
        },
    }
}

/// Checks the sign-up form. The user name, the address and the password each earn the message
/// of the first rule they break; a valid name or address that `username_taken` or
/// `email_taken` reports as already someone's earns the message that says so (the lookups are
/// consulted only for valid values). With no message, the parsed values.
pub fn check_signup(params: CreateUserParams, username_taken: bool, email_taken: bool) -> (r: Result<
    (Username, EmailAddress, UnhashedPassword),
    NewUsersTemplate,
>)
    ensures
        ({
            let um = field_message(
                username_rejection(lowercased(params.username@)),
                username_taken,
                USERNAME_TAKEN_MESSAGE@,
            );
            let em = field_message(
                email_rejection(lowercased(params.email@)),
                email_taken,
                EMAIL_TAKEN_MESSAGE@,
            );
            let pm = password_rejection(params.password@);
            match r {
                Ok((u, e, p)) => um is None && em is None && pm is None && u@ == lowercased(
                    params.username@,
                ) && e@ == lowercased(params.email@) && p@ == params.password@,
                Err(t) => !(um is None && em is None && pm is None) && message_is(
                    t.username_error_message,
                    um,
                ) && message_is(t.email_error_message, em) && message_is(
                    t.password_error_message,
                    pm,
                ) && t.invite_code_error_message is None && t.session is None && t.username@
                    == params.username@ && t.email@ == params.email@ && t.password@
                    == params.password@ && t.invite_code@ == params.invite_code@,
            }
        }),
{
    let username_result = Username::parse(params.username.as_str());
    let email_result = EmailAddress::parse(params.email.as_str());
    let password_result = UnhashedPassword::parse(params.password.clone());
    let mut form = NewUsersTemplate::from_params(params);
    form.username_error_message = parse_message(&username_result);
    form.email_error_message = parse_message(&email_result);
    form.password_error_message = parse_message(&password_result);
    if username_result.is_ok() && username_taken {
        form.username_error_message = Some(owned(USERNAME_TAKEN_MESSAGE));
    }
    if email_result.is_ok() && email_taken {
        form.email_error_message = Some(owned(EMAIL_TAKEN_MESSAGE));
    }
    match (username_result, email_result, password_result) {
        (Ok(u), Ok(e), Ok(p)) => {
            if username_taken || email_taken {
                Err(form)
            } else {
                Ok((u, e, p))
            }
        },
        _ => Err(form),
    }
}

/// Checks the invite code once the other fields passed: the code found, or the page with the
/// message that it is invalid (and no other message).
pub fn check_invite_code(params: CreateUserParams, found: Option<InviteCode>) -> (r: Result<
    InviteCode,
    NewUsersTemplate,
>)
    ensures
        match found {
            Some(c) => r == Ok::<InviteCode, NewUsersTemplate>(c),
            None => (r matches Err(t) && t.invite_code_error_message matches Some(m)
                && m@ == INVALID_INVITE_CODE_MESSAGE@ && t.username_error_message is None
                && t.email_error_message is None && t.password_error_message is None
                && t.session is None && t.username@ == params.username@ && t.email@
                == params.email@ && t.password@ == params.password@ && t.invite_code@
                == params.invite_code@),
        },
{
    match found {
        Some(c) => Ok(c),
        None => {
            let mut form = NewUsersTemplate::from_params(params);
            form.invite_code_error_message = Some(owned(INVALID_INVITE_CODE_MESSAGE));
            Err(form)
        },
    }
}

/// Why a password change is refused.
pub enum ChangeRejection {
    /// The form comes back with a message.
    Validation(ChangePasswordFormPartial),
    /// Checking the old password failed; the request ends in a server error.
    Internal(ModelsError),
}

/// Whether `f` is the form filled with `params` whose only message is `old` for the old
/// password and `new` for the new one.
pub open spec fn change_form_is(
    f: ChangePasswordFormPartial,
    params: ChangePasswordParams,
    old: Option<Seq<char>>,
    new: Option<Seq<char>>,
) -> bool {
    &&& f.old_password@ == params.old_password@
    &&& f.new_password@ == params.new_password@
    &&& f.new_password_confirm@ == params.new_password_confirm@
    &&& message_is(f.old_password_error_message, old)
    &&& message_is(f.new_password_error_message, new)
    &&& !f.show_success_message
}

/// Checks a password change for `user`, in this order: the new password must meet the password
/// rules (else its message), must equal its confirmation, and the old password must meet the
/// rules (else "Incorrect password"); then the old password is checked against the stored hash,
/// and a mismatch ends in `Internal` with the error of the check. On success, the new password.
pub fn check_change_password(params: ChangePasswordParams, user: &User) -> (r: Result<
    UnhashedPassword,
    ChangeRejection,
>)
    ensures
        match password_rejection(params.new_password@) {
            Some(msg) => (r matches Err(ChangeRejection::Validation(f)) && change_form_is(
                f,
                params,
                None,
                Some(msg),
            )),
            None => if params.new_password@ != params.new_password_confirm@ {
                (r matches Err(ChangeRejection::Validation(f)) && change_form_is(
                    f,
                    params,
                    None,
                    Some(PASSWORD_MISMATCH_MESSAGE@),
                ))
            } else if password_rejection(params.old_password@) is Some {
                (r matches Err(ChangeRejection::Validation(f)) && change_form_is(
                    f,
                    params,
                    Some(INCORRECT_PASSWORD_MESSAGE@),
                    None,
                ))
            } else if !argon2_matches(params.old_password@, user.password@) {
                (r matches Err(ChangeRejection::Internal(ModelsError::Argon2(_))))
            } else {
                (r matches Ok(p) && p@ == params.new_password@)
            },
        },
{
    let new_password = match UnhashedPassword::parse(params.new_password.clone()) {
        Ok(p) => p,
        Err(e) => {
            let mut f = ChangePasswordFormPartial::from_params(params);
            f.new_password_error_message = parse_message::<()>(&Err(e));
            return Err(ChangeRejection::Validation(f));
        },
    };
    if !crate::text::str_eq(params.new_password.as_str(), params.new_password_confirm.as_str()) {
        let mut f = ChangePasswordFormPartial::from_params(params);
        f.new_password_error_message = Some(owned(PASSWORD_MISMATCH_MESSAGE));
        return Err(ChangeRejection::Validation(f));
    }
    let old_password = match UnhashedPassword::parse(params.old_password.clone()) {
        Ok(p) => p,
        Err(_) => {
            let mut f = ChangePasswordFormPartial::from_params(params);
            f.old_password_error_message = Some(owned(INCORRECT_PASSWORD_MESSAGE));
            return Err(ChangeRejection::Validation(f));
        },
    };
    match user.verify_password(&old_password) {
        Ok(()) => Ok(new_password),
        Err(e) => Err(ChangeRejection::Internal(e)),
    }
}

/// The `Set-Cookie` value that hands the session of a user who just signed up to the browser:
/// the cookie "session_token", for a long time, sent only over HTTPS and hidden from scripts.
pub fn signup_session_cookie(token: &UnhashedToken) -> (c: String)
    ensures
        c@ == SESSION_COOKIE_NAME@ + "="@ + token@ + "; Max-Age=999999; Secure; HttpOnly"@,
{
    let mut c = owned(SESSION_COOKIE_NAME);
    c.append("=");
    c.append(token.expose_secret());
    c.append("; Max-Age=999999; Secure; HttpOnly");
    c
}

/// Whether a user's page lists their secret pastes as well: only when the viewer, signed in
/// as `viewer`, is that user.
pub fn lists_secrets(viewer: Option<u128>, owner: u128) -> (b: bool)
    ensures
        b == (viewer == Some(owner)),
{
    match viewer {
        Some(v) => v == owner,
        None => false,
    }
}

/// What the user-name field shows while the sign-up form is being filled: the message of the
/// first rule the name breaks, else "Username is already taken" when `taken`, else no message.
/// A refused name makes the field come back as a validation error (`Err`).
pub fn check_username_field(params: CreateUserParams, taken: bool) -> (r: Result<
    UsernameInputPartial,
    UsernameInputPartial,
>)
    ensures
        ({
            let m = field_message(
                username_rejection(lowercased(params.username@)),
                taken,
                USERNAME_TAKEN_MESSAGE@,
            );
            match r {
                Ok(p) => m is None && p.username@ == params.username@ && p.username_error_message
                    is None,
                Err(p) => m is Some && message_is(p.username_error_message, m) && p.username@
                    == params.username@,
            }
        }),
{
    let result = Username::parse(params.username.as_str());
    let mut p = UsernameInputPartial::from_params(params);
    match result {
        Err(e) => {
            p.username_error_message = parse_message::<()>(&Err(e));
            Err(p)
        },
        Ok(_) => if taken {
            p.username_error_message = Some(owned(USERNAME_TAKEN_MESSAGE));
            Err(p)
        } else {
            Ok(p)
        },
    }
}

/// What the address field shows while the sign-up form is being filled, as for the user name.
pub fn check_email_field(params: CreateUserParams, taken: bool) -> (r: Result<
    EmailAddressInputPartial,
    EmailAddressInputPartial,
>)
    ensures
        ({
            let m = field_message(
                email_rejection(lowercased(params.email@)),
                taken,
                EMAIL_TAKEN_MESSAGE@,
            );
            match r {
                Ok(p) => m is None && p.email@ == params.email@ && p.email_error_message is None,
                Err(p) => m is Some && message_is(p.email_error_message, m) && p.email@
                    == params.email@,
            }
        }),
{
    let result = EmailAddress::parse(params.email.as_str());
    let mut p = EmailAddressInputPartial::from_params(params);
    match result {
        Err(e) => {
            p.email_error_message = parse_message::<()>(&Err(e));
            Err(p)
        },
        Ok(_) => if taken {
            p.email_error_message = Some(owned(EMAIL_TAKEN_MESSAGE));
            Err(p)
        } else {
            Ok(p)
        },
    }
}

/// What the password field shows while the sign-up form is being filled: the message of the
/// first rule the password breaks, as a validation error, else no message.
pub fn check_password_field(params: CreateUserParams) -> (r: Result<
    PasswordInputPartial,
    PasswordInputPartial,
>)
    ensures
        match password_rejection(params.password@) {
            Some(m) => (r matches Err(p) && message_is(p.password_error_message, Some(m))
                && p.password@ == params.password@),
            None => (r matches Ok(p) && p.password_error_message is None && p.password@
                == params.password@),
        },
{
    let result = UnhashedPassword::parse(params.password.clone());
    let mut p = PasswordInputPartial::from_params(params);
    match result {
        Err(e) => {
            p.password_error_message = parse_message::<()>(&Err(e));
            Err(p)
        },
        Ok(_) => Ok(p),
    }
}

} // verus!
