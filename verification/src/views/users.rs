//! The sign-up and settings forms as they are shown again, with the submitted values and any
//! messages.
use crate::controllers::users::{ChangePasswordParams, CreateUserParams};
use crate::models::session::Session;
use vstd::prelude::*;

verus! {

/// The sign-up page.
pub struct NewUsersTemplate {
    pub session: Option<Session>,
    pub username: String,
    pub username_error_message: Option<String>,
    pub email: String,
    pub email_error_message: Option<String>,
    pub password: String,
    pub password_error_message: Option<String>,
    pub invite_code: String,
    pub invite_code_error_message: Option<String>,
}

/// Whether `t` shows no message at all.
pub open spec fn no_signup_messages(t: NewUsersTemplate) -> bool {
    &&& t.username_error_message is None
    &&& t.email_error_message is None
    &&& t.password_error_message is None
    &&& t.invite_code_error_message is None
}

impl Default for NewUsersTemplate {
    fn default() -> (t: Self)
        ensures
            t.session is None,
            t.username@.len() == 0 && t.email@.len() == 0 && t.password@.len() == 0
                && t.invite_code@.len() == 0,
            no_signup_messages(t),
    {
        NewUsersTemplate {
            session: None,
            username: String::new(),
            username_error_message: None,
            email: String::new(),
            email_error_message: None,
            password: String::new(),
            password_error_message: None,
            invite_code: String::new(),
            invite_code_error_message: None,
        }
    }
}

impl NewUsersTemplate {
    /// The page filled with what was submitted, without messages.
    pub fn from_params(params: CreateUserParams) -> (t: Self)
        ensures
            t.session is None,
            t.username@ == params.username@ && t.email@ == params.email@ && t.password@
                == params.password@ && t.invite_code@ == params.invite_code@,
            no_signup_messages(t),
    {
        NewUsersTemplate {
            session: None,
            username: params.username,
            username_error_message: None,
            email: params.email,
            email_error_message: None,
            password: params.password,
            password_error_message: None,
            invite_code: params.invite_code,
            invite_code_error_message: None,
        }
    }
}

/// The form that changes a password.
#[derive(Clone)]
pub struct ChangePasswordFormPartial {
    pub old_password: String,
    pub new_password: String,
    pub new_password_confirm: String,
    pub old_password_error_message: Option<String>,
    pub new_password_error_message: Option<String>,
    pub show_success_message: bool,
}

impl Default for ChangePasswordFormPartial {
    fn default() -> (f: Self)
        ensures
            f.old_password@.len() == 0 && f.new_password@.len() == 0
                && f.new_password_confirm@.len() == 0,
            f.old_password_error_message is None && f.new_password_error_message is None,
            !f.show_success_message,
    {
        ChangePasswordFormPartial {
            old_password: String::new(),
            new_password: String::new(),
            new_password_confirm: String::new(),
            old_password_error_message: None,
            new_password_error_message: None,
            show_success_message: false,
        }
    }
}

impl ChangePasswordFormPartial {
    /// The form filled with what was submitted, without messages.
    pub fn from_params(params: ChangePasswordParams) -> (f: Self)
        ensures
            f.old_password@ == params.old_password@ && f.new_password@ == params.new_password@
                && f.new_password_confirm@ == params.new_password_confirm@,
            f.old_password_error_message is None && f.new_password_error_message is None,
            !f.show_success_message,
    {
        ChangePasswordFormPartial {
            old_password: params.old_password,
            new_password: params.new_password,
            new_password_confirm: params.new_password_confirm,
            old_password_error_message: None,
            new_password_error_message: None,
            show_success_message: false,
        }
    }
}

/// The user-name field of the sign-up form.
#[derive(Clone, Debug, Default)]
pub struct UsernameInputPartial {
    pub username: String,
    pub username_error_message: Option<String>,
}

impl UsernameInputPartial {
    /// The field filled with what was submitted, without a message.
    pub fn from_params(params: CreateUserParams) -> (p: Self)
        ensures
            p.username@ == params.username@ && p.username_error_message is None,
    {
        UsernameInputPartial { username: params.username, username_error_message: None }
    }
}

/// The address field of the sign-up form.
#[derive(Clone, Debug, Default)]
pub struct EmailAddressInputPartial {
    pub email: String,
    pub email_error_message: Option<String>,
}

impl EmailAddressInputPartial {
    /// The field filled with what was submitted, without a message.
    pub fn from_params(params: CreateUserParams) -> (p: Self)
        ensures
            p.email@ == params.email@ && p.email_error_message is None,
    {
        EmailAddressInputPartial { email: params.email, email_error_message: None }
    }
}

/// The address field of the sign-up form, under its other name.
#[derive(Clone, Debug, Default)]
pub struct EmailInputPartial {
    pub email: String,
    pub email_error_message: Option<String>,
}

impl EmailInputPartial {
    /// The field filled with what was submitted, without a message.
    pub fn from_params(params: CreateUserParams) -> (p: Self)
        ensures
            p.email@ == params.email@ && p.email_error_message is None,
    {
        EmailInputPartial { email: params.email, email_error_message: None }
    }
}

/// The password field of the sign-up form.
#[derive(Clone)]
pub struct PasswordInputPartial {
    pub password: String,
    pub password_error_message: Option<String>,
}

impl Default for PasswordInputPartial {
    fn default() -> (p: Self)
        ensures
            p.password@.len() == 0 && p.password_error_message is None,
    {
        PasswordInputPartial { password: String::new(), password_error_message: None }
    }
}

impl PasswordInputPartial {
    /// The field filled with what was submitted, without a message.
    pub fn from_params(params: CreateUserParams) -> (p: Self)
        ensures
            p.password@ == params.password@ && p.password_error_message is None,
    {
        PasswordInputPartial { password: params.password, password_error_message: None }
    }
}

} // verus!
