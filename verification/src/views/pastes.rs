//! The paste forms as they are shown again, with the submitted values and any messages.
use crate::controllers::pastes::{CreatePasteParams, UpdatePasteParams};
use crate::models::paste::{owned, Paste};
use crate::models::session::Session;
use crate::models::user::Username;
use vstd::prelude::*;

verus! {

/// The form that creates a paste.
#[derive(Clone, Debug)]
pub struct NewPastesFormPartial {
    pub username: String,
    pub filename: String,
    pub filename_error_message: Option<String>,
    pub description: String,
    pub description_error_message: Option<String>,
    pub body: String,
    pub body_error_message: Option<String>,
    pub visibility: String,
}

impl Default for NewPastesFormPartial {
    fn default() -> (f: Self)
        ensures
            f.username@.len() == 0 && f.filename@.len() == 0 && f.description@.len() == 0
                && f.body@.len() == 0 && f.filename_error_message is None
                && f.description_error_message is None && f.body_error_message is None
                && f.visibility@ == "secret"@,
    {
        NewPastesFormPartial {
            username: String::new(),
            filename: String::new(),
            filename_error_message: None,
            description: String::new(),
            description_error_message: None,
            body: String::new(),
            body_error_message: None,
            visibility: owned("secret"),
        }
    }
}

impl NewPastesFormPartial {
    /// The empty form of `username`'s new paste; a new paste is secret unless chosen otherwise.
    pub fn from_username(username: &Username) -> (f: Self)
        ensures
            f.username@ == username@ && f.filename@.len() == 0 && f.description@.len() == 0
                && f.body@.len() == 0 && f.filename_error_message is None
                && f.description_error_message is None && f.body_error_message is None
                && f.visibility@ == "secret"@,
    {
        let mut f = Self::default();
        f.username = owned(username.as_str());
        f
    }

    /// The form filled with what was submitted, without messages.
    pub fn from_params(username: &Username, params: CreatePasteParams) -> (f: Self)
        ensures
            f.username@ == username@ && f.filename@ == params.filename@ && f.description@
                == params.description@ && f.body@ == params.body@ && f.visibility@
                == params.visibility@ && f.filename_error_message is None
                && f.description_error_message is None && f.body_error_message is None,
    {
        NewPastesFormPartial {
            username: owned(username.as_str()),
            filename: params.filename,
            filename_error_message: None,
            description: params.description,
            description_error_message: None,
            body: params.body,
            body_error_message: None,
            visibility: params.visibility,
        }
    }
}

/// The form that edits a paste.
#[derive(Clone, Debug, Default)]
pub struct EditPastesFormPartial {
    pub username: String,
    pub paste_id: u128,
    pub filename: String,
    pub filename_error_message: Option<String>,
    pub description: String,
    pub description_error_message: Option<String>,
    pub body: String,
    pub body_error_message: Option<String>,
}

impl EditPastesFormPartial {
    /// The form filled with the paste as it stands.
    pub fn from_paste(username: &Username, paste: &Paste) -> (f: Self)
        ensures
            f.username@ == username@ && f.paste_id == paste.id && f.filename@ == paste.filename@
                && f.description@ == paste.description@ && f.body@ == paste.body@
                && f.filename_error_message is None && f.description_error_message is None
                && f.body_error_message is None,
    {
        EditPastesFormPartial {
            username: owned(username.as_str()),
            paste_id: paste.id,
            filename: owned(paste.filename.as_str()),
            filename_error_message: None,
            description: owned(paste.description.as_str()),
            description_error_message: None,
            body: owned(paste.body.as_str()),
            body_error_message: None,
        }
    }

    /// The form filled with what was submitted, without messages.
    pub fn from_params(username: &Username, paste_id: u128, params: UpdatePasteParams) -> (f: Self)
        ensures
            f.username@ == username@ && f.paste_id == paste_id && f.filename@ == params.filename@
                && f.description@ == params.description@ && f.body@ == params.body@
                && f.filename_error_message is None && f.description_error_message is None
                && f.body_error_message is None,
    {
        EditPastesFormPartial {
            username: owned(username.as_str()),
            paste_id,
            filename: params.filename,
            filename_error_message: None,
            description: params.description,
            description_error_message: None,
            body: params.body,
            body_error_message: None,
        }
    }
}

/// The page that creates a paste.
pub struct NewPastesTemplate {
    pub session: Option<Session>,
    pub new_pastes_form: NewPastesFormPartial,
}

impl NewPastesTemplate {
    /// The page of the signed-in user, with the empty form of their new paste.
    pub fn from_session(session: Session) -> (t: Self)
        ensures
            t.session == Some(session),
            t.new_pastes_form.username@ == session.user.username@,
            t.new_pastes_form.filename@.len() == 0 && t.new_pastes_form.description@.len() == 0
                && t.new_pastes_form.body@.len() == 0,
            t.new_pastes_form.visibility@ == "secret"@,
            t.new_pastes_form.filename_error_message is None
                && t.new_pastes_form.description_error_message is None
                && t.new_pastes_form.body_error_message is None,
    {
        let form = NewPastesFormPartial::from_username(&session.user.username);
        NewPastesTemplate { session: Some(session), new_pastes_form: form }
    }
}

/// The page that edits a paste.
pub struct EditPastesTemplate {
    pub session: Option<Session>,
    pub filename: String,
    pub edit_pastes_form: EditPastesFormPartial,
}

impl EditPastesTemplate {
    /// The page of the signed-in user for one of their pastes, with the form filled with it.
    pub fn from_session_and_paste(session: Session, paste: &Paste) -> (t: Self)
        ensures
            t.session == Some(session),
            t.filename@ == paste.filename@,
            t.edit_pastes_form.username@ == session.user.username@,
            t.edit_pastes_form.paste_id == paste.id,
            t.edit_pastes_form.filename@ == paste.filename@,
            t.edit_pastes_form.description@ == paste.description@,
            t.edit_pastes_form.body@ == paste.body@,
            t.edit_pastes_form.filename_error_message is None
                && t.edit_pastes_form.description_error_message is None
                && t.edit_pastes_form.body_error_message is None,
    {
        let form = EditPastesFormPartial::from_paste(&session.user.username, paste);
        EditPastesTemplate {
            session: Some(session),
            filename: owned(paste.filename.as_str()),
            edit_pastes_form: form,
        }
    }
}

/// The form that creates a paste, with a message for the visibility as well.
#[derive(Clone, Debug)]
pub struct NewFormPartial {
    pub filename: String,
    pub filename_error_message: Option<String>,
    pub description: String,
    pub description_error_message: Option<String>,
    pub body: String,
    pub body_error_message: Option<String>,
    pub visibility: String,
    pub visibility_error_message: Option<String>,
}

impl Default for NewFormPartial {
    fn default() -> (f: Self)
        ensures
            f.filename@.len() == 0 && f.description@.len() == 0 && f.body@.len() == 0
                && f.filename_error_message is None && f.description_error_message is None
                && f.body_error_message is None && f.visibility_error_message is None
                && f.visibility@ == "secret"@,
    {
        NewFormPartial {
            filename: String::new(),
            filename_error_message: None,
            description: String::new(),
            description_error_message: None,
            body: String::new(),
            body_error_message: None,
            visibility: owned("secret"),
            visibility_error_message: None,
        }
    }
}

impl NewFormPartial {
    /// The form filled with what was submitted, without messages.
    pub fn from_params(params: CreatePasteParams) -> (f: Self)
        ensures
            f.filename@ == params.filename@ && f.description@ == params.description@ && f.body@
                == params.body@ && f.visibility@ == params.visibility@
                && f.filename_error_message is None && f.description_error_message is None
                && f.body_error_message is None && f.visibility_error_message is None,
    {
        NewFormPartial {
            filename: params.filename,
            filename_error_message: None,
            description: params.description,
            description_error_message: None,
            body: params.body,
            body_error_message: None,
            visibility: params.visibility,
            visibility_error_message: None,
        }
    }
}

} // verus!
