//! The paste forms: what they submit, and how a submission is checked.
use crate::models::paste::{
    body_rejection, description_rejection, filename_rejection, Body, Description, Filename,
    Visibility, VISIBILITY_UNRECOGNIZED_MESSAGE,
};
use crate::controllers::prelude::{message_is, parse_message};
use crate::models::prelude::Error as ModelsError;
use crate::models::ids::{lemma_uuid_text_parses, parse_uuid, uuid_parsed, uuid_string, uuid_text};
use crate::models::paste::owned;
use crate::models::user::{username_rejection, Username};
use crate::text::lowercased;
use crate::views::pastes::{EditPastesFormPartial, NewPastesFormPartial};
use vstd::prelude::*;

verus! {

/// The fields of the form that creates a paste, as submitted.
#[derive(Clone, Debug)]
pub struct CreatePasteParams {
    pub filename: String,
    pub description: String,
    pub body: String,
    pub visibility: String,
}

/// The fields of the form that edits a paste, as submitted.
#[derive(Clone, Debug)]
pub struct UpdatePasteParams {
    pub filename: String,
    pub description: String,
    pub body: String,
}

/// Why a submitted paste is refused.
#[derive(Debug)]
pub enum CreateRejection {
    /// The visibility is not one the site knows: the request is malformed.
    BadRequest(ModelsError),
    /// Some fields break their rules: the form comes back with their messages.
    Validation(NewPastesFormPartial),
}

/// Checks a submitted paste: the file name, description and body each earn the message of the
/// first rule they break; an unknown visibility makes the request malformed, before anything
/// else is reported; with no message, the parsed values.
pub fn check_create(username: &Username, params: CreatePasteParams) -> (r: Result<
    (Filename, Description, Body, Visibility),
    CreateRejection,
>)
    ensures
        !(params.visibility@ == "public"@ || params.visibility@ == "secret"@) ==> (r matches Err(
            CreateRejection::BadRequest(ModelsError::Parse(m)),
        ) && m@ == VISIBILITY_UNRECOGNIZED_MESSAGE@),
        (params.visibility@ == "public"@ || params.visibility@ == "secret"@) ==> match r {
            Ok((f, d, b, v)) => filename_rejection(params.filename@) is None && description_rejection(
                params.description@,
            ) is None && body_rejection(params.body@) is None && f@ == params.filename@ && d@
                == params.description@ && b@ == params.body@ && (v == Visibility::Public
                <==> params.visibility@ == "public"@),
            Err(CreateRejection::Validation(form)) => !(filename_rejection(params.filename@) is None
                && description_rejection(params.description@) is None && body_rejection(
                params.body@,
            ) is None) && message_is(form.filename_error_message, filename_rejection(params.filename@))
                && message_is(
                form.description_error_message,
                description_rejection(params.description@),
            ) && message_is(form.body_error_message, body_rejection(params.body@))
                && form.username@ == username@ && form.filename@ == params.filename@
                && form.description@ == params.description@ && form.body@ == params.body@
                && form.visibility@ == params.visibility@,
            Err(CreateRejection::BadRequest(_)) => false,
        },
{
    proof {
        reveal_strlit("public");
        reveal_strlit("secret");
        assert("public"@[0] != "secret"@[0]);
    }
    let filename_result = Filename::parse(params.filename.as_str());
    let description_result = Description::parse(params.description.as_str());
    let body_result = Body::parse(params.body.as_str());
    let visibility = match Visibility::parse(params.visibility.as_str()) {
        Ok(v) => v,
        Err(e) => return Err(CreateRejection::BadRequest(e)),
    };
    let mut form = NewPastesFormPartial::from_params(username, params);
    form.filename_error_message = parse_message(&filename_result);
    form.description_error_message = parse_message(&description_result);
    form.body_error_message = parse_message(&body_result);
    match (filename_result, description_result, body_result) {
        (Ok(f), Ok(d), Ok(b)) => Ok((f, d, b, visibility)),
        _ => Err(CreateRejection::Validation(form)),
    }
}

/// Checks an edited paste: each field earns the message of the first rule it breaks; with no
/// message, the parsed values.
pub fn check_update(username: &Username, paste_id: u128, params: UpdatePasteParams) -> (r: Result<
    (Filename, Description, Body),
    EditPastesFormPartial,
>)
    ensures
        match r {
            Ok((f, d, b)) => filename_rejection(params.filename@) is None && description_rejection(
                params.description@,
            ) is None && body_rejection(params.body@) is None && f@ == params.filename@ && d@
                == params.description@ && b@ == params.body@,
            Err(form) => !(filename_rejection(params.filename@) is None && description_rejection(
                params.description@,
            ) is None && body_rejection(params.body@) is None) && message_is(
                form.filename_error_message,
                filename_rejection(params.filename@),
            ) && message_is(
                form.description_error_message,
                description_rejection(params.description@),
            ) && message_is(form.body_error_message, body_rejection(params.body@))
                && form.username@ == username@ && form.paste_id == paste_id && form.filename@
                == params.filename@ && form.description@ == params.description@ && form.body@
                == params.body@,
        },
{
    let filename_result = Filename::parse(params.filename.as_str());
    let description_result = Description::parse(params.description.as_str());
    let body_result = Body::parse(params.body.as_str());
    let mut form = EditPastesFormPartial::from_params(username, paste_id, params);
    form.filename_error_message = parse_message(&filename_result);
    form.description_error_message = parse_message(&description_result);
    form.body_error_message = parse_message(&body_result);
    match (filename_result, description_result, body_result) {
        (Ok(f), Ok(d), Ok(b)) => Ok((f, d, b)),
        _ => Err(form),
    }
}

/// The address of a paste's page: "/", the owner's name, "/", and the paste's id in its
/// hyphenated form.
pub fn paste_path(username: &Username, id: u128) -> (p: String)
    ensures
        p@ == "/"@ + username@ + "/"@ + uuid_text(id),
{
    let mut p = owned("/");
    p.append(username.as_str());
    p.append("/");
    let id_text = uuid_string(id);
    p.append(id_text.as_str());
    p
}

/// The paste that an address names: its owner's name and its id. `None`, which the pages
/// answer with "not found", when the id is not a UUID or the name is not a valid user name. An
/// id written as `paste_path` writes it reads back as that id.
pub fn parse_paste_address(username: &str, id: &str) -> (r: Option<(Username, u128)>)
    ensures
        r is None <==> (uuid_parsed(id@) is None || username_rejection(lowercased(username@))
            is Some),
        r matches Some((u, i)) ==> u@ == lowercased(username@) && uuid_parsed(id@) == Some(i),
        forall|i: u128|
            id@ == #[trigger] uuid_text(i) && username_rejection(lowercased(username@)) is None
                ==> (r matches Some((u, j)) && j == i && u@ == lowercased(username@)),
{
    proof {
        assert forall|i: u128| id@ == #[trigger] uuid_text(i) implies uuid_parsed(id@) == Some(i) by {
            lemma_uuid_text_parses(i);
        }
    }
    let i = match parse_uuid(id) {
        Some(i) => i,
        None => return None,
    };
    match Username::parse(username) {
        Ok(u) => Some((u, i)),
        Err(_) => None,
    }
}

/// Whether a page that shows the paste asks search engines not to index it: for secret
/// pastes.
pub fn noindex(visibility: Visibility) -> (b: bool)
    ensures
        b == (visibility == Visibility::Secret),
{
    visibility.is_secret()
}

/// The `Content-Disposition` value that makes a browser save the paste under its file name.
pub fn download_disposition(filename: &Filename) -> (d: String)
    ensures
        d@ == "attachment; filename=\""@ + filename@ + "\""@,
{
    let mut d = owned("attachment; filename=\"");
    d.append(filename.as_str());
    d.append("\"");
    d
}

/// What a request may do to a paste it names.
#[derive(Clone, Copy, Debug, PartialEq, Eq, Structural)]
pub enum Access {
    /// The paste belongs to the user.
    Granted,
    /// The paste belongs to someone else.
    Forbidden,
    /// There is no such paste.
    NotFound,
}

/// Whether the user `user_id` may change the paste found (by its owner's id), if any.
pub fn owner_access(owner: Option<u128>, user_id: u128) -> (a: Access)
    ensures
        a == (match owner {
            Some(o) => if o == user_id {
                Access::Granted
            } else {
                Access::Forbidden
            },
            None => Access::NotFound,
        }),
{
    match owner {
        Some(o) => if o == user_id {
            Access::Granted
        } else {
            Access::Forbidden
        },
        None => Access::NotFound,
    }
}

} // verus!
