//! How a request that fails is answered.
use crate::models::crypto::password_hash_error_text;
use crate::models::paste::owned;
use crate::models::prelude::{Error as ModelsError, Result as ModelsResult};
use crate::models::session::Session;
use vstd::prelude::*;

verus! {

/// Whether `m` is the message `expected` (none for none).
pub open spec fn message_is(m: Option<String>, expected: Option<Seq<char>>) -> bool {
    match expected {
        Some(e) => (m matches Some(s) && s@ == e),
        None => m is None,
    }
}

/// The message of a refused parse, if it was refused.
pub(crate) fn parse_message<T>(r: &ModelsResult<T>) -> (m: Option<String>)
    ensures
        match r {
            Err(ModelsError::Parse(msg)) => (m matches Some(s) && s@ == msg@),
            _ => m is None,
        },
{
    match r {
        Err(ModelsError::Parse(msg)) => Some(msg.clone()),
        _ => None,
    }
}

/// Why a request fails. The failures that have a page carry the session of the request, if it
/// had one, so that the page shows who is signed in.
pub enum Error {
    /// The request is malformed; the text says how.
    BadRequest(String),
    /// The credentials are missing or wrong.
    Unauthorized,
    /// The user may not do this.
    Forbidden(Option<Session>),
    /// There is no such thing.
    NotFound(Option<Session>),
    /// Something went wrong on the server's side.
    InternalServerError(Option<Session>),
    /// A form comes back with its messages; the text is the form, rendered.
    Validation(String),
}

/// What the answer to a failed request shows.
pub enum ReplyBody {
    /// The given text, as it is.
    Text(String),
    /// The page that says the credentials are wrong.
    UnauthorizedPage,
    /// The page that says the user may not do this, for the session, if any.
    ForbiddenPage(Option<Session>),
    /// The page that says there is no such thing, for the session, if any.
    NotFoundPage(Option<Session>),
    /// The page that says the server failed, for the session, if any.
    InternalServerErrorPage(Option<Session>),
}

/// The answer to a failed request: its status code and what it shows.
pub struct Reply {
    pub status: u16,
    pub body: ReplyBody,
}

/// The answer of the JSON API to a failed request: the status code, its name, and a message.
#[derive(Debug)]
pub struct ApiReply {
    pub status: u16,
    pub error: String,
    pub message: String,
}

pub const UNAUTHORIZED_API_MESSAGE: &'static str = "Invalid authentication credentials.";
pub const FORBIDDEN_API_MESSAGE: &'static str = "Insufficient privileges";
pub const NOT_FOUND_API_MESSAGE: &'static str = "Resource not found.";
pub const INTERNAL_API_MESSAGE: &'static str = "Internal server error.";

/// The name of a status code of the JSON API's answers.
pub open spec fn status_name(status: u16) -> Seq<char> {
    if status == 400 {
        "Bad Request"@
    } else if status == 401 {
        "Unauthorized"@
    } else if status == 403 {
        "Forbidden"@
    } else if status == 404 {
        "Not Found"@
    } else {
        "Internal Server Error"@
    }
}

/// The status code that answers `e` in the JSON API, where no form comes back: a form's
/// refusal is a malformed request there.
pub open spec fn api_status_of(e: Error) -> u16 {
    match e {
        Error::Validation(_) => 400,
        _ => status_of(e),
    }
}

/// The status code that answers `e`.
pub open spec fn status_of(e: Error) -> u16 {
    match e {
        Error::BadRequest(_) => 400,
        Error::Unauthorized => 401,
        Error::Forbidden(_) => 403,
        Error::NotFound(_) => 404,
        Error::InternalServerError(_) => 500,
        Error::Validation(_) => 200,
    }
}

impl Error {
    /// The answer to the failure: a malformed request gets 400 and its text; the failures that
    /// have a page get their status and page; a form that comes back is shown with status 200,
    /// since the request itself was understood.
    pub fn into_reply(self) -> (r: Reply)
        ensures
            r.status == status_of(self),
            match self {
                Error::BadRequest(m) => (r.body matches ReplyBody::Text(t) && t@ == m@),
                Error::Unauthorized => r.body is UnauthorizedPage,
                Error::Forbidden(s) => (r.body matches ReplyBody::ForbiddenPage(t) && t == s),
                Error::NotFound(s) => (r.body matches ReplyBody::NotFoundPage(t) && t == s),
                Error::InternalServerError(s) => (r.body matches ReplyBody::InternalServerErrorPage(t)
                    && t == s),
                Error::Validation(html) => (r.body matches ReplyBody::Text(t) && t@ == html@),
            },
    {
        match self {
            Error::BadRequest(m) => Reply { status: 400, body: ReplyBody::Text(m) },
            Error::Unauthorized => Reply { status: 401, body: ReplyBody::UnauthorizedPage },
            Error::Forbidden(s) => Reply { status: 403, body: ReplyBody::ForbiddenPage(s) },
            Error::NotFound(s) => Reply { status: 404, body: ReplyBody::NotFoundPage(s) },
            Error::InternalServerError(s) => Reply {
                status: 500,
                body: ReplyBody::InternalServerErrorPage(s),
            },
            Error::Validation(html) => Reply { status: 200, body: ReplyBody::Text(html) },
        }
    }

    /// The JSON API's answer to the failure: the status code, its name, and the message: the
    /// text of a malformed request, and a fixed sentence for the others.
    pub fn into_api_reply(self) -> (r: ApiReply)
        ensures
            r.status == api_status_of(self),
            r.error@ == status_name(r.status),
            match self {
                Error::BadRequest(m) => r.message@ == m@,
                Error::Validation(m) => r.message@ == m@,
                Error::Unauthorized => r.message@ == UNAUTHORIZED_API_MESSAGE@,
                Error::Forbidden(_) => r.message@ == FORBIDDEN_API_MESSAGE@,
                Error::NotFound(_) => r.message@ == NOT_FOUND_API_MESSAGE@,
                Error::InternalServerError(_) => r.message@ == INTERNAL_API_MESSAGE@,
            },
    {
        match self {
            Error::BadRequest(m) => ApiReply { status: 400, error: owned("Bad Request"), message: m },
            Error::Validation(m) => ApiReply { status: 400, error: owned("Bad Request"), message: m },
            Error::Unauthorized => ApiReply {
                status: 401,
                error: owned("Unauthorized"),
                message: owned(UNAUTHORIZED_API_MESSAGE),
            },
            Error::Forbidden(_) => ApiReply {
                status: 403,
                error: owned("Forbidden"),
                message: owned(FORBIDDEN_API_MESSAGE),
            },
            Error::NotFound(_) => ApiReply {
                status: 404,
                error: owned("Not Found"),
                message: owned(NOT_FOUND_API_MESSAGE),
            },
            Error::InternalServerError(_) => ApiReply {
                status: 500,
                error: owned("Internal Server Error"),
                message: owned(INTERNAL_API_MESSAGE),
            },
        }
    }

    /// A failure of the models is the server's: the request ends in a server error, shown
    /// without a session.
    pub fn from_models(e: ModelsError) -> (r: Self)
        ensures
            r matches Error::InternalServerError(s) && s is None,
    {
        Error::InternalServerError(None)
    }

    /// A malformed request whose text is the error's: for a refused value, the message of the
    /// refusal.
    pub fn bad_request(e: ModelsError) -> (r: Self)
        ensures
            r is BadRequest,
            e matches ModelsError::Parse(m) ==> (r matches Error::BadRequest(t) && t@ == m@),
    {
        match e {
            ModelsError::Parse(m) => Error::BadRequest(m),
            ModelsError::Argon2(err) => Error::BadRequest(password_hash_error_text(&err)),
        }
    }
}

} // verus!
