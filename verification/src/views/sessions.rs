//! The sign-in form as it is shown again.
use crate::controllers::sessions::CreateSessionParams;
use crate::models::session::Session;
use vstd::prelude::*;

verus! {

/// The sign-in page.
pub struct NewSessionsTemplate {
    pub session: Option<Session>,
    pub email: String,
    pub password: String,
    pub error_message: Option<String>,
}

impl Default for NewSessionsTemplate {
    fn default() -> (t: Self)
        ensures
            t.session is None && t.email@.len() == 0 && t.password@.len() == 0
                && t.error_message is None,
    {
        NewSessionsTemplate {
            session: None,
            email: String::new(),
            password: String::new(),
            error_message: None,
        }
    }
}

impl NewSessionsTemplate {
    /// The page filled with what was submitted, without a message.
    pub fn from_params(params: CreateSessionParams) -> (t: Self)
        ensures
            t.session is None && t.email@ == params.email@ && t.password@ == params.password@
                && t.error_message is None,
    {
        NewSessionsTemplate {
            session: None,
            email: params.email,
            password: params.password,
            error_message: None,
        }
    }
}

} // verus!
