//! The paste endpoints of the JSON API: what they receive, and how it is checked.
use crate::models::paste::{
    body_rejection, description_rejection, filename_rejection, Body, Description, Filename,
    Visibility, VISIBILITY_UNRECOGNIZED_MESSAGE,
};
use crate::models::prelude::{is_parse_error, Error as ModelsError};
use vstd::prelude::*;

verus! {

/// The body of a request that creates a paste.
#[derive(Clone, Debug)]
pub struct CreatePasteParams {
    pub filename: String,
    pub description: String,
    pub body: String,
    pub visibility: String,
}

/// The body of a request that edits a paste: each field present is replaced.
#[derive(Clone, Debug)]
pub struct UpdatePasteParams {
    pub filename: Option<String>,
    pub description: Option<String>,
    pub body: Option<String>,
}

/// Why a visibility is refused, if it is.
pub open spec fn visibility_rejection(s: Seq<char>) -> Option<Seq<char>> {
    if s == "public"@ || s == "secret"@ {
        None
    } else {
        Some(VISIBILITY_UNRECOGNIZED_MESSAGE@)
    }
}

/// The first of the rejections, in order, if any.
pub open spec fn first_rejection(
    a: Option<Seq<char>>,
    b: Option<Seq<char>>,
    c: Option<Seq<char>>,
    d: Option<Seq<char>>,
) -> Option<Seq<char>> {
    if a is Some {
        a
    } else if b is Some {
        b
    } else if c is Some {
        c
    } else {
        d
    }
}

/// Why an optional field is refused: never when it is absent.
pub open spec fn optional_rejection(
    s: Option<String>,
    rejection: spec_fn(Seq<char>) -> Option<Seq<char>>,
) -> Option<Seq<char>> {
    match s {
        Some(v) => rejection(v@),
        None => None,
    }
}

/// Checks the body of a create request: the file name, the description, the body and the
/// visibility are checked in that order, and the first refusal is the answer (a bad request
/// whose text is its message). Otherwise, the parsed values.
pub fn check_create(params: &CreatePasteParams) -> (r: Result<
    (Filename, Description, Body, Visibility),
    ModelsError,
>)
    ensures
        match first_rejection(
            filename_rejection(params.filename@),
            description_rejection(params.description@),
            body_rejection(params.body@),
            visibility_rejection(params.visibility@),
        ) {
            Some(msg) => is_parse_error(r, msg),
            None => (r matches Ok((f, d, b, v)) && f@ == params.filename@ && d@
                == params.description@ && b@ == params.body@ && (v == Visibility::Public
                <==> params.visibility@ == "public"@)),
        },
{
    proof {
        reveal_strlit("public");
        reveal_strlit("secret");
        assert("public"@[0] != "secret"@[0]);
    }
    let filename = Filename::parse(params.filename.as_str())?;
    let description = Description::parse(params.description.as_str())?;
    let body = Body::parse(params.body.as_str())?;
    let visibility = Visibility::parse(params.visibility.as_str())?;
    Ok((filename, description, body, visibility))
}

/// Checks the body of an edit request: each field present is checked, the file name, then the
/// description, then the body, and the first refusal is the answer. Otherwise, the parsed
/// values of the fields present.
pub fn check_update(params: &UpdatePasteParams) -> (r: Result<
    (Option<Filename>, Option<Description>, Option<Body>),
    ModelsError,
>)
    ensures
        match first_rejection(
            optional_rejection(params.filename, |s: Seq<char>| filename_rejection(s)),
            optional_rejection(params.description, |s: Seq<char>| description_rejection(s)),
            optional_rejection(params.body, |s: Seq<char>| body_rejection(s)),
            None,
        ) {
            Some(msg) => is_parse_error(r, msg),
            None => (r matches Ok((f, d, b)) && (match params.filename {
                Some(s) => (f matches Some(x) && x@ == s@),
                None => f is None,
            }) && (match params.description {
                Some(s) => (d matches Some(x) && x@ == s@),
                None => d is None,
            }) && (match params.body {
                Some(s) => (b matches Some(x) && x@ == s@),
                None => b is None,
            })),
        },
{
    let filename = match &params.filename {
        Some(s) => Some(Filename::parse(s.as_str())?),
        None => None,
    };
    let description = match &params.description {
        Some(s) => Some(Description::parse(s.as_str())?),
        None => None,
    };
    let body = match &params.body {
        Some(s) => Some(Body::parse(s.as_str())?),
        None => None,
    };
    Ok((filename, description, body))
}

} // verus!
