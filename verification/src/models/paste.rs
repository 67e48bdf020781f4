//! Pastes and the values they are made of.
use crate::helpers::pagination::HasOrderedId;
use crate::models::clock::{new_id, now_millis};
use crate::models::prelude::{is_parse_error, Error, Result};
use crate::params::pastes::{
    any_invalid_filename_char, filename_param_errors, has_invalid_filename_char,
    lemma_invalid_chars_are_those_listed, listed_in_invalid_chars_message, message_if,
};
use crate::text::{chars_of, ends_with_char, str_eq, trim, trimmed};
use vstd::prelude::*;

verus! {

pub const FILENAME_BLANK_MESSAGE: &'static str = "Filename may not be blank";
pub const FILENAME_TOO_LONG_MESSAGE: &'static str = "Filename may not be longer than 256 characters";
pub const FILENAME_INVALID_CHARS_MESSAGE: &'static str = "Filename may not contain the following characters: < > : \" / \\ | ? *";
pub const FILENAME_TRAILING_DOT_MESSAGE: &'static str = "Filename may not end with a '.' character";
pub const DESCRIPTION_TOO_LONG_MESSAGE: &'static str = "Description may not be longer than 256 characters";
pub const BODY_BLANK_MESSAGE: &'static str = "Body may not be blank";
pub const VISIBILITY_UNRECOGNIZED_MESSAGE: &'static str = "Unrecognized value for visibility. Valid values are 'public' or 'secret'";

/// Why a file name is refused, if it is: the first rule it breaks.
pub open spec fn filename_rejection(s: Seq<char>) -> Option<Seq<char>> {
    if trimmed(s).len() == 0 {
        Some(FILENAME_BLANK_MESSAGE@)
    } else if s.len() > 256 {
        Some(FILENAME_TOO_LONG_MESSAGE@)
    } else if has_invalid_filename_char(s) {
        Some(FILENAME_INVALID_CHARS_MESSAGE@)
    } else if ends_with_char(s, '.') {
        Some(FILENAME_TRAILING_DOT_MESSAGE@)
    } else {
        None
    }
}

/// A file name that is not blank and not too long, but holds one of the characters that the
/// refusing message lists, is refused with that message, both when a paste is made and when a
/// submitted form is checked.
pub proof fn lemma_filename_with_listed_char_refused(s: Seq<char>, i: int)
    requires
        0 <= i < s.len(),
        listed_in_invalid_chars_message(s[i]),
        trimmed(s).len() > 0,
        s.len() <= 256,
    ensures
        filename_rejection(s) == Some(FILENAME_INVALID_CHARS_MESSAGE@),
        filename_param_errors(s).contains(FILENAME_INVALID_CHARS_MESSAGE@),
{
    lemma_invalid_chars_are_those_listed(s[i]);
    assert(has_invalid_filename_char(s));
    let m = crate::params::pastes::FILENAME_INVALID_CHARS_MESSAGE@;
    assert(m == FILENAME_INVALID_CHARS_MESSAGE@);
    let errs = filename_param_errors(s);
    assert(s.len() <= crate::params::pastes::MAX_FILENAME_LENGTH);
    assert(errs =~= seq![m] + message_if(ends_with_char(s, '.'), crate::params::pastes::FILENAME_TRAILING_DOT_MESSAGE@));
    assert(errs[0] == m);
}

/// Why a description is refused, if it is.
pub open spec fn description_rejection(s: Seq<char>) -> Option<Seq<char>> {
    if s.len() > 256 {
        Some(DESCRIPTION_TOO_LONG_MESSAGE@)
    } else {
        None
    }
}

/// Why a body is refused, if it is.
pub open spec fn body_rejection(s: Seq<char>) -> Option<Seq<char>> {
    if trimmed(s).len() == 0 {
        Some(BODY_BLANK_MESSAGE@)
    } else {
        None
    }
}

/// The position of the last `c` in `s`, or -1 when there is none.
pub open spec fn last_index_of(s: Seq<char>, c: char) -> int
    decreases s.len(),
{
    if s.len() == 0 {
        -1
    } else if s.last() == c {
        s.len() - 1
    } else {
        last_index_of(s.drop_last(), c)
    }
}

/// What follows the last '.' of a file name, if it holds one.
pub open spec fn extension_of(s: Seq<char>) -> Option<Seq<char>> {
    let i = last_index_of(s, '.');
    if i < 0 {
        None
    } else {
        Some(s.subrange(i + 1, s.len() as int))
    }
}

proof fn lemma_last_index_of(s: Seq<char>, c: char, j: int)
    requires
        -1 <= j < s.len(),
        j == -1 || s[j] == c,
        forall|k: int| j < k < s.len() ==> s[k] != c,
    ensures
        last_index_of(s, c) == j,
    decreases s.len(),
{
    if s.len() > 0 && j < s.len() - 1 {
        assert(s.last() != c);
        let t = s.drop_last();
        assert forall|k: int| j < k < t.len() implies t[k] != c by {
            assert(t[k] == s[k]);
        }
        lemma_last_index_of(t, c, j);
    }
}

/// The position of the last '.' in `v`, if there is one.
fn last_dot(v: &Vec<char>) -> (r: Option<usize>)
    ensures
        match r {
            Some(i) => i < v.len() && last_index_of(v@, '.') == i,
            None => last_index_of(v@, '.') == -1,
        },
{
    let mut j = v.len();
    while j > 0
        invariant
            j <= v.len(),
            forall|k: int| j <= k < v.len() ==> v@[k] != '.',
        decreases j,
    {
        if v[j - 1] == '.' {
            proof {
                lemma_last_index_of(v@, '.', j - 1);
            }
            return Some(j - 1);
        }
        j = j - 1;
    }
    proof {
        lemma_last_index_of(v@, '.', -1);
    }
    None
}

/// The string made of `s`'s characters.
pub fn owned(s: &str) -> (r: String)
    ensures
        r@ == s@,
{
    String::from_str(s)
}

/// The name of a paste's file.
#[derive(Debug, PartialEq, Eq)]
pub struct Filename(String);

impl Clone for Filename {
    fn clone(&self) -> (r: Self)
        ensures
            r == *self,
    {
        Filename(self.0.clone())
    }
}

impl View for Filename {
    type V = Seq<char>;

    closed spec fn view(&self) -> Seq<char> {
        self.0@
    }
}

impl Filename {
    /// The file name `s` with surrounding whitespace removed; nothing is refused.
    pub fn new(s: &str) -> (r: Result<Self>)
        ensures
            r matches Ok(f) && f@ == trimmed(s@),
    {
        Ok(Filename(trim(s)))
    }

    /// What follows the last '.' of the name, if it holds one.
    pub fn extension(&self) -> (r: Option<&str>)
        ensures
            match r {
                Some(e) => extension_of(self@) == Some(e@),
                None => extension_of(self@) is None,
            },
    {
        let v = chars_of(self.0.as_str());
        match last_dot(&v) {
            Some(i) => Some(self.0.as_str().substring_char(i + 1, v.len())),
            None => None,
        }
    }

    /// The file name `s`, unless it is blank, longer than 256 characters, holds a character that
    /// file names may not hold, or ends with a '.'.
    pub fn parse(s: &str) -> (r: Result<Self>)
        ensures
            match filename_rejection(s@) {
                Some(msg) => is_parse_error(r, msg),
                None => r matches Ok(f) && f@ == s@,
            },
    {
        let v = chars_of(s);
        let t = trim(s);
        if t.as_str().is_empty() {
            Err(Error::Parse(owned(FILENAME_BLANK_MESSAGE)))
        } else if v.len() > 256 {
            Err(Error::Parse(owned(FILENAME_TOO_LONG_MESSAGE)))
        } else if any_invalid_filename_char(&v) {
            Err(Error::Parse(owned(FILENAME_INVALID_CHARS_MESSAGE)))
        } else if v[v.len() - 1] == '.' {
            Err(Error::Parse(owned(FILENAME_TRAILING_DOT_MESSAGE)))
        } else {
            Ok(Filename(owned(s)))
        }
    }

    /// The name.
    pub fn as_str(&self) -> (s: &str)
        ensures
            s@ == self@,
    {
        self.0.as_str()
    }
}

/// The description of a paste.
#[derive(Debug, PartialEq, Eq)]
pub struct Description(String);

impl Clone for Description {
    fn clone(&self) -> (r: Self)
        ensures
            r == *self,
    {
        Description(self.0.clone())
    }
}

impl View for Description {
    type V = Seq<char>;

    closed spec fn view(&self) -> Seq<char> {
        self.0@
    }
}

impl Description {
    /// The description `s` with surrounding whitespace removed; nothing is refused.
    pub fn new(s: &str) -> (r: Result<Self>)
        ensures
            r matches Ok(d) && d@ == trimmed(s@),
    {
        Ok(Description(trim(s)))
    }

    /// The length of the description in bytes (UTF-8).
    pub fn len(&self) -> (n: usize)
        ensures
            n == vstd::utf8::encode_utf8(self@).len() as usize,
    {
        self.0.as_str().len()
    }

    /// Whether the description is empty.
    pub fn is_empty(&self) -> (b: bool)
        ensures
            b == (self@.len() == 0),
    {
        self.0.as_str().is_empty()
    }

    /// The description `s`, unless it is longer than 256 characters.
    pub fn parse(s: &str) -> (r: Result<Self>)
        ensures
            match description_rejection(s@) {
                Some(msg) => is_parse_error(r, msg),
                None => r matches Ok(d) && d@ == s@,
            },
    {
        let v = chars_of(s);
        if v.len() > 256 {
            Err(Error::Parse(owned(DESCRIPTION_TOO_LONG_MESSAGE)))
        } else {
            Ok(Description(owned(s)))
        }
    }

    /// The description.
    pub fn as_str(&self) -> (s: &str)
        ensures
            s@ == self@,
    {
        self.0.as_str()
    }
}

/// The text of a paste.
#[derive(Debug, PartialEq, Eq)]
pub struct Body(String);

impl Clone for Body {
    fn clone(&self) -> (r: Self)
        ensures
            r == *self,
    {
        Body(self.0.clone())
    }
}

impl View for Body {
    type V = Seq<char>;

    closed spec fn view(&self) -> Seq<char> {
        self.0@
    }
}

impl Body {
    /// The body `s` with surrounding whitespace removed; nothing is refused.
    pub fn new(s: &str) -> (r: Result<Self>)
        ensures
            r matches Ok(b) && b@ == trimmed(s@),
    {
        Ok(Body(trim(s)))
    }

    /// The body `s`, unless it is blank.
    pub fn parse(s: &str) -> (r: Result<Self>)
        ensures
            match body_rejection(s@) {
                Some(msg) => is_parse_error(r, msg),
                None => r matches Ok(b) && b@ == s@,
            },
    {
        let t = trim(s);
        if t.as_str().is_empty() {
            Err(Error::Parse(owned(BODY_BLANK_MESSAGE)))
        } else {
            Ok(Body(owned(s)))
        }
    }

    /// The text.
    pub fn as_str(&self) -> (s: &str)
        ensures
            s@ == self@,
    {
        self.0.as_str()
    }
}

/// Who may see a paste: everyone, through the listings, or only those who have its address.
#[derive(Clone, Copy, Debug, PartialEq, Eq, Structural)]
pub enum Visibility {
    Public,
    Secret,
}

impl Visibility {
    /// The visibility named `s`: "public" or "secret".
    pub fn parse(s: &str) -> (r: Result<Self>)
        ensures
            s@ == "public"@ ==> r == Ok::<Visibility, Error>(Visibility::Public),
            s@ == "secret"@ ==> r == Ok::<Visibility, Error>(Visibility::Secret),
            s@ != "public"@ && s@ != "secret"@ ==> is_parse_error(r, VISIBILITY_UNRECOGNIZED_MESSAGE@),
    {
        proof {
            reveal_strlit("public");
            reveal_strlit("secret");
            assert("public"@[0] != "secret"@[0]);
        }
        if str_eq(s, "public") {
            Ok(Visibility::Public)
        } else if str_eq(s, "secret") {
            Ok(Visibility::Secret)
        } else {
            Err(Error::Parse(owned(VISIBILITY_UNRECOGNIZED_MESSAGE)))
        }
    }

    /// The name of the visibility, as forms and the database spell it.
    pub fn as_str(&self) -> (s: &'static str)
        ensures
            s@ == (match self {
                Visibility::Public => "public"@,
                Visibility::Secret => "secret"@,
            }),
    {
        match self {
            Visibility::Public => "public",
            Visibility::Secret => "secret",
        }
    }

    /// Whether the paste is listed.
    pub fn is_public(&self) -> (b: bool)
        ensures
            b == (*self == Visibility::Public),
    {
        match self {
            Visibility::Public => true,
            Visibility::Secret => false,
        }
    }

    /// Whether the paste is unlisted.
    pub fn is_secret(&self) -> (b: bool)
        ensures
            b == (*self == Visibility::Secret),
    {
        match self {
            Visibility::Public => false,
            Visibility::Secret => true,
        }
    }
}

/// A paste: a file of text that a user shared.
#[derive(Clone, Debug)]
pub struct Paste {
    pub id: u128,
    pub user_id: u128,
    pub filename: Filename,
    pub description: Description,
    pub body: Body,
    pub visibility: Visibility,
    /// Milliseconds since the Unix epoch.
    pub created_at: i64,
    /// Milliseconds since the Unix epoch.
    pub updated_at: i64,
}

impl Paste {
    /// A new paste of `user_id` with a fresh id, created and updated now.
    pub fn new(
        user_id: u128,
        filename: Filename,
        description: Description,
        body: Body,
        visibility: Visibility,
    ) -> (r: Result<Self>)
        ensures
            r matches Ok(p) && p.user_id == user_id && p.filename == filename && p.description
                == description && p.body == body && p.visibility == visibility && p.created_at
                == p.updated_at,
    {
        let now = now_millis();
        Ok(Paste {
            id: new_id(),
            user_id,
            filename,
            description,
            body,
            visibility,
            created_at: now,
            updated_at: now,
        })
    }

    /// Replaces the fields that are given and marks the paste as updated at `now_ms` (the
    /// clock's reading, in milliseconds since the Unix epoch). The result says whether the body
    /// or the file name's extension changed, that is, whether the cached highlighting is stale.
    pub fn update(
        &mut self,
        filename: Option<Filename>,
        description: Option<Description>,
        body: Option<Body>,
        now_ms: i64,
    ) -> (stale: bool)
        ensures
            final(self).id == old(self).id,
            final(self).user_id == old(self).user_id,
            final(self).visibility == old(self).visibility,
            final(self).created_at == old(self).created_at,
            final(self).updated_at == now_ms,
            final(self).filename == (match filename {
                Some(f) => f,
                None => old(self).filename,
            }),
            final(self).description == (match description {
                Some(d) => d,
                None => old(self).description,
            }),
            final(self).body == (match body {
                Some(b) => b,
                None => old(self).body,
            }),
            stale == (old(self).body@ != final(self).body@ || extension_of(old(self).filename@)
                != extension_of(final(self).filename@)),
    {
        let original_filename = self.filename.clone();
        let original_body = self.body.clone();
        if let Some(f) = filename {
            self.filename = f;
        }
        if let Some(d) = description {
            self.description = d;
        }
        if let Some(b) = body {
            self.body = b;
        }
        self.updated_at = now_ms;
        let body_changed = !str_eq(original_body.as_str(), self.body.as_str());
        let extension_changed = match (original_filename.extension(), self.filename.extension()) {
            (Some(a), Some(b)) => !str_eq(a, b),
            (None, None) => false,
            _ => true,
        };
        body_changed || extension_changed
    }
}

impl HasOrderedId for Paste {
    open spec fn ordered_id_spec(&self) -> u128 {
        self.id
    }

    fn ordered_id(&self) -> (r: u128) {
        self.id
    }
}

} // verus!
