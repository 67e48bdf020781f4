//! The fields of the paste forms, and the rules each must meet.
use crate::params::prelude::{add_errors, merged, reports, single_field, Error, Report, ReportView, Result};
use crate::text::{chars_of, ends_with_char, has_char};
use vstd::prelude::*;

verus! {

pub const MAX_FILENAME_LENGTH: usize = 256;
pub const MAX_DESCRIPTION_LENGTH: usize = 256;

pub const FILENAME_REPORT_KEY: &'static str = "filename";
pub const DESCRIPTION_REPORT_KEY: &'static str = "description";
pub const BODY_REPORT_KEY: &'static str = "body";

pub const FILENAME_REQUIRED_MESSAGE: &'static str = "Filename is a required field";
pub const FILENAME_TOO_LONG_MESSAGE: &'static str = "Filename may not be longer than 256 characters";
pub const FILENAME_INVALID_CHARS_MESSAGE: &'static str = "Filename may not contain the following characters: < > : \" / \\ | ? *";
pub const FILENAME_TRAILING_DOT_MESSAGE: &'static str = "Filename may not end with a '.' character";
pub const DESCRIPTION_TOO_LONG_MESSAGE: &'static str = "Description may not be longer than 256 characters";
pub const BODY_REQUIRED_MESSAGE: &'static str = "Body is a required field";

/// `seq![msg]` when `b` holds, and nothing otherwise.
pub open spec fn message_if(b: bool, msg: Seq<char>) -> Seq<Seq<char>> {
    if b {
        seq![msg]
    } else {
        Seq::empty()
    }
}

/// The characters that a file name may not hold.
pub open spec fn is_invalid_filename_char(c: char) -> bool {
    c == '<' || c == '>' || c == ':' || c == '"' || c == '/' || c == '\\' || c == '|' || c == '?'
        || c == '*'
}

/// The opening words of the message for a file name holding a character it may not hold; the
/// characters follow them, each after a space.
pub open spec fn invalid_chars_message_prefix() -> Seq<char> {
    "Filename may not contain the following characters: "@
}

/// Whether the message for a file name holding a character it may not hold lists `c`.
pub open spec fn listed_in_invalid_chars_message(c: char) -> bool {
    c != ' ' && FILENAME_INVALID_CHARS_MESSAGE@.skip(invalid_chars_message_prefix().len() as int).contains(c)
}

/// The characters that a file name may not hold are exactly those that the message refusing
/// such a name lists after its opening words.
pub proof fn lemma_invalid_chars_are_those_listed(c: char)
    ensures
        FILENAME_INVALID_CHARS_MESSAGE@.take(invalid_chars_message_prefix().len() as int)
            == invalid_chars_message_prefix(),
        is_invalid_filename_char(c) <==> listed_in_invalid_chars_message(c),
{
    reveal_strlit("Filename may not contain the following characters: ");
    reveal_strlit("Filename may not contain the following characters: < > : \" / \\ | ? *");
    let m = FILENAME_INVALID_CHARS_MESSAGE@;
    let p = invalid_chars_message_prefix();
    assert(m.take(p.len() as int) =~= p);
    let tail = m.skip(p.len() as int);
    assert(tail =~= seq!['<', ' ', '>', ' ', ':', ' ', '"', ' ', '/', ' ', '\\', ' ', '|', ' ', '?', ' ', '*']);
    if is_invalid_filename_char(c) {
        let k: int = if c == '<' {
            0
        } else if c == '>' {
            2
        } else if c == ':' {
            4
        } else if c == '"' {
            6
        } else if c == '/' {
            8
        } else if c == '\\' {
            10
        } else if c == '|' {
            12
        } else if c == '?' {
            14
        } else {
            16
        };
        assert(tail[k] == c);
    }
}

/// Whether `s` holds a character that a file name may not hold.
pub open spec fn has_invalid_filename_char(s: Seq<char>) -> bool {
    exists|i: int| 0 <= i < s.len() && #[trigger] is_invalid_filename_char(s[i])
}

/// Whether `c` is a character that a file name may not hold.
pub fn invalid_filename_char(c: char) -> (b: bool)
    ensures
        b == is_invalid_filename_char(c),
{
    c == '<' || c == '>' || c == ':' || c == '"' || c == '/' || c == '\\' || c == '|' || c == '?'
        || c == '*'
}

/// Whether `v` holds a character that a file name may not hold.
pub fn any_invalid_filename_char(v: &Vec<char>) -> (b: bool)
    ensures
        b == has_invalid_filename_char(v@),
{
    let mut i: usize = 0;
    while i < v.len()
        invariant
            i <= v.len(),
            forall|k: int| 0 <= k < i ==> !is_invalid_filename_char(#[trigger] v@[k]),
        decreases v.len() - i,
    {
        if invalid_filename_char(v[i]) {
            return true;
        }
        i = i + 1;
    }
    false
}

/// The messages that a submitted file name earns, in the order they are reported.
pub open spec fn filename_param_errors(s: Seq<char>) -> Seq<Seq<char>> {
    message_if(s.len() == 0, FILENAME_REQUIRED_MESSAGE@) + message_if(
        s.len() > MAX_FILENAME_LENGTH,
        FILENAME_TOO_LONG_MESSAGE@,
    ) + message_if(has_invalid_filename_char(s), FILENAME_INVALID_CHARS_MESSAGE@) + message_if(
        ends_with_char(s, '.'),
        FILENAME_TRAILING_DOT_MESSAGE@,
    )
}

/// The messages that a submitted description earns.
pub open spec fn description_param_errors(s: Seq<char>) -> Seq<Seq<char>> {
    message_if(s.len() > MAX_DESCRIPTION_LENGTH, DESCRIPTION_TOO_LONG_MESSAGE@)
}

/// The messages that a submitted body earns.
pub open spec fn body_param_errors(s: Seq<char>) -> Seq<Seq<char>> {
    message_if(s.len() == 0, BODY_REQUIRED_MESSAGE@)
}

/// Adding a message to a report that holds only `field` keeps it a report of that field.
pub proof fn lemma_single_field_add(field: Seq<char>, errors: Seq<Seq<char>>, msg: Seq<char>)
    ensures
        add_errors(single_field(field, errors), field, seq![msg]) == single_field(
            field,
            errors + seq![msg],
        ),
{
    let lhs = add_errors(single_field(field, errors), field, seq![msg]);
    let rhs = single_field(field, errors + seq![msg]);
    assert(lhs =~= rhs);
}

/// Adds `msg` under `field` when `cond` holds, keeping `report` a report of `field` alone.
pub(crate) fn add_if(
    report: &mut Report,
    field: &str,
    cond: bool,
    msg: &str,
    Ghost(acc): Ghost<Seq<Seq<char>>>,
)
    requires
        old(report).wf(),
        old(report)@ == single_field(field@, acc),
    ensures
        final(report).wf(),
        final(report)@ == single_field(field@, acc + message_if(cond, msg@)),
{
    if cond {
        proof {
            lemma_single_field_add(field@, acc, msg@);
        }
        report.add(field, msg);
    } else {
        assert(acc + message_if(cond, msg@) =~= acc);
    }
}

/// A report that holds, under `field`, each message whose condition holds.
pub fn report_of(field: &str, c0: bool, m0: &str, c1: bool, m1: &str, c2: bool, m2: &str, c3: bool, m3: &str) -> (r: Report)
    ensures
        r.wf(),
        r@ == single_field(
            field@,
            message_if(c0, m0@) + message_if(c1, m1@) + message_if(c2, m2@) + message_if(c3, m3@),
        ),
{
    let mut report = Report::new();
    assert(report@ =~= single_field(field@, Seq::empty()));
    add_if(&mut report, field, c0, m0, Ghost(Seq::empty()));
    assert(Seq::<Seq<char>>::empty() + message_if(c0, m0@) =~= message_if(c0, m0@));
    add_if(&mut report, field, c1, m1, Ghost(message_if(c0, m0@)));
    add_if(&mut report, field, c2, m2, Ghost(message_if(c0, m0@) + message_if(c1, m1@)));
    add_if(&mut report, field, c3, m3, Ghost(message_if(c0, m0@) + message_if(c1, m1@) + message_if(c2, m2@)));
    report
}

/// A file name as submitted in a form.
pub struct FilenameParam(String);

impl FilenameParam {
    /// The submitted text.
    pub closed spec fn text(&self) -> Seq<char> {
        self.0@
    }

    /// Reports what is wrong with the file name: blank, too long, holding a character that file
    /// names may not hold, or ending in a dot.
    pub fn validate(&self) -> (r: Result<()>)
        ensures
            reports(r, single_field(FILENAME_REPORT_KEY@, filename_param_errors(self.text()))),
    {
        let v = chars_of(self.0.as_str());
        let report = report_of(
            FILENAME_REPORT_KEY,
            v.len() == 0,
            FILENAME_REQUIRED_MESSAGE,
            v.len() > MAX_FILENAME_LENGTH,
            FILENAME_TOO_LONG_MESSAGE,
            any_invalid_filename_char(&v),
            FILENAME_INVALID_CHARS_MESSAGE,
            v.len() > 0 && v[v.len() - 1] == '.',
            FILENAME_TRAILING_DOT_MESSAGE,
        );
        report.to_result()
    }
}

impl From<String> for FilenameParam {
    fn from(s: String) -> (r: Self)
        ensures
            r.text() == s@,
    {
        FilenameParam(s)
    }
}

impl vstd::std_specs::convert::FromSpecImpl<String> for FilenameParam {
    open spec fn obeys_from_spec() -> bool {
        true
    }

    closed spec fn from_spec(s: String) -> Self {
        FilenameParam(s)
    }
}

/// A description as submitted in a form.
pub struct DescriptionParam(String);

impl DescriptionParam {
    /// The submitted text.
    pub closed spec fn text(&self) -> Seq<char> {
        self.0@
    }

    /// Reports a description that is too long.
    pub fn validate(&self) -> (r: Result<()>)
        ensures
            reports(
                r,
                single_field(DESCRIPTION_REPORT_KEY@, description_param_errors(self.text())),
            ),
    {
        let v = chars_of(self.0.as_str());
        let report = report_of(
            DESCRIPTION_REPORT_KEY,
            v.len() > MAX_DESCRIPTION_LENGTH,
            DESCRIPTION_TOO_LONG_MESSAGE,
            false,
            "",
            false,
            "",
            false,
            "",
        );
        assert(message_if(v.len() > MAX_DESCRIPTION_LENGTH, DESCRIPTION_TOO_LONG_MESSAGE@)
            + message_if(false, ""@) + message_if(false, ""@) + message_if(false, ""@)
            =~= description_param_errors(self.text()));
        report.to_result()
    }
}

impl From<String> for DescriptionParam {
    fn from(s: String) -> (r: Self)
        ensures
            r.text() == s@,
    {
        DescriptionParam(s)
    }
}

impl vstd::std_specs::convert::FromSpecImpl<String> for DescriptionParam {
    open spec fn obeys_from_spec() -> bool {
        true
    }

    closed spec fn from_spec(s: String) -> Self {
        DescriptionParam(s)
    }
}

/// A paste body as submitted in a form.
pub struct BodyParam(String);

impl BodyParam {
    /// The submitted text.
    pub closed spec fn text(&self) -> Seq<char> {
        self.0@
    }

    /// Reports an empty body.
    pub fn validate(&self) -> (r: Result<()>)
        ensures
            reports(r, single_field(BODY_REPORT_KEY@, body_param_errors(self.text()))),
    {
        let report = report_of(
            BODY_REPORT_KEY,
            self.0.as_str().is_empty(),
            BODY_REQUIRED_MESSAGE,
            false,
            "",
            false,
            "",
            false,
            "",
        );
        assert(message_if(self.text().len() == 0, BODY_REQUIRED_MESSAGE@) + message_if(false, ""@)
            + message_if(false, ""@) + message_if(false, ""@) =~= body_param_errors(self.text()));
        report.to_result()
    }
}

impl From<String> for BodyParam {
    fn from(s: String) -> (r: Self)
        ensures
            r.text() == s@,
    {
        BodyParam(s)
    }
}

impl vstd::std_specs::convert::FromSpecImpl<String> for BodyParam {
    open spec fn obeys_from_spec() -> bool {
        true
    }

    closed spec fn from_spec(s: String) -> Self {
        BodyParam(s)
    }
}

/// The visibility chosen in a form.
#[derive(Clone, Copy, Debug, PartialEq, Eq, Structural)]
pub enum VisibilityParam {
    Public,
    Secret,
}

impl VisibilityParam {
    /// The name of the visibility, as the forms and the database spell it.
    pub fn to_value(self) -> (s: String)
        ensures
            s@ == (match self {
                VisibilityParam::Public => "public"@,
                VisibilityParam::Secret => "secret"@,
            }),
    {
        match self {
            VisibilityParam::Public => String::from_str("public"),
            VisibilityParam::Secret => String::from_str("secret"),
        }
    }
}

/// The report for a whole paste form: the messages of its file name, description and body.
pub open spec fn paste_params_report(
    filename: Seq<char>,
    description: Seq<char>,
    body: Seq<char>,
) -> ReportView {
    merged(
        merged(
            merged(Map::empty(), single_field(FILENAME_REPORT_KEY@, filename_param_errors(filename))),
            single_field(DESCRIPTION_REPORT_KEY@, description_param_errors(description)),
        ),
        single_field(BODY_REPORT_KEY@, body_param_errors(body)),
    )
}

/// Merges the outcome of one field's validation into `report`.
pub(crate) fn merge_field(report: &mut Report, result: Result<()>, Ghost(m): Ghost<ReportView>)
    requires
        old(report).wf(),
        reports(result, m),
    ensures
        final(report).wf(),
        final(report)@ == merged(old(report)@, m),
{
    if let Err(Error::Report(_)) = &result {
    } else {
        assert(merged(report@, m) =~= report@);
    }
    let r = report.merge_result(result);
}

/// The fields of the form that creates a paste.
pub struct CreatePasteParams {
    pub filename: FilenameParam,
    pub description: DescriptionParam,
    pub body: BodyParam,
    pub visibility: VisibilityParam,
}

impl CreatePasteParams {
    /// Reports every field that breaks its rule; `Ok` when none does.
    pub fn validate(&self) -> (r: Result<()>)
        ensures
            reports(
                r,
                paste_params_report(
                    self.filename.text(),
                    self.description.text(),
                    self.body.text(),
                ),
            ),
    {
        let mut report = Report::new();
        merge_field(&mut report, self.filename.validate(), Ghost(single_field(FILENAME_REPORT_KEY@, filename_param_errors(self.filename.text()))));
        merge_field(&mut report, self.description.validate(), Ghost(single_field(DESCRIPTION_REPORT_KEY@, description_param_errors(self.description.text()))));
        merge_field(&mut report, self.body.validate(), Ghost(single_field(BODY_REPORT_KEY@, body_param_errors(self.body.text()))));
        report.to_result()
    }
}

/// The fields of the form that edits a paste.
pub struct UpdatePasteParams {
    pub filename: FilenameParam,
    pub description: DescriptionParam,
    pub body: BodyParam,
}

impl UpdatePasteParams {
    /// Reports every field that breaks its rule; `Ok` when none does.
    pub fn validate(&self) -> (r: Result<()>)
        ensures
            reports(
                r,
                paste_params_report(
                    self.filename.text(),
                    self.description.text(),
                    self.body.text(),
                ),
            ),
    {
        let mut report = Report::new();
        merge_field(&mut report, self.filename.validate(), Ghost(single_field(FILENAME_REPORT_KEY@, filename_param_errors(self.filename.text()))));
        merge_field(&mut report, self.description.validate(), Ghost(single_field(DESCRIPTION_REPORT_KEY@, description_param_errors(self.description.text()))));
        merge_field(&mut report, self.body.validate(), Ghost(single_field(BODY_REPORT_KEY@, body_param_errors(self.body.text()))));
        report.to_result()
    }
}

} // verus!
