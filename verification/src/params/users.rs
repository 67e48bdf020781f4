//! The fields of the sign-up form, and the rules each must meet.
use crate::models::invite_code::InviteCode;
use crate::params::pastes::{add_if, message_if};
use crate::params::prelude::{merged, reports, single_field, Error, Report, ReportView, Result};
use crate::text::{
    char_is_alphanumeric, chars_of, ends_with_char, has_char, has_double_char,
    alphanumeric, is_whitespace_char, lemma_trim_end_cut, lemma_trim_start_skip, starts_with_char,
    str_eq, trimmed, vec_has_char, vec_has_double_char,
};
use vstd::prelude::*;

verus! {

pub const MAX_USERNAME_LENGTH: usize = 32;
pub const MIN_PASSWORD_LENGTH: usize = 8;
pub const MAX_PASSWORD_LENGTH: usize = 256;

pub const USERNAME_REPORT_KEY: &'static str = "username";
pub const EMAIL_REPORT_KEY: &'static str = "email";
pub const PASSWORD_REPORT_KEY: &'static str = "password";
pub const INVITE_CODE_REPORT_KEY: &'static str = "invite_code";

pub const USERNAME_REQUIRED_MESSAGE: &'static str = "Username is a required field";
pub const USERNAME_TOO_LONG_MESSAGE: &'static str = "Username is too long (maximum is 32 characters)";
pub const INVALID_USERNAME_CHARS_MESSAGE: &'static str = "Username must only contain alphanumeric characters or single hyphens, and may not begin or end with a hyphen";
pub const USERNAME_UNAVAILABLE_MESSAGE: &'static str = "Username is unavailable";
pub const USERNAME_TAKEN_MESSAGE: &'static str = "Username is already taken";
pub const EMAIL_REQUIRED_MESSAGE: &'static str = "Email is a required field";
pub const EMAIL_MISSING_AT_MESSAGE: &'static str = "Email is missing the '@' symbol";
pub const EMAIL_MISSING_USER_MESSAGE: &'static str = "Email is missing the username part before the '@' symbol";
pub const EMAIL_MISSING_DOMAIN_MESSAGE: &'static str = "Email is missing the domain part after the '@' symbol";
pub const EMAIL_TAKEN_MESSAGE: &'static str = "Email is already taken";
pub const PASSWORD_REQUIRED_MESSAGE: &'static str = "Password is a required field";
pub const PASSWORD_TOO_SHORT_MESSAGE: &'static str = "Password is too short (minimum is 8 characters)";
pub const PASSWORD_TOO_LONG_MESSAGE: &'static str = "Password is too long (maximum is 256 characters)";
pub const INVALID_INVITE_CODE_MESSAGE: &'static str = "Invalid invite code";

/// The names that paths of the site use, which no user may take.
pub open spec fn is_reserved_username(s: Seq<char>) -> bool {
    s == "api"@ || s == "api_sessions"@ || s == "assets"@ || s == "health"@ || s == "login"@
        || s == "logout"@ || s == "new"@ || s == "pastes"@ || s == "settings"@ || s == "signup"@
}

/// Whether `s` is one of the reserved names.
pub fn reserved_username(s: &str) -> (b: bool)
    ensures
        b == is_reserved_username(s@),
{
    str_eq(s, "api") || str_eq(s, "api_sessions") || str_eq(s, "assets") || str_eq(s, "health")
        || str_eq(s, "login") || str_eq(s, "logout") || str_eq(s, "new") || str_eq(s, "pastes")
        || str_eq(s, "settings") || str_eq(s, "signup")
}

/// Whether every character of `s` is alphanumeric or a hyphen.
pub open spec fn all_username_chars(s: Seq<char>) -> bool {
    forall|i: int| 0 <= i < s.len() ==> #[trigger] alphanumeric(s[i]) || s[i] == '-'
}

/// Whether every character of `v` is alphanumeric or a hyphen.
pub fn vec_all_username_chars(v: &Vec<char>) -> (b: bool)
    ensures
        b == all_username_chars(v@),
{
    let mut i: usize = 0;
    while i < v.len()
        invariant
            i <= v.len(),
            forall|k: int| 0 <= k < i ==> #[trigger] alphanumeric(v@[k]) || v@[k] == '-',
        decreases v.len() - i,
    {
        let a = char_is_alphanumeric(v[i]);
        assert(a == alphanumeric(v@[i as int]));
        if !(a || v[i] == '-') {
            assert(!(alphanumeric(v@[i as int]) || v@[i as int] == '-'));
            return false;
        }
        i = i + 1;
    }
    true
}

/// The messages that a submitted user name earns, in the order they are reported.
pub open spec fn username_param_errors(s: Seq<char>) -> Seq<Seq<char>> {
    message_if(s.len() == 0, USERNAME_REQUIRED_MESSAGE@) + message_if(
        s.len() > MAX_USERNAME_LENGTH,
        USERNAME_TOO_LONG_MESSAGE@,
    ) + message_if(!all_username_chars(s), INVALID_USERNAME_CHARS_MESSAGE@) + message_if(
        starts_with_char(s, '-') || ends_with_char(s, '-'),
        INVALID_USERNAME_CHARS_MESSAGE@,
    ) + message_if(has_double_char(s, '-'), INVALID_USERNAME_CHARS_MESSAGE@) + message_if(
        is_reserved_username(s),
        USERNAME_UNAVAILABLE_MESSAGE@,
    )
}

/// The names of the site's top-level paths.
pub open spec fn route_names() -> Seq<Seq<char>> {
    seq![
        "api"@,
        "api_sessions"@,
        "assets"@,
        "health"@,
        "login"@,
        "logout"@,
        "new"@,
        "pastes"@,
        "settings"@,
        "signup"@,
    ]
}

/// Whether `s` is a non-empty word of lower-case ASCII letters and underscores.
pub open spec fn lower_word(s: Seq<char>) -> bool {
    s.len() > 0 && forall|k: int| 0 <= k < s.len() ==> ('a' <= #[trigger] s[k] && s[k] <= 'z') || s[k] == '_'
}

/// A word of lower-case ASCII letters and underscores is not blank, holds no hyphen, and
/// meets the rule on characters exactly when it holds no underscore.
pub proof fn lemma_lower_word_username(s: Seq<char>)
    requires
        lower_word(s),
    ensures
        trimmed(s) == s,
        !starts_with_char(s, '-'),
        !ends_with_char(s, '-'),
        !has_double_char(s, '-'),
        all_username_chars(s) <==> !has_char(s, '_'),
{
    assert(!is_whitespace_char(s[0]));
    assert(!is_whitespace_char(s.last()));
    lemma_trim_start_skip(s, 0);
    assert(s.subrange(0, s.len() as int) =~= s);
    lemma_trim_end_cut(s, s.len() as int);
    if all_username_chars(s) {
        assert forall|k: int| 0 <= k < s.len() implies s[k] != '_' by {
            assert(alphanumeric(s[k]) || s[k] == '-');
        }
    } else {
        let k = choose|k: int| 0 <= k < s.len() && !(alphanumeric(s[k]) || s[k] == '-');
        assert(s[k] == '_');
    }
}

/// The names of the site's top-level paths are short lower-case words, and only "api_sessions"
/// holds an underscore.
pub proof fn lemma_route_names_are_words(i: int)
    requires
        0 <= i < route_names().len(),
    ensures
        lower_word(route_names()[i]),
        route_names()[i].len() <= MAX_USERNAME_LENGTH,
        has_char(route_names()[i], '_') <==> route_names()[i] == "api_sessions"@,
{
    reveal_strlit("api");
    reveal_strlit("api_sessions");
    reveal_strlit("assets");
    reveal_strlit("health");
    reveal_strlit("login");
    reveal_strlit("logout");
    reveal_strlit("new");
    reveal_strlit("pastes");
    reveal_strlit("settings");
    reveal_strlit("signup");
    let s = route_names()[i];
    if s == "api_sessions"@ {
        assert(s[3] == '_');
    }
}

/// Each name of the site's top-level paths is refused as a submitted user name with the
/// message that it is unavailable; "api_sessions", whose underscore breaks the rule on
/// characters, earns that message first.
pub proof fn lemma_route_names_unavailable(i: int)
    requires
        0 <= i < route_names().len(),
    ensures
        route_names()[i] != "api_sessions"@ ==> username_param_errors(route_names()[i]) == seq![
            USERNAME_UNAVAILABLE_MESSAGE@,
        ],
        route_names()[i] == "api_sessions"@ ==> username_param_errors(route_names()[i]) == seq![
            INVALID_USERNAME_CHARS_MESSAGE@,
            USERNAME_UNAVAILABLE_MESSAGE@,
        ],
{
    let s = route_names()[i];
    lemma_route_names_are_words(i);
    lemma_lower_word_username(s);
    assert(is_reserved_username(s));
    if s == "api_sessions"@ {
        assert(username_param_errors(s) =~= seq![
            INVALID_USERNAME_CHARS_MESSAGE@,
            USERNAME_UNAVAILABLE_MESSAGE@,
        ]);
    } else {
        assert(username_param_errors(s) =~= seq![USERNAME_UNAVAILABLE_MESSAGE@]);
    }
}

/// The messages that a submitted email address earns, in the order they are reported.
pub open spec fn email_param_errors(s: Seq<char>) -> Seq<Seq<char>> {
    message_if(s.len() == 0, EMAIL_REQUIRED_MESSAGE@) + message_if(
        !has_char(s, '@'),
        EMAIL_MISSING_AT_MESSAGE@,
    ) + message_if(starts_with_char(s, '@'), EMAIL_MISSING_USER_MESSAGE@) + message_if(
        ends_with_char(s, '@'),
        EMAIL_MISSING_DOMAIN_MESSAGE@,
    )
}

/// The messages that a submitted password earns, in the order they are reported.
pub open spec fn password_param_errors(s: Seq<char>) -> Seq<Seq<char>> {
    message_if(s.len() == 0, PASSWORD_REQUIRED_MESSAGE@) + message_if(
        s.len() < MIN_PASSWORD_LENGTH,
        PASSWORD_TOO_SHORT_MESSAGE@,
    ) + message_if(s.len() > MAX_PASSWORD_LENGTH, PASSWORD_TOO_LONG_MESSAGE@)
}

/// A report of one message under `field`.
pub fn single_message_report(field: &str, msg: &str) -> (r: Report)
    ensures
        r.wf(),
        r@ == single_field(field@, seq![msg@]),
{
    let mut report = Report::new();
    assert(report@ =~= single_field(field@, Seq::empty()));
    add_if(&mut report, field, true, msg, Ghost(Seq::empty()));
    assert(Seq::<Seq<char>>::empty() + message_if(true, msg@) =~= seq![msg@]);
    report
}

/// The outcome of looking a name or address up among the users: taken ones are reported
/// under `field` with `msg`.
pub open spec fn taken_report(taken: bool, field: Seq<char>, msg: Seq<char>) -> ReportView {
    single_field(field, message_if(taken, msg))
}

/// A user name as submitted in a form.
#[derive(Clone, Debug, PartialEq, Eq)]
pub struct UsernameParam(String);

impl UsernameParam {
    /// The submitted text.
    pub closed spec fn text(&self) -> Seq<char> {
        self.0@
    }

    /// Reports what is wrong with the user name: blank, too long, holding characters other
    /// than alphanumerics and single inner hyphens, or reserved.
    pub fn validate(&self) -> (r: Result<()>)
        ensures
            reports(r, single_field(USERNAME_REPORT_KEY@, username_param_errors(self.text()))),
    {
        let v = chars_of(self.0.as_str());
        let n = v.len();
        let mut report = Report::new();
        assert(report@ =~= single_field(USERNAME_REPORT_KEY@, Seq::empty()));
        let ghost s = self.text();
        add_if(&mut report, USERNAME_REPORT_KEY, n == 0, USERNAME_REQUIRED_MESSAGE, Ghost(Seq::empty()));
        let ghost a0 = Seq::<Seq<char>>::empty() + message_if(s.len() == 0, USERNAME_REQUIRED_MESSAGE@);
        add_if(&mut report, USERNAME_REPORT_KEY, n > MAX_USERNAME_LENGTH, USERNAME_TOO_LONG_MESSAGE, Ghost(a0));
        let ghost a1 = a0 + message_if(s.len() > MAX_USERNAME_LENGTH, USERNAME_TOO_LONG_MESSAGE@);
        add_if(&mut report, USERNAME_REPORT_KEY, !vec_all_username_chars(&v), INVALID_USERNAME_CHARS_MESSAGE, Ghost(a1));
        let ghost a2 = a1 + message_if(!all_username_chars(s), INVALID_USERNAME_CHARS_MESSAGE@);
        let edge = (n > 0 && v[0] == '-') || (n > 0 && v[n - 1] == '-');
        add_if(&mut report, USERNAME_REPORT_KEY, edge, INVALID_USERNAME_CHARS_MESSAGE, Ghost(a2));
        let ghost a3 = a2 + message_if(starts_with_char(s, '-') || ends_with_char(s, '-'), INVALID_USERNAME_CHARS_MESSAGE@);
        add_if(&mut report, USERNAME_REPORT_KEY, vec_has_double_char(&v, '-'), INVALID_USERNAME_CHARS_MESSAGE, Ghost(a3));
        let ghost a4 = a3 + message_if(has_double_char(s, '-'), INVALID_USERNAME_CHARS_MESSAGE@);
        add_if(&mut report, USERNAME_REPORT_KEY, reserved_username(self.0.as_str()), USERNAME_UNAVAILABLE_MESSAGE, Ghost(a4));
        assert(a4 + message_if(is_reserved_username(s), USERNAME_UNAVAILABLE_MESSAGE@) =~= username_param_errors(s));
        report.to_result()
    }

    /// Reports the user name as taken when the lookup among the users found it.
    pub fn check_if_taken(&self, taken: bool) -> (r: Result<()>)
        ensures
            reports(r, taken_report(taken, USERNAME_REPORT_KEY@, USERNAME_TAKEN_MESSAGE@)),
    {
        if taken {
            single_message_report(USERNAME_REPORT_KEY, USERNAME_TAKEN_MESSAGE).to_result()
        } else {
            Ok(())
        }
    }

    /// The submitted text.
    pub fn as_str(&self) -> (s: &str)
        ensures
            s@ == self.text(),
    {
        self.0.as_str()
    }
}

impl From<String> for UsernameParam {
    fn from(s: String) -> (r: Self)
        ensures
            r.text() == s@,
    {
        UsernameParam(s)
    }
}

impl vstd::std_specs::convert::FromSpecImpl<String> for UsernameParam {
    open spec fn obeys_from_spec() -> bool {
        true
    }

    closed spec fn from_spec(s: String) -> Self {
        UsernameParam(s)
    }
}

/// An email address as submitted in a form.
#[derive(Clone, Debug)]
pub struct EmailAddressParam(String);

impl EmailAddressParam {
    /// The submitted text.
    pub closed spec fn text(&self) -> Seq<char> {
        self.0@
    }

    /// Reports what is wrong with the address: blank, without an '@', or with nothing before or
    /// after it.
    pub fn validate(&self) -> (r: Result<()>)
        ensures
            reports(r, single_field(EMAIL_REPORT_KEY@, email_param_errors(self.text()))),
    {
        let v = chars_of(self.0.as_str());
        let n = v.len();
        let report = crate::params::pastes::report_of(
            EMAIL_REPORT_KEY,
            n == 0,
            EMAIL_REQUIRED_MESSAGE,
            !vec_has_char(&v, '@'),
            EMAIL_MISSING_AT_MESSAGE,
            n > 0 && v[0] == '@',
            EMAIL_MISSING_USER_MESSAGE,
            n > 0 && v[n - 1] == '@',
            EMAIL_MISSING_DOMAIN_MESSAGE,
        );
        report.to_result()
    }

    /// Reports the address as taken when the lookup among the users found it.
    pub fn check_if_taken(&self, taken: bool) -> (r: Result<()>)
        ensures
            reports(r, taken_report(taken, EMAIL_REPORT_KEY@, EMAIL_TAKEN_MESSAGE@)),
    {
        if taken {
            single_message_report(EMAIL_REPORT_KEY, EMAIL_TAKEN_MESSAGE).to_result()
        } else {
            Ok(())
        }
    }

    /// The submitted text.
    pub fn as_str(&self) -> (s: &str)
        ensures
            s@ == self.text(),
    {
        self.0.as_str()
    }
}

impl From<String> for EmailAddressParam {
    fn from(s: String) -> (r: Self)
        ensures
            r.text() == s@,
    {
        EmailAddressParam(s)
    }
}

impl vstd::std_specs::convert::FromSpecImpl<String> for EmailAddressParam {
    open spec fn obeys_from_spec() -> bool {
        true
    }

    closed spec fn from_spec(s: String) -> Self {
        EmailAddressParam(s)
    }
}

/// A password as submitted in a form.
#[derive(Clone)]
pub struct PasswordParam(String);

impl PasswordParam {
    /// The submitted text.
    pub closed spec fn text(&self) -> Seq<char> {
        self.0@
    }

    /// Reports a password that is blank, shorter than 8 or longer than 256 characters.
    pub fn validate(&self) -> (r: Result<()>)
        ensures
            reports(r, single_field(PASSWORD_REPORT_KEY@, password_param_errors(self.text()))),
    {
        let v = chars_of(self.0.as_str());
        let n = v.len();
        let report = crate::params::pastes::report_of(
            PASSWORD_REPORT_KEY,
            n == 0,
            PASSWORD_REQUIRED_MESSAGE,
            n < MIN_PASSWORD_LENGTH,
            PASSWORD_TOO_SHORT_MESSAGE,
            n > MAX_PASSWORD_LENGTH,
            PASSWORD_TOO_LONG_MESSAGE,
            false,
            "",
        );
        assert(message_if(self.text().len() == 0, PASSWORD_REQUIRED_MESSAGE@) + message_if(
            self.text().len() < MIN_PASSWORD_LENGTH,
            PASSWORD_TOO_SHORT_MESSAGE@,
        ) + message_if(self.text().len() > MAX_PASSWORD_LENGTH, PASSWORD_TOO_LONG_MESSAGE@)
            + message_if(false, ""@) =~= password_param_errors(self.text()));
        report.to_result()
    }

    /// The submitted text.
    pub fn expose_secret(&self) -> (s: &String)
        ensures
            s@ == self.text(),
    {
        &self.0
    }
}

impl From<String> for PasswordParam {
    fn from(s: String) -> (r: Self)
        ensures
            r.text() == s@,
    {
        PasswordParam(s)
    }
}

impl vstd::std_specs::convert::FromSpecImpl<String> for PasswordParam {
    open spec fn obeys_from_spec() -> bool {
        true
    }

    closed spec fn from_spec(s: String) -> Self {
        PasswordParam(s)
    }
}

/// The report of one identifying field at sign-up: its own rule breaks, or, when it has none,
/// whether it is taken.
pub open spec fn identity_report(
    errors: Seq<Seq<char>>,
    taken: bool,
    field: Seq<char>,
    taken_msg: Seq<char>,
) -> ReportView {
    if errors.len() == 0 {
        taken_report(taken, field, taken_msg)
    } else {
        single_field(field, errors)
    }
}

/// The fields of the sign-up form.
pub struct CreateUserParams {
    pub username: UsernameParam,
    pub email: EmailAddressParam,
    pub password: PasswordParam,
    pub invite_code: String,
}

impl CreateUserParams {
    /// The whole report of the sign-up form: the address's, then the user name's, then the
    /// password's. `username_taken` and `email_taken` are what the lookups among the users found;
    /// each counts only when its field meets its rules.
    pub open spec fn signup_report(&self, username_taken: bool, email_taken: bool) -> ReportView {
        merged(
            merged(
                merged(
                    Map::empty(),
                    identity_report(
                        email_param_errors(self.email.text()),
                        email_taken,
                        EMAIL_REPORT_KEY@,
                        EMAIL_TAKEN_MESSAGE@,
                    ),
                ),
                identity_report(
                    username_param_errors(self.username.text()),
                    username_taken,
                    USERNAME_REPORT_KEY@,
                    USERNAME_TAKEN_MESSAGE@,
                ),
            ),
            single_field(PASSWORD_REPORT_KEY@, password_param_errors(self.password.text())),
        )
    }

    /// Validates the whole form, given whether the user name and the address are taken.
    pub fn validate_and_check_if_taken(&self, username_taken: bool, email_taken: bool) -> (r:
        Result<()>)
        ensures
            reports(r, self.signup_report(username_taken, email_taken)),
    {
        let mut report = Report::new();

        let mut username_report = Report::new();
        crate::params::pastes::merge_field(&mut username_report, self.username.validate(), Ghost(single_field(USERNAME_REPORT_KEY@, username_param_errors(self.username.text()))));
        assert(merged(Map::empty(), single_field(USERNAME_REPORT_KEY@, username_param_errors(self.username.text()))) =~= single_field(USERNAME_REPORT_KEY@, username_param_errors(self.username.text())));
        if username_report.is_empty() {
            crate::params::pastes::merge_field(&mut username_report, self.username.check_if_taken(username_taken), Ghost(taken_report(username_taken, USERNAME_REPORT_KEY@, USERNAME_TAKEN_MESSAGE@)));
            assert(merged(Map::empty(), taken_report(username_taken, USERNAME_REPORT_KEY@, USERNAME_TAKEN_MESSAGE@)) =~= taken_report(username_taken, USERNAME_REPORT_KEY@, USERNAME_TAKEN_MESSAGE@));
        }

        let mut email_report = Report::new();
        crate::params::pastes::merge_field(&mut email_report, self.email.validate(), Ghost(single_field(EMAIL_REPORT_KEY@, email_param_errors(self.email.text()))));
        assert(merged(Map::empty(), single_field(EMAIL_REPORT_KEY@, email_param_errors(self.email.text()))) =~= single_field(EMAIL_REPORT_KEY@, email_param_errors(self.email.text())));
        if email_report.is_empty() {
            crate::params::pastes::merge_field(&mut email_report, self.email.check_if_taken(email_taken), Ghost(taken_report(email_taken, EMAIL_REPORT_KEY@, EMAIL_TAKEN_MESSAGE@)));
            assert(merged(Map::empty(), taken_report(email_taken, EMAIL_REPORT_KEY@, EMAIL_TAKEN_MESSAGE@)) =~= taken_report(email_taken, EMAIL_REPORT_KEY@, EMAIL_TAKEN_MESSAGE@));
        }

        report.merge(email_report);
        report.merge(username_report);
        crate::params::pastes::merge_field(&mut report, self.password.validate(), Ghost(single_field(PASSWORD_REPORT_KEY@, password_param_errors(self.password.text()))));
        report.to_result()
    }

    /// The invite code when the lookup found it, and otherwise a report that it is invalid.
    pub fn verify_invite_code(&self, found: Option<InviteCode>) -> (r: Result<InviteCode>)
        ensures
            match found {
                Some(code) => r == Ok::<InviteCode, Error>(code),
                None => match r {
                    Err(Error::Report(rep)) => rep.wf() && rep@ == single_field(
                        INVITE_CODE_REPORT_KEY@,
                        seq![INVALID_INVITE_CODE_MESSAGE@],
                    ),
                    _ => false,
                },
            },
    {
        match found {
            Some(code) => Ok(code),
            None => Err(Error::Report(single_message_report(INVITE_CODE_REPORT_KEY, INVALID_INVITE_CODE_MESSAGE))),
        }
    }
}

} // verus!
