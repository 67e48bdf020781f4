use gluestick::params::pastes::{
    BodyParam, CreatePasteParams, DescriptionParam, FilenameParam, UpdatePasteParams,
    VisibilityParam,
};
use gluestick::params::prelude::{Error, Report};
use gluestick::params::sessions::CreateSessionParams;
use gluestick::params::users::{
    CreateUserParams, EmailAddressParam, PasswordParam, UsernameParam,
};
use gluestick::models::invite_code::InviteCode;

fn report_of(r: Result<(), Error>) -> Report {
    match r {
        Err(Error::Report(rep)) => rep,
        other => panic!("expected a report, got {other:?}"),
    }
}

fn messages(rep: &Report, field: &str) -> Vec<String> {
    rep.get(field).cloned().unwrap_or_default()
}

#[test]
fn report_add_get_and_merge() {
    let mut a = Report::new();
    assert!(a.is_empty());
    assert!(a.get("x").is_none());
    a.add("x", "first");
    a.add("x", "second");
    a.add("y", "other");
    assert_eq!(messages(&a, "x"), vec!["first", "second"]);
    assert_eq!(a.get_first("x").unwrap(), "first");
    let mut b = Report::new();
    b.add("x", "third");
    b.add("z", "last");
    a.merge(b);
    assert_eq!(messages(&a, "x"), vec!["first", "second", "third"]);
    assert_eq!(messages(&a, "y"), vec!["other"]);
    assert_eq!(messages(&a, "z"), vec!["last"]);
}

#[test]
fn report_to_result_and_merge_result() {
    assert!(Report::new().to_result().is_ok());
    let mut r = Report::new();
    r.add("f", "bad");
    let res = r.to_result();
    let mut target = Report::new();
    assert!(target.merge_result(res).is_ok());
    assert_eq!(messages(&target, "f"), vec!["bad"]);
    assert!(target.merge_result(Ok(())).is_ok());
    assert!(matches!(target.merge_result(Err(Error::Other("db".to_string()))), Err(Error::Other(m)) if m == "db"));
    assert_eq!(messages(&target, "f"), vec!["bad"]);
}

#[test]
fn filename_param_reports_every_broken_rule() {
    assert!(FilenameParam::from("a.txt".to_string()).validate().is_ok());
    let rep = report_of(FilenameParam::from(String::new()).validate());
    assert_eq!(messages(&rep, "filename"), vec!["Filename is a required field"]);
    let rep = report_of(FilenameParam::from(format!("{}?.", "a".repeat(256))).validate());
    assert_eq!(
        messages(&rep, "filename"),
        vec![
            "Filename may not be longer than 256 characters",
            "Filename may not contain the following characters: < > : \" / \\ | ? *",
            "Filename may not end with a '.' character",
        ]
    );
}

#[test]
fn paste_params_report_all_fields() {
    let params = CreatePasteParams {
        filename: FilenameParam::from("ok.rs".to_string()),
        description: DescriptionParam::from("d".repeat(300)),
        body: BodyParam::from(String::new()),
        visibility: VisibilityParam::Secret,
    };
    let rep = report_of(params.validate());
    assert!(rep.get("filename").is_none());
    assert_eq!(
        messages(&rep, "description"),
        vec!["Description may not be longer than 256 characters"]
    );
    assert_eq!(messages(&rep, "body"), vec!["Body is a required field"]);
    assert_eq!(VisibilityParam::Secret.to_value(), "secret");
    let params = UpdatePasteParams {
        filename: FilenameParam::from("ok.rs".to_string()),
        description: DescriptionParam::from(String::new()),
        body: BodyParam::from("x".to_string()),
    };
    assert!(params.validate().is_ok());
}

#[test]
fn api_update_params_skip_absent_fields() {
    let params = gluestick::params::api::pastes::UpdatePasteParams {
        filename: None,
        description: None,
        body: Some(BodyParam::from(String::new())),
    };
    let rep = report_of(params.validate());
    assert!(rep.get("filename").is_none());
    assert_eq!(messages(&rep, "body"), vec!["Body is a required field"]);
}

#[test]
fn username_param_rules() {
    assert!(UsernameParam::from("alice".to_string()).validate().is_ok());
    let rep = report_of(UsernameParam::from("api".to_string()).validate());
    assert_eq!(messages(&rep, "username"), vec!["Username is unavailable"]);
    let rep = report_of(UsernameParam::from("-a-".to_string()).validate());
    assert_eq!(
        messages(&rep, "username"),
        vec!["Username must only contain alphanumeric characters or single hyphens, and may not begin or end with a hyphen"]
    );
    let rep = report_of(UsernameParam::from("alice".to_string()).check_if_taken(true));
    assert_eq!(messages(&rep, "username"), vec!["Username is already taken"]);
    assert!(UsernameParam::from("alice".to_string()).check_if_taken(false).is_ok());
}

#[test]
fn email_and_password_param_rules() {
    let rep = report_of(EmailAddressParam::from("nobody".to_string()).validate());
    assert_eq!(messages(&rep, "email"), vec!["Email is missing the '@' symbol"]);
    let rep = report_of(EmailAddressParam::from("a@b".to_string()).check_if_taken(true));
    assert_eq!(messages(&rep, "email"), vec!["Email is already taken"]);
    let rep = report_of(PasswordParam::from("short".to_string()).validate());
    assert_eq!(
        messages(&rep, "password"),
        vec!["Password is too short (minimum is 8 characters)"]
    );
    assert!(PasswordParam::from("long enough".to_string()).validate().is_ok());
}

#[test]
fn signup_params_and_invite_code() {
    let params = CreateUserParams {
        username: UsernameParam::from("alice".to_string()),
        email: EmailAddressParam::from("alice@example.com".to_string()),
        password: PasswordParam::from("long enough".to_string()),
        invite_code: "code".to_string(),
    };
    assert!(params.validate_and_check_if_taken(false, false).is_ok());
    let rep = report_of(params.validate_and_check_if_taken(true, true));
    assert_eq!(messages(&rep, "username"), vec!["Username is already taken"]);
    assert_eq!(messages(&rep, "email"), vec!["Email is already taken"]);
    assert_eq!(params.verify_invite_code(Some(InviteCode("code".to_string()))).unwrap().0, "code");
    let rep = report_of(params.verify_invite_code(None).map(|_| ()));
    assert_eq!(messages(&rep, "invite_code"), vec!["Invalid invite code"]);
}

#[test]
fn sign_in_params_without_user_fail() {
    let params = CreateSessionParams {
        email: "alice@example.com".to_string(),
        password: "long enough".to_string(),
    };
    assert!(params.is_plausible());
    let rep = report_of(params.authenticate(None).map(|_| ()));
    assert_eq!(messages(&rep, "self"), vec!["Incorrect email or password"]);
    let params = CreateSessionParams { email: "nobody".to_string(), password: "x".to_string() };
    assert!(!params.is_plausible());
}

#[test]
fn report_is_empty_until_a_message_is_added() {
    let mut a = Report::new();
    let b = Report::new();
    a.merge(b);
    assert!(a.is_empty());
    assert!(a.merge_result(Ok(())).is_ok());
    assert!(a.is_empty());
    let mut c = Report::new();
    c.add("f", "first");
    a.merge(c);
    assert!(!a.is_empty());
    a.add("f", "second");
    let mut d = Report::new();
    d.add("f", "third");
    a.merge(d);
    assert_eq!(a.get_first("f").unwrap(), "first");
    assert!(a.get_first("g").is_none());
}
