use gluestick::controllers::api::pastes::{
    check_create as api_check_create, check_update as api_check_update,
    CreatePasteParams as ApiCreatePasteParams, UpdatePasteParams as ApiUpdatePasteParams,
};
use gluestick::controllers::pastes::{
    check_create, check_update, download_disposition, noindex, owner_access, parse_paste_address,
    paste_path, Access, CreatePasteParams, CreateRejection, UpdatePasteParams,
};
use gluestick::controllers::prelude::{Error, ReplyBody};
use gluestick::controllers::sessions::{check_sign_in, session_cookie, CreateSessionParams};
use gluestick::controllers::users::{
    check_change_password, check_email_field, check_invite_code, check_password_field,
    check_signup, check_username_field, lists_secrets, signup_session_cookie,
    ChangePasswordParams, ChangeRejection, CreateUserParams,
};
use gluestick::helpers::syntax_highlight::{cache_action_after_update, generate, may_cache, CacheAction};
use gluestick::validators::not_empty_when_trimmed;
use gluestick::helpers::pagination::{cursor_condition, visibility_condition, Direction};
use gluestick::models::invite_code::InviteCode;
use gluestick::models::paste::{Filename, Visibility};
use gluestick::models::prelude::Error as ModelsError;
use gluestick::models::session::UnhashedToken;
use gluestick::models::user::{EmailAddress, UnhashedPassword, User, Username};

fn paste_form(filename: &str, description: &str, body: &str, visibility: &str) -> CreatePasteParams {
    CreatePasteParams {
        filename: filename.to_string(),
        description: description.to_string(),
        body: body.to_string(),
        visibility: visibility.to_string(),
    }
}

fn alice() -> Username {
    Username::parse("alice").unwrap()
}

fn signup_form(username: &str, email: &str, password: &str) -> CreateUserParams {
    CreateUserParams {
        username: username.to_string(),
        email: email.to_string(),
        password: password.to_string(),
        invite_code: "invite".to_string(),
    }
}

fn change_rejection(r: Result<UnhashedPassword, ChangeRejection>) -> ChangeRejection {
    match r {
        Err(e) => e,
        Ok(_) => panic!("expected a refusal"),
    }
}

fn user_with_password(password: &str) -> User {
    User::new(
        alice(),
        EmailAddress::parse("alice@example.com").unwrap(),
        UnhashedPassword::parse(password.to_string()).unwrap(),
    )
    .unwrap()
}

#[test]
fn create_form_accepts_valid_paste() {
    let (f, d, b, v) =
        check_create(&alice(), paste_form("a.rs", "about", "fn main() {}", "public")).unwrap();
    assert_eq!(f.as_str(), "a.rs");
    assert_eq!(d.as_str(), "about");
    assert_eq!(b.as_str(), "fn main() {}");
    assert_eq!(v, Visibility::Public);
}

#[test]
fn create_form_comes_back_with_every_message() {
    match check_create(&alice(), paste_form("", "ok", " ", "secret")) {
        Err(CreateRejection::Validation(form)) => {
            assert_eq!(form.username, "alice");
            assert_eq!(form.filename_error_message.as_deref(), Some("Filename may not be blank"));
            assert_eq!(form.description_error_message, None);
            assert_eq!(form.body_error_message.as_deref(), Some("Body may not be blank"));
            assert_eq!(form.body, " ");
            assert_eq!(form.visibility, "secret");
        }
        other => panic!("unexpected {other:?}"),
    }
}

#[test]
fn create_form_with_unknown_visibility_is_malformed() {
    match check_create(&alice(), paste_form("", "ok", " ", "hidden")) {
        Err(CreateRejection::BadRequest(ModelsError::Parse(m))) => assert_eq!(
            m,
            "Unrecognized value for visibility. Valid values are 'public' or 'secret'"
        ),
        other => panic!("unexpected {other:?}"),
    }
}

#[test]
fn update_form_messages() {
    let params = UpdatePasteParams {
        filename: "a?b".to_string(),
        description: "x".to_string(),
        body: "y".to_string(),
    };
    let form = check_update(&alice(), 5, params).unwrap_err();
    assert_eq!(form.paste_id, 5);
    assert_eq!(
        form.filename_error_message.as_deref(),
        Some("Filename may not contain the following characters: < > : \" / \\ | ? *")
    );
    let params = UpdatePasteParams {
        filename: "a.txt".to_string(),
        description: String::new(),
        body: "y".to_string(),
    };
    assert!(check_update(&alice(), 5, params).is_ok());
}

#[test]
fn access_to_a_paste() {
    assert_eq!(owner_access(Some(3), 3), Access::Granted);
    assert_eq!(owner_access(Some(3), 4), Access::Forbidden);
    assert_eq!(owner_access(None, 4), Access::NotFound);
}

#[test]
fn paste_addresses_round_trip() {
    let id: u128 = 0x0190_a1b2_c3d4_7e5f_8a9b_0c1d_2e3f_4a5b;
    let path = paste_path(&alice(), id);
    assert_eq!(path, "/alice/0190a1b2-c3d4-7e5f-8a9b-0c1d2e3f4a5b");
    let (u, parsed) = parse_paste_address("Alice", "0190a1b2-c3d4-7e5f-8a9b-0c1d2e3f4a5b").unwrap();
    assert_eq!(u.as_str(), "alice");
    assert_eq!(parsed, id);
    assert!(parse_paste_address("alice", "not-a-uuid").is_none());
    assert!(parse_paste_address("a--b", "0190a1b2-c3d4-7e5f-8a9b-0c1d2e3f4a5b").is_none());
}

#[test]
fn paste_headers() {
    assert!(noindex(Visibility::Secret));
    assert!(!noindex(Visibility::Public));
    assert_eq!(
        download_disposition(&Filename::parse("notes.md").unwrap()),
        "attachment; filename=\"notes.md\""
    );
}

#[test]
fn api_create_reports_first_refusal() {
    let params = ApiCreatePasteParams {
        filename: "a.rs".to_string(),
        description: "d".repeat(257),
        body: String::new(),
        visibility: "nope".to_string(),
    };
    match api_check_create(&params) {
        Err(ModelsError::Parse(m)) => {
            assert_eq!(m, "Description may not be longer than 256 characters")
        }
        other => panic!("unexpected {:?}", other.is_ok()),
    }
    let params = ApiCreatePasteParams {
        filename: "a.rs".to_string(),
        description: String::new(),
        body: "b".to_string(),
        visibility: "secret".to_string(),
    };
    let (_, _, _, v) = api_check_create(&params).unwrap();
    assert_eq!(v, Visibility::Secret);
}

#[test]
fn api_update_checks_present_fields() {
    let params = ApiUpdatePasteParams { filename: None, description: None, body: Some("new".to_string()) };
    let (f, d, b) = api_check_update(&params).unwrap();
    assert!(f.is_none() && d.is_none());
    assert_eq!(b.unwrap().as_str(), "new");
    let params = ApiUpdatePasteParams { filename: Some("x.".to_string()), description: None, body: None };
    match api_check_update(&params) {
        Err(ModelsError::Parse(m)) => assert_eq!(m, "Filename may not end with a '.' character"),
        _ => panic!("expected a refusal"),
    }
}

#[test]
fn failures_are_answered() {
    let r = Error::BadRequest("bad".to_string()).into_reply();
    assert_eq!(r.status, 400);
    assert!(matches!(r.body, ReplyBody::Text(ref t) if t == "bad"));
    assert_eq!(Error::Unauthorized.into_reply().status, 401);
    assert_eq!(Error::Forbidden(None).into_reply().status, 403);
    assert!(matches!(Error::NotFound(None).into_reply().body, ReplyBody::NotFoundPage(None)));
    assert_eq!(Error::InternalServerError(None).into_reply().status, 500);
    assert_eq!(Error::Validation("<form></form>".to_string()).into_reply().status, 200);
    assert!(matches!(
        Error::bad_request(ModelsError::Parse("why".to_string())),
        Error::BadRequest(ref m) if m == "why"
    ));
    assert!(matches!(
        Error::from_models(ModelsError::Parse("x".to_string())),
        Error::InternalServerError(None)
    ));
}

#[test]
fn signup_accepts_fresh_values() {
    let (u, e, p) =
        check_signup(signup_form("Alice", "Alice@Example.com", "long enough"), false, false)
            .ok()
            .unwrap();
    assert_eq!(u.as_str(), "alice");
    assert_eq!(e.as_str(), "alice@example.com");
    assert_eq!(p.expose_secret(), "long enough");
}

#[test]
fn signup_reports_taken_and_invalid_values() {
    let page = match check_signup(signup_form("alice", "alice@example.com", "short"), true, false) {
        Err(page) => page,
        Ok(_) => panic!("expected the form back"),
    };
    assert_eq!(page.username_error_message.as_deref(), Some("Username is already taken"));
    assert_eq!(page.email_error_message, None);
    assert_eq!(
        page.password_error_message.as_deref(),
        Some("Password is too short (minimum is 8 characters)")
    );
    assert_eq!(page.invite_code, "invite");
    let page = match check_signup(signup_form("new", "bad", "long enough"), true, true) {
        Err(page) => page,
        Ok(_) => panic!("expected the form back"),
    };
    assert_eq!(page.username_error_message.as_deref(), Some("Username is unavailable"));
    assert_eq!(page.email_error_message.as_deref(), Some("Email is missing the '@' symbol"));
}

#[test]
fn signup_invite_code() {
    let code =
        check_invite_code(signup_form("a", "a@b", "long enough"), Some(InviteCode("c".to_string())));
    assert_eq!(code.ok().unwrap().0, "c");
    let page = match check_invite_code(signup_form("a", "a@b", "long enough"), None) {
        Err(page) => page,
        Ok(_) => panic!("expected the form back"),
    };
    assert_eq!(page.invite_code_error_message.as_deref(), Some("Invalid invite code"));
}

#[test]
fn signup_fields_while_typing() {
    assert!(check_username_field(signup_form("alice", "", ""), false).is_ok());
    let p = check_username_field(signup_form("alice", "", ""), true).unwrap_err();
    assert_eq!(p.username_error_message.as_deref(), Some("Username is already taken"));
    let p = check_email_field(signup_form("", "x@", ""), false).unwrap_err();
    assert_eq!(
        p.email_error_message.as_deref(),
        Some("Email is missing the domain part after the '@' symbol")
    );
    assert!(check_email_field(signup_form("", "x@y", ""), false).is_ok());
    let p = check_password_field(signup_form("", "", "")).err().unwrap();
    assert_eq!(p.password_error_message.as_deref(), Some("Password may not be blank"));
    assert!(check_password_field(signup_form("", "", "long enough")).is_ok());
}

#[test]
fn change_password_steps() {
    let user = user_with_password("old password");
    let form = |old: &str, new: &str, confirm: &str| ChangePasswordParams {
        old_password: old.to_string(),
        new_password: new.to_string(),
        new_password_confirm: confirm.to_string(),
    };
    match change_rejection(check_change_password(form("old password", "short", "short"), &user)) {
        ChangeRejection::Validation(f) => assert_eq!(
            f.new_password_error_message.as_deref(),
            Some("Password is too short (minimum is 8 characters)")
        ),
        ChangeRejection::Internal(e) => panic!("unexpected internal error {e:?}"),
    }
    match change_rejection(check_change_password(
        form("old password", "new password", "other password"),
        &user,
    )) {
        ChangeRejection::Validation(f) => assert_eq!(
            f.new_password_error_message.as_deref(),
            Some("New password and password confirmation do not match")
        ),
        ChangeRejection::Internal(e) => panic!("unexpected internal error {e:?}"),
    }
    match change_rejection(check_change_password(form("old", "new password", "new password"), &user)) {
        ChangeRejection::Validation(f) => {
            assert_eq!(f.old_password_error_message.as_deref(), Some("Incorrect password"))
        }
        ChangeRejection::Internal(e) => panic!("unexpected internal error {e:?}"),
    }
    assert!(matches!(
        check_change_password(form("wrong password", "new password", "new password"), &user),
        Err(ChangeRejection::Internal(ModelsError::Argon2(_)))
    ));
    let p = check_change_password(form("old password", "new password", "new password"), &user)
        .ok()
        .unwrap();
    assert_eq!(p.expose_secret(), "new password");
}

#[test]
fn sign_in_checks() {
    let user = user_with_password("right password");
    let params = |email: &str, password: &str| CreateSessionParams {
        email: email.to_string(),
        password: password.to_string(),
    };
    assert!(check_sign_in(params("alice@example.com", "right password"), Some(user.clone())).is_ok());
    for (email, password, found) in [
        ("alice@example.com", "wrong password", true),
        ("alice@example.com", "right password", false),
        ("alice", "right password", true),
        ("alice@example.com", "short", true),
    ] {
        let page = match check_sign_in(params(email, password), if found { Some(user.clone()) } else { None }) {
            Err(page) => page,
            Ok(_) => panic!("expected the form back"),
        };
        assert_eq!(page.error_message.as_deref(), Some("Incorrect email or password"));
        assert_eq!(page.email, email);
    }
}

#[test]
fn session_cookies() {
    let token = UnhashedToken::try_from("00ff").unwrap();
    assert_eq!(
        session_cookie(&token),
        "session_token=00ff; Max-Age=999999; Secure; HttpOnly; SameSite=Lax"
    );
    assert_eq!(signup_session_cookie(&token), "session_token=00ff; Max-Age=999999; Secure; HttpOnly");
}

#[test]
fn secret_pastes_listed_only_for_their_owner() {
    assert!(lists_secrets(Some(1), 1));
    assert!(!lists_secrets(Some(2), 1));
    assert!(!lists_secrets(None, 1));
}

#[test]
fn highlighting_needs_extension_and_theme() {
    let theme = br##"<?xml version="1.0" encoding="UTF-8"?>
<!DOCTYPE plist PUBLIC "-//Apple//DTD PLIST 1.0//EN" "http://www.apple.com/DTDs/PropertyList-1.0.dtd">
<plist version="1.0"><dict><key>name</key><string>Plain</string><key>settings</key><array><dict><key>settings</key><dict><key>background</key><string>#FFFFFF</string><key>foreground</key><string>#000000</string></dict></dict></array></dict></plist>"##;
    let theme: &[u8] = theme;
    assert_eq!(generate("fn main() {}", None, None), None);
    assert_eq!(generate("fn main() {}", None, Some(theme)), None);
    assert_eq!(generate("fn main() {}", Some("rs"), None), None);
    let html = generate("fn main() {}", Some("rs"), Some(theme)).unwrap();
    assert!(html.starts_with("<pre"));
    assert!(html.contains("main"));
    assert_eq!(generate("x", Some("no-such-extension"), Some(theme)), None);
    assert_eq!(generate("fn main() {}", Some("rs"), Some(b"not a theme".as_slice())), None);
    assert!(may_cache(false, true));
    assert!(!may_cache(true, true));
    assert!(!may_cache(false, false));
}

#[test]
fn api_failures_are_answered_in_json_terms() {
    let r = Error::BadRequest(
        "Filename may not contain the following characters: < > : \" / \\ | ? *".to_string(),
    )
    .into_api_reply();
    assert_eq!((r.status, r.error.as_str()), (400, "Bad Request"));
    assert_eq!(r.message, "Filename may not contain the following characters: < > : \" / \\ | ? *");
    let r = Error::Unauthorized.into_api_reply();
    assert_eq!(
        (r.status, r.error.as_str(), r.message.as_str()),
        (401, "Unauthorized", "Invalid authentication credentials.")
    );
    let r = Error::Forbidden(None).into_api_reply();
    assert_eq!(
        (r.status, r.error.as_str(), r.message.as_str()),
        (403, "Forbidden", "Insufficient privileges")
    );
    let r = Error::NotFound(None).into_api_reply();
    assert_eq!(
        (r.status, r.error.as_str(), r.message.as_str()),
        (404, "Not Found", "Resource not found.")
    );
    assert_eq!(Error::InternalServerError(None).into_api_reply().status, 500);
}

#[test]
fn not_empty_when_trimmed_rule() {
    assert!(not_empty_when_trimmed(" x ").is_ok());
    let e = not_empty_when_trimmed(" \t\n").unwrap_err();
    assert_eq!(e.code, "cannot be empty");
}

#[test]
fn report_text() {
    let mut r = gluestick::params::prelude::Report::new();
    r.add("filename", "a");
    r.add("filename", "b");
    r.add("body", "c");
    assert_eq!(r.to_string(), "filename:\n - a\n - b\nbody:\n - c\n");
}

fn session_of(user: User) -> gluestick::models::session::Session {
    let (_, session_token) = gluestick::models::session::SessionToken::new(user.id);
    gluestick::models::session::Session { session_token, user }
}

#[test]
fn paste_pages_start_from_the_session() {
    let user = user_with_password("some password");
    let page = gluestick::views::pastes::NewPastesTemplate::from_session(session_of(user.clone()));
    assert_eq!(page.new_pastes_form.username, "alice");
    assert_eq!(page.new_pastes_form.visibility, "secret");
    assert!(page.session.is_some());
    let paste = gluestick::models::paste::Paste::new(
        user.id,
        Filename::parse("a.txt").unwrap(),
        gluestick::models::paste::Description::parse("about").unwrap(),
        gluestick::models::paste::Body::parse("text").unwrap(),
        Visibility::Secret,
    )
    .unwrap();
    let page = gluestick::views::pastes::EditPastesTemplate::from_session_and_paste(session_of(user), &paste);
    assert_eq!(page.filename, "a.txt");
    assert_eq!(page.edit_pastes_form.paste_id, paste.id);
    assert_eq!(page.edit_pastes_form.body, "text");
}

#[test]
fn listings_hide_secret_pastes() {

    assert_eq!(visibility_condition(false), "pastes.visibility = 'public'");
    assert_eq!(visibility_condition(true), "1 = 1");
    assert_eq!(cursor_condition(None, Direction::Descending), "");
    assert_eq!(cursor_condition(Some(1), Direction::Ascending), "AND pastes.id > :cursor");
    assert_eq!(cursor_condition(Some(1), Direction::Descending), "AND pastes.id < :cursor");
}

#[test]
fn error_pages_keep_the_session() {
    let user = user_with_password("some password");
    let r = Error::NotFound(Some(session_of(user))).into_reply();
    assert_eq!(r.status, 404);
    match r.body {
        ReplyBody::NotFoundPage(Some(s)) => assert_eq!(s.user.username.as_str(), "alice"),
        _ => panic!("expected the not-found page with its session"),
    }
    let r = Error::Forbidden(Some(session_of(user_with_password("other password")))).into_reply();
    assert!(matches!(r.body, ReplyBody::ForbiddenPage(Some(_))));
}

#[test]
fn cache_after_an_update() {
    let theme: &[u8] = br##"<?xml version="1.0" encoding="UTF-8"?>
<plist version="1.0"><dict><key>settings</key><array><dict><key>settings</key><dict><key>foreground</key><string>#000000</string></dict></dict></array></dict></plist>"##;
    assert!(matches!(cache_action_after_update(false, "x", Some("rs"), Some(theme)), CacheAction::Keep));
    assert!(matches!(cache_action_after_update(true, "fn main() {}", Some("rs"), Some(theme)), CacheAction::Store(ref h) if h.starts_with("<pre")));
    assert!(matches!(cache_action_after_update(true, "x", None, Some(theme)), CacheAction::Expire));
    assert!(matches!(cache_action_after_update(true, "x", Some("rs"), None), CacheAction::Expire));
}

#[test]
fn paste_ids_in_every_uuid_form() {
    let id: u128 = 0x67e5_5044_10b1_426f_9247_bb68_0e5f_e0c8;
    for text in [
        "67e55044-10b1-426f-9247-bb680e5fe0c8",
        "67E55044-10B1-426F-9247-BB680E5FE0C8",
        "67e5504410b1426f9247bb680e5fe0c8",
        "{67e55044-10b1-426f-9247-bb680e5fe0c8}",
        "URN:uuid:67e55044-10b1-426f-9247-bb680e5fe0c8",
    ] {
        assert_eq!(parse_paste_address("alice", text).unwrap().1, id, "{text}");
    }
    for text in [
        "67e55044-10b1-426f-9247-bb680e5fe0c",
        "67e55044+10b1-426f-9247-bb680e5fe0c8",
        "(67e55044-10b1-426f-9247-bb680e5fe0c8)",
        "urn:uuix:67e55044-10b1-426f-9247-bb680e5fe0c8",
        "67e5504410b1426f9247bb680e5fe0cg",
    ] {
        assert!(parse_paste_address("alice", text).is_none(), "{text}");
    }
}
