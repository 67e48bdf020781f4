use gluestick::config::{Config, DatabasePathError, EnvValue, Error as ConfigError, IntErrorKind, PortError};
use gluestick::models::api_session::{key_name_string, ApiKey, HashedKey, UnhashedKey};
use gluestick::helpers::time::{MAX_TIMESTAMP_MS, MIN_TIMESTAMP_MS};
use gluestick::models::hex::hex32_string;
use gluestick::models::paste::{Body, Description, Filename, Paste, Visibility};
use gluestick::models::prelude::Error;
use gluestick::models::session::{
    absolute_expiration_cutoff, idle_expiration_cutoff, HashedToken, SessionToken, UnhashedToken,
};
use gluestick::models::user::{EmailAddress, UnhashedPassword, User, Username};

fn parse_message<T>(r: Result<T, Error>) -> String {
    match r {
        Err(Error::Parse(m)) => m,
        Err(e) => panic!("unexpected error {e:?}"),
        Ok(_) => panic!("unexpected success"),
    }
}

#[test]
fn filename_rules() {
    assert_eq!(Filename::parse("main.rs").unwrap().as_str(), "main.rs");
    assert_eq!(parse_message(Filename::parse("   ")), "Filename may not be blank");
    assert_eq!(
        parse_message(Filename::parse(&"a".repeat(257))),
        "Filename may not be longer than 256 characters"
    );
    assert_eq!(
        parse_message(Filename::parse("a/b")),
        "Filename may not contain the following characters: < > : \" / \\ | ? *"
    );
    assert_eq!(
        parse_message(Filename::parse("notes.")),
        "Filename may not end with a '.' character"
    );
}

#[test]
fn filename_extension() {
    assert_eq!(Filename::parse("archive.tar.gz").unwrap().extension(), Some("gz"));
    assert_eq!(Filename::parse("Makefile").unwrap().extension(), None);
    assert_eq!(Filename::parse(".bashrc").unwrap().extension(), Some("bashrc"));
}

#[test]
fn description_and_body_rules() {
    assert!(Description::parse("").is_ok());
    assert_eq!(
        parse_message(Description::parse(&"d".repeat(257))),
        "Description may not be longer than 256 characters"
    );
    assert_eq!(Description::parse("abc").unwrap().len(), 3);
    assert!(Description::parse("").unwrap().is_empty());
    assert_eq!(parse_message(Body::parse(" \n\t ")), "Body may not be blank");
    assert_eq!(Body::parse("x").unwrap().as_str(), "x");
}

#[test]
fn new_values_are_trimmed() {
    assert_eq!(Filename::new("  a.txt  ").unwrap().as_str(), "a.txt");
    assert_eq!(Description::new("  about  ").unwrap().as_str(), "about");
    assert_eq!(Body::new("\n body \n").unwrap().as_str(), "body");
}

#[test]
fn visibility_names() {
    assert_eq!(Visibility::parse("public").unwrap(), Visibility::Public);
    assert_eq!(Visibility::parse("secret").unwrap(), Visibility::Secret);
    assert_eq!(
        parse_message(Visibility::parse("Public")),
        "Unrecognized value for visibility. Valid values are 'public' or 'secret'"
    );
    assert_eq!(Visibility::Secret.as_str(), "secret");
    assert!(Visibility::Public.is_public());
    assert!(Visibility::Secret.is_secret());
}

#[test]
fn paste_update_reports_stale_highlighting() {
    let mut paste = Paste::new(
        7,
        Filename::parse("a.rs").unwrap(),
        Description::parse("d").unwrap(),
        Body::parse("fn main() {}").unwrap(),
        Visibility::Public,
    )
    .unwrap();
    assert_eq!(paste.created_at, paste.updated_at);
    assert!(!paste.update(None, Some(Description::parse("other").unwrap()), None, 100));
    assert_eq!(paste.description.as_str(), "other");
    assert_eq!(paste.updated_at, 100);
    assert!(!paste.update(Some(Filename::parse("b.rs").unwrap()), None, None, 200));
    assert!(paste.update(Some(Filename::parse("b.py").unwrap()), None, None, 300));
    assert!(paste.update(None, None, Some(Body::parse("print()").unwrap()), 400));
    assert!(!paste.update(None, None, Some(Body::parse("print()").unwrap()), 500));
    assert_eq!(paste.updated_at, 500);
    assert_eq!(paste.filename.as_str(), "b.py");
    assert_eq!(paste.user_id, 7);
}

#[test]
fn username_rules() {
    assert_eq!(Username::parse("Alice-B").unwrap().as_str(), "alice-b");
    assert_eq!(parse_message(Username::parse(" ")), "Username may not be blank");
    assert_eq!(
        parse_message(Username::parse(&"a".repeat(33))),
        "Username is too long (maximum is 32 characters)"
    );
    let invalid = "Username may only contain alphanumeric characters or single hyphens, and may not begin or end with a hyphen";
    assert_eq!(parse_message(Username::parse("a--b")), invalid);
    assert_eq!(parse_message(Username::parse("-ab")), invalid);
    assert_eq!(parse_message(Username::parse("ab-")), invalid);
    assert_eq!(parse_message(Username::parse("a b")), invalid);
    assert_eq!(parse_message(Username::parse("Pastes")), "Username is unavailable");
}

#[test]
fn email_rules() {
    assert_eq!(EmailAddress::parse("Me@Example.COM").unwrap().as_str(), "me@example.com");
    assert_eq!(parse_message(EmailAddress::parse("")), "Email may not be blank");
    assert_eq!(
        parse_message(EmailAddress::parse("me.example.com")),
        "Email is missing the '@' symbol"
    );
    assert_eq!(
        parse_message(EmailAddress::parse("@example.com")),
        "Email is missing the username part before the '@' symbol"
    );
    assert_eq!(
        parse_message(EmailAddress::parse("me@")),
        "Email is missing the domain part after the '@' symbol"
    );
}

#[test]
fn password_rules() {
    assert_eq!(
        UnhashedPassword::parse("correct horse".to_string()).unwrap().expose_secret(),
        "correct horse"
    );
    assert_eq!(parse_message(UnhashedPassword::parse(String::new())), "Password may not be blank");
    assert_eq!(
        parse_message(UnhashedPassword::parse("short".to_string())),
        "Password is too short (minimum is 8 characters)"
    );
    assert_eq!(
        parse_message(UnhashedPassword::parse("p".repeat(257))),
        "Password is too long (maximum is 256 characters)"
    );
}

#[test]
fn stored_password_verifies() {
    let user = User::new(
        Username::parse("alice").unwrap(),
        EmailAddress::parse("alice@example.com").unwrap(),
        UnhashedPassword::parse("correct horse".to_string()).unwrap(),
    )
    .unwrap();
    assert!(user.password.expose_secret().starts_with("$argon2"));
    let right = UnhashedPassword::parse("correct horse".to_string()).unwrap();
    let wrong = UnhashedPassword::parse("wrong horse".to_string()).unwrap();
    assert!(user.verify_password(&right).is_ok());
    assert!(matches!(user.verify_password(&wrong), Err(Error::Argon2(_))));
}

#[test]
fn hex_is_zero_padded() {
    assert_eq!(hex32_string(0), "00000000000000000000000000000000");
    assert_eq!(hex32_string(0xabc), "00000000000000000000000000000abc");
    assert_eq!(hex32_string(u128::MAX), "ffffffffffffffffffffffffffffffff");
}

#[test]
fn session_tokens_round_trip() {
    let (token, stored) = SessionToken::new(42);
    assert_eq!(stored.user_id, 42);
    assert_eq!(token.expose_secret().len(), 32);
    let presented = UnhashedToken::try_from(token.expose_secret()).unwrap();
    assert_eq!(HashedToken::from(&presented).expose_secret(), stored.token.expose_secret());
    assert!(UnhashedToken::try_from("not hex").is_err());
    assert!(UnhashedToken::try_from("").is_err());
}

#[test]
fn session_token_hash_is_sha256() {
    let token = UnhashedToken::try_from("abc").unwrap();
    let digest = HashedToken::from(&token);
    let expected: Vec<u8> = vec![
        0xba, 0x78, 0x16, 0xbf, 0x8f, 0x01, 0xcf, 0xea, 0x41, 0x41, 0x40, 0xde, 0x5d, 0xae, 0x22,
        0x23, 0xb0, 0x03, 0x61, 0xa3, 0x96, 0x17, 0x7a, 0x9c, 0xb4, 0x10, 0xff, 0x61, 0xf2, 0x00,
        0x15, 0xad,
    ];
    assert_eq!(digest.expose_secret(), &expected);
}

#[test]
fn session_expiration_cutoffs() {
    let now = 1_704_067_200_000;
    assert_eq!(absolute_expiration_cutoff(now), Some(now - 1_209_600_000));
    assert_eq!(idle_expiration_cutoff(now), Some(now - 28_800_000));
    assert_eq!(absolute_expiration_cutoff(i64::MIN), None);
    let (_, mut stored) = SessionToken::new(1);
    stored.created_at = now - 1_209_600_001;
    stored.last_used_at = now;
    assert!(stored.started_before(absolute_expiration_cutoff(now).unwrap()));
    assert!(!stored.idle_since_before(idle_expiration_cutoff(now).unwrap()));
}

#[test]
fn api_keys_round_trip() {
    let (key, stored) = ApiKey::new(9);
    assert_eq!(stored.user_id, 9);
    let presented = UnhashedKey::try_from(key.expose_secret()).unwrap();
    assert_eq!(HashedKey::from(&presented).expose_secret(), stored.key.expose_secret());
    assert_eq!(key_name_string("0123456789abcdef"), "API Key ending in 'cdef'");
    assert_eq!(key_name_string("ab"), "API Key ending in 'ab'");
}

#[test]
fn config_defaults_and_errors() {
    let c = Config::parse(EnvValue::NotPresent, EnvValue::NotPresent).unwrap();
    assert_eq!(c.database_path(), "gluestick.db");
    assert_eq!(c.port(), 3000);
    let c = Config::parse(
        EnvValue::Present("data.db".to_string()),
        EnvValue::Present("8080".to_string()),
    )
    .unwrap();
    assert_eq!(c.database_path(), "data.db");
    assert_eq!(c.port(), 8080);
    assert_eq!(
        Config::parse(EnvValue::NotUnicode, EnvValue::NotUnicode).unwrap_err(),
        ConfigError::DatabasePathError(DatabasePathError::InvalidUnicode)
    );
    assert_eq!(
        Config::parse(EnvValue::NotPresent, EnvValue::NotUnicode).unwrap_err(),
        ConfigError::PortError(PortError::InvalidUnicode)
    );
    assert_eq!(
        Config::parse(EnvValue::NotPresent, EnvValue::Present("70000".to_string())).unwrap_err(),
        ConfigError::PortError(PortError::InvalidValue(IntErrorKind::PosOverflow))
    );
    assert_eq!(
        Config::parse(EnvValue::NotPresent, EnvValue::Present("80a".to_string())).unwrap_err(),
        ConfigError::PortError(PortError::InvalidValue(IntErrorKind::InvalidDigit))
    );
    assert_eq!(
        Config::parse(EnvValue::NotPresent, EnvValue::Present(String::new())).unwrap_err(),
        ConfigError::PortError(PortError::InvalidValue(IntErrorKind::Empty))
    );
}

#[test]
fn cookie_tokens_parse_and_hash() {
    let token = gluestick::auth::SessionToken::generate();
    assert_eq!(token.expose_secret().len(), 32);
    let parsed = gluestick::auth::SessionToken::parse(token.expose_secret()).ok().unwrap();
    assert_eq!(parsed.to_hash().expose_secret(), token.to_hash().expose_secret());
    assert!(gluestick::auth::SessionToken::parse("+ff").is_ok());
    assert!(gluestick::auth::SessionToken::parse("fffffffffffffffffffffffffffffffff").is_err());
    assert!(gluestick::auth::SessionToken::parse("xyz").is_err());
}

#[test]
fn expiration_cutoffs_at_the_edges_of_time() {
    let week2 = 1_209_600_000;
    assert_eq!(absolute_expiration_cutoff(MIN_TIMESTAMP_MS + week2), Some(MIN_TIMESTAMP_MS));
    assert_eq!(absolute_expiration_cutoff(MIN_TIMESTAMP_MS + week2 - 1), None);
    assert_eq!(absolute_expiration_cutoff(MAX_TIMESTAMP_MS), Some(MAX_TIMESTAMP_MS - week2));
    assert_eq!(absolute_expiration_cutoff(MAX_TIMESTAMP_MS + 1), None);
    assert_eq!(idle_expiration_cutoff(MIN_TIMESTAMP_MS + 28_800_001), Some(MIN_TIMESTAMP_MS + 1));
    assert_eq!(idle_expiration_cutoff(MIN_TIMESTAMP_MS + 28_799_999), None);
    assert_eq!(idle_expiration_cutoff(-1), Some(-28_800_001));
}
