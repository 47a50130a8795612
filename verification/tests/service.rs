use shine_auth::auth::iam::identity::{EncodedName, UserIdentity};
use shine_auth::auth::iam::role::manager::InheritedRole;
use shine_auth::auth::iam::role::{RoleManager, RoleQueryResult};
use shine_auth::auth::iam::{IAMConfig, IAMError, SessionInvalidation, IAM};
use shine_auth::auth::iam_handler::{basic_auth_password, keeps_identity_cookie, session_credentials};
use shine_auth::auth::login::{self, LoginError, LoginParams, LoginTarget};
use shine_auth::auth::registration::{self, Keys, RegistrationError, RegistrationParams};
use shine_auth::auth::utils::create_user_id;
use shine_auth::auth::{decode_session_secrets, AuthConfig, AuthCreateError};
use shine_auth::authheader::Error as HeaderError;
use shine_auth::bearerauth::{BearerAuth, Error as BearerError};
use shine_auth::config::Config;
use std::collections::HashSet;

fn iam_config() -> IAMConfig {
    IAMConfig {
        password_pepper: "pepper".to_owned(),
        storage_account: "account".to_owned(),
        storage_account_key: "key".to_owned(),
        graph_db_host: "graph".to_owned(),
        graph_db_port: 443,
        graph_db_user: "user".to_owned(),
        graph_db_password: "secret".to_owned(),
        ipdataco_key: "ip".to_owned(),
        session_time_to_live_h: 2,
        test_token: "tt".to_owned(),
    }
}

fn auth_config(id_secret: &str, af_secret: &str) -> AuthConfig {
    AuthConfig {
        iam: iam_config(),
        tera_templates: "templates/**".to_owned(),
        recaptcha_secret: "r".to_owned(),
        recaptcha_site_key: "site".to_owned(),
        id_session_secret: id_secret.to_owned(),
        af_session_secret: af_secret.to_owned(),
    }
}

#[test]
fn role_answers() {
    assert!(matches!(RoleManager::create_role_result("conflict"), RoleQueryResult::Failed(IAMError::RoleTaken)));
    assert!(matches!(RoleManager::create_role_result("done"), RoleQueryResult::Done));
    match RoleManager::create_role_result("what") {
        RoleQueryResult::UnexpectedResponse(m) => assert_eq!(m, "Unexpected query response: what"),
        other => panic!("unexpected {:?}", other),
    }
    assert!(matches!(RoleManager::delete_role_result("missing"), RoleQueryResult::Failed(IAMError::RoleNotFound)));
    assert!(matches!(RoleManager::delete_role_result("done"), RoleQueryResult::Done));
}

#[test]
fn inherit_role_answers() {
    assert!(matches!(RoleManager::inherit_role_result(vec![]), RoleQueryResult::Failed(IAMError::RoleNotFound)));
    assert!(matches!(
        RoleManager::inherit_role_result(vec!["conflict".to_owned()]),
        RoleQueryResult::Failed(IAMError::HasRoleTaken)
    ));
    assert!(matches!(RoleManager::inherit_role_result(vec!["done".to_owned()]), RoleQueryResult::Done));
    match RoleManager::inherit_role_result(vec!["a".to_owned(), "b".to_owned(), "a".to_owned()]) {
        RoleQueryResult::Failed(IAMError::HasRoleCycle(path)) => assert_eq!(path, vec!["a", "b", "a"]),
        other => panic!("unexpected {:?}", other),
    }
}

#[test]
fn role_queries_bind_their_parameters() {
    let manager = RoleManager::new(&iam_config());
    assert_eq!(manager.host, "graph");
    let q = manager.inherit_role("admin", "user");
    assert_eq!(q.bindings, vec![("role".to_owned(), "admin".to_owned()), ("inherited_role".to_owned(), "user".to_owned())]);
    assert!(q.script.contains("has_role"));
    let q = manager.create_identity("abcdefgh");
    assert_eq!(q.bindings, vec![("identity".to_owned(), "abcdefgh".to_owned())]);
    match RoleManager::create_identity_result("abcdefgh", "conflict") {
        RoleQueryResult::Failed(IAMError::Internal(m)) => assert_eq!(m, "Identity abcdefgh already registered"),
        other => panic!("unexpected {:?}", other),
    }
    assert!(manager.get_roles().bindings.is_empty());
}

#[test]
fn testing_token_permission() {
    let iam = IAM::new(&iam_config());
    assert!(iam.check_permission_by_testing_token(None).is_ok());
    assert!(iam.check_permission_by_testing_token(Some("tt")).is_ok());
    assert!(matches!(iam.check_permission_by_testing_token(Some("x")), Err(IAMError::InsufficientPermission)));
    let roles: HashSet<String> = HashSet::new();
    assert!(iam.check_permission_by_roles(Some(&roles), Some("tt")).is_ok());
    assert!(matches!(iam.check_permission_by_roles(None, None), Err(IAMError::SessionRequired)));
    assert!(matches!(iam.check_permission_by_roles(None, Some("x")), Err(IAMError::InsufficientPermission)));
    assert!(matches!(iam.check_permission_by_identity(None), Err(IAMError::SessionRequired)));
    assert_eq!(iam.check_permission_by_identity(Some("abc")).unwrap(), "abc");
}

#[test]
fn logout_picks_one_or_all_sessions() {
    let iam = IAM::new(&iam_config());
    assert_eq!(iam.session.time_to_live_ms, 2 * 3_600_000);
    assert!(matches!(iam.invalidate_session("abcdefgh", "KEY", true), SessionInvalidation::All(..)));
    assert!(matches!(iam.invalidate_session("abcdefgh", "KEY", false), SessionInvalidation::One(..)));
}

#[test]
fn user_id_of_identity_has_each_role_once() {
    let user = UserIdentity::new(
        "abcdefgh".to_owned(),
        1,
        "salt".to_owned(),
        EncodedName::from_raw("alice").unwrap(),
        None,
        "hash".to_owned(),
    );
    let roles = vec![
        InheritedRole { role: "admin".to_owned(), inherited_from: None },
        InheritedRole { role: "user".to_owned(), inherited_from: Some("admin".to_owned()) },
        InheritedRole { role: "admin".to_owned(), inherited_from: None },
    ];
    let id = create_user_id(user, roles).unwrap();
    assert_eq!(id.user_id, "abcdefgh");
    assert_eq!(id.name, "alice");
    assert_eq!(id.roles, vec!["admin", "user"]);
}

fn registration_form(user_name: &str, email: &str, password: &str) -> RegistrationParams {
    RegistrationParams {
        user_name: user_name.to_owned(),
        email: email.to_owned(),
        password: password.to_owned(),
        accept_terms: true,
        af: "af".to_owned(),
        recaptcha_response: "resp".to_owned(),
    }
}

fn texts(errors: &[RegistrationError]) -> Vec<String> {
    errors
        .iter()
        .map(|e| match e {
            RegistrationError::Username(m) => format!("user:{}", m),
            RegistrationError::Email(m) => format!("email:{}", m),
            RegistrationError::Password(m) => format!("password:{}", m),
            RegistrationError::Recaptcha(m) => format!("recaptcha:{}", m),
            RegistrationError::Server(m) => format!("server:{}", m),
        })
        .collect()
}

#[test]
fn registration_reports_every_refused_field() {
    let params = registration_form("ab", "bad", "x");
    let errors = registration::validate_input(&params, Err("Timeout".to_owned())).unwrap_err();
    assert_eq!(texts(&errors), vec!["user:invalid_character", "email:invalid_format", "password:too_short", "recaptcha:Timeout"]);
    let params = registration_form("   ", "", "secret");
    let (name, email, password) = registration::validate_input(&params, Ok(())).unwrap();
    assert_eq!(name.as_str(), "   ");
    assert!(email.is_none());
    assert_eq!(password.as_str(), "secret");
}

#[test]
fn registration_failure_messages() {
    assert_eq!(texts(&registration::registration_errors(&IAMError::NameTaken, "NameTaken")), vec!["user:already_taken"]);
    assert_eq!(texts(&registration::registration_errors(&IAMError::EmailTaken, "EmailTaken")), vec!["email:already_taken"]);
    assert_eq!(
        texts(&registration::registration_errors(&IAMError::RoleTaken, "RoleTaken")),
        vec!["server:server_error:RoleTaken"]
    );
}

#[test]
fn registration_page_values() {
    let keys = Keys { af: "AF".to_owned(), recaptcha_site_key: "SITE".to_owned() };
    let empty = registration::page_context(&keys, None, None);
    let get = |ctx: &Vec<(String, String)>, k: &str| ctx.iter().find(|(key, _)| key == k).unwrap().1.clone();
    assert_eq!(empty.len(), 15);
    assert_eq!(get(&empty, "user_name"), "");
    assert_eq!(get(&empty, "af_token"), "AF");
    assert_eq!(get(&empty, "user_name_min_len"), "3");
    assert_eq!(get(&empty, "password_max_len"), "30");
    let params = registration_form("bob", "b@c.d", "pw");
    let errors = vec![
        RegistrationError::Username("too_short".to_owned()),
        RegistrationError::Username("already_taken".to_owned()),
        RegistrationError::Recaptcha("bad".to_owned()),
    ];
    let ctx = registration::page_context(&keys, Some(&params), Some(&errors));
    assert_eq!(get(&ctx, "user_name"), "bob");
    assert_eq!(get(&ctx, "accept_terms"), "true");
    assert_eq!(get(&ctx, "user_name_error"), "already_taken");
    assert_eq!(get(&ctx, "recaptcha_error"), "bad");
    assert_eq!(get(&ctx, "email_error"), "");
}

#[test]
fn login_validation_and_target() {
    let params = LoginParams {
        user: "me@example.com".to_owned(),
        password: "secret".to_owned(),
        af: "af".to_owned(),
        recaptcha_response: "r".to_owned(),
    };
    assert!(matches!(login::validate_input(&params, false).unwrap_err().as_slice(), [LoginError::Recaptcha]));
    let (name, email, password) = login::validate_input(&params, true).unwrap();
    assert_eq!(password.as_str(), "secret");
    assert!(email.is_some());
    match login::login_target(name, email) {
        Ok(LoginTarget::Name(_)) | Ok(LoginTarget::Email(_)) => {}
        Err(e) => panic!("unexpected {:?}", e),
    }
    assert!(matches!(login::login_target(None, None), Err(IAMError::IdentityNotFound)));
}

#[test]
fn login_page_values() {
    let keys = Keys { af: "AF".to_owned(), recaptcha_site_key: "SITE".to_owned() };
    let errors = login::login_errors(&IAMError::PasswordNotMatching, "PasswordNotMatching");
    assert!(matches!(errors.as_slice(), [LoginError::Password]));
    let params = LoginParams {
        user: "bob".to_owned(),
        password: "x".to_owned(),
        af: "af".to_owned(),
        recaptcha_response: "r".to_owned(),
    };
    let ctx = login::page_context(&keys, Some((&params, &errors)));
    assert_eq!(ctx[0], ("user".to_owned(), "bob".to_owned()));
    assert_eq!(ctx[3], ("validity".to_owned(), "err:password_or_name".to_owned()));
    let errors = login::login_errors(&IAMError::SessionExpired, "SessionExpired");
    let ctx = login::page_context(&keys, Some((&params, &errors)));
    assert_eq!(ctx[4], ("server_error".to_owned(), "server_error:SessionExpired".to_owned()));
    let ctx = login::page_context(&keys, None);
    assert_eq!(ctx[0].1, "");
}

#[test]
fn handler_decisions() {
    assert!(matches!(session_credentials(None, Some("u".to_owned())), Err(IAMError::SessionRequired)));
    assert!(matches!(session_credentials(Some("k".to_owned()), None), Err(IAMError::SessionRequired)));
    assert_eq!(session_credentials(Some("k".to_owned()), Some("u".to_owned())).unwrap(), ("k".to_owned(), "u".to_owned()));
    assert!(keeps_identity_cookie(&IAMError::SessionKeyConflict));
    assert!(!keeps_identity_cookie(&IAMError::SessionExpired));
    assert_eq!(basic_auth_password(Some("pw")).unwrap(), "pw");
    assert!(matches!(basic_auth_password(None), Err(IAMError::PasswordNotMatching)));
}

#[test]
fn session_secrets_are_base64() {
    let (id, af) = decode_session_secrets(&auth_config("aGVsbG8=", "d29ybGQ=")).unwrap();
    assert_eq!(id, b"hello");
    assert_eq!(af, b"world");
    match decode_session_secrets(&auth_config("aGVsbG8=", "###")) {
        Err(AuthCreateError::ConfigureDecodeSecret(m)) => assert!(!m.is_empty()),
        other => panic!("unexpected {:?}", other),
    }
    let e = AuthCreateError::ConfigureTera("x".to_owned());
    assert_eq!(e.to_display_string(), "Error in tera configuration: x");
}

#[test]
fn bearer_header_parsing() {
    assert_eq!(BearerAuth::parse("Bearer abc").unwrap().token(), "abc");
    assert_eq!(BearerAuth::parse("Bearer a b").unwrap().token(), "a b");
    assert!(matches!(BearerAuth::parse("Bearer"), Err(BearerError::Invalid)));
    assert!(matches!(BearerAuth::parse("Basic abcdef"), Err(BearerError::MissingScheme)));
    assert!(matches!(BearerAuth::parse("Bearerxyz"), Err(BearerError::MissingScheme)));
    assert!(matches!(BearerAuth::parse("Bearer12345"), Err(BearerError::MissingScheme)));
    assert_eq!(BearerAuth::new("t".to_owned()).token(), "t");
}

#[test]
fn header_error_descriptions() {
    assert_eq!(HeaderError::Header.description(), "Invalid authentication header");
    assert_eq!(HeaderError::MissingField("x".to_owned()).description(), "Missing header field");
    assert_eq!(HeaderError::Utf8Error("bad utf".to_owned()).description(), "bad utf");
    assert!(HeaderError::Utf8Error(String::new()).has_source());
    assert!(!HeaderError::Invalid.has_source());
}

#[test]
fn bind_address() {
    let config = Config { bind_host: "0.0.0.0".to_owned(), bind_port: 12345, worker_count: 4, auth: auth_config("", "") };
    assert_eq!(config.get_bind_address(), "0.0.0.0:12345");
}
