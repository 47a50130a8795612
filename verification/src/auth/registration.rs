//! The registration page: validation of the submitted form and the values
//! the page is rendered with.
use vstd::prelude::*;
use crate::auth::iam::IAMError;
use crate::auth::iam::identity::{
    EmailValidationError, NameValidationError, PasswordValidationError, ValidatedEmail, ValidatedName,
    ValidatedPassword,
};
use crate::auth::iam::identity::input_validation::{spec_identifier_allowed, spec_validate_email};
use crate::azure_utils::spec_encode_safe_key;
use crate::text::{decimal_string, push_str, spec_decimal, string_from_chars};

verus! {

/// A refused field of the registration form, with the reason.
#[derive(Debug, Clone)]
pub enum RegistrationError {
    Username(String),
    Email(String),
    Password(String),
    Recaptcha(String),
    Server(String),
}

/// A refused field, by its views.
pub enum RegistrationErrorView {
    Username(Seq<char>),
    Email(Seq<char>),
    Password(Seq<char>),
    Recaptcha(Seq<char>),
    Server(Seq<char>),
}

impl View for RegistrationError {
    type V = RegistrationErrorView;

    open spec fn view(&self) -> RegistrationErrorView {
        match self {
            RegistrationError::Username(s) => RegistrationErrorView::Username(s@),
            RegistrationError::Email(s) => RegistrationErrorView::Email(s@),
            RegistrationError::Password(s) => RegistrationErrorView::Password(s@),
            RegistrationError::Recaptcha(s) => RegistrationErrorView::Recaptcha(s@),
            RegistrationError::Server(s) => RegistrationErrorView::Server(s@),
        }
    }
}

/// The views of a list of errors.
pub open spec fn spec_error_views(errors: Seq<RegistrationError>) -> Seq<RegistrationErrorView> {
    errors.map_values(|e: RegistrationError| e@)
}

/// The submitted registration form.
#[derive(Debug, Clone)]
pub struct RegistrationParams {
    pub user_name: String,
    pub email: String,
    pub password: String,
    pub accept_terms: bool,
    pub af: String,
    pub recaptcha_response: String,
}

/// The tokens the page is rendered with.
#[derive(Debug, Clone)]
pub struct Keys {
    pub af: String,
    pub recaptcha_site_key: String,
}

/// What is wrong with the user name, if anything. A name with a character
/// that the identifier profile allows is refused (so is the rule).
pub open spec fn spec_user_name_error(raw: Seq<char>) -> Seq<RegistrationErrorView> {
    if exists|c: char| raw.contains(c) && spec_identifier_allowed(c) {
        seq![RegistrationErrorView::Username("invalid_character"@)]
    } else if raw.len() < 3 {
        seq![RegistrationErrorView::Username("too_short"@)]
    } else if raw.len() > 30 {
        seq![RegistrationErrorView::Username("too_long"@)]
    } else {
        seq![]
    }
}

/// What is wrong with the email, if one was given.
pub open spec fn spec_email_error(raw: Seq<char>) -> Seq<RegistrationErrorView> {
    if raw.len() > 0 && !spec_validate_email(raw) {
        seq![RegistrationErrorView::Email("invalid_format"@)]
    } else {
        seq![]
    }
}

/// What is wrong with the password, if anything.
pub open spec fn spec_password_error(raw: Seq<char>) -> Seq<RegistrationErrorView> {
    if raw.len() < 3 {
        seq![RegistrationErrorView::Password("too_short"@)]
    } else if raw.len() > 30 {
        seq![RegistrationErrorView::Password("too_long"@)]
    } else {
        seq![]
    }
}

/// The recaptcha failure, given by its text.
pub open spec fn spec_recaptcha_error(recaptcha: Result<(), Seq<char>>) -> Seq<RegistrationErrorView> {
    match recaptcha {
        Ok(()) => seq![],
        Err(t) => seq![RegistrationErrorView::Recaptcha(t)],
    }
}

/// All that is wrong with the form, field by field.
pub open spec fn spec_registration_errors(
    user_name: Seq<char>,
    email: Seq<char>,
    password: Seq<char>,
    recaptcha: Result<(), Seq<char>>,
) -> Seq<RegistrationErrorView> {
    spec_user_name_error(user_name) + spec_email_error(email) + spec_password_error(password)
        + spec_recaptcha_error(recaptcha)
}

fn push_error(errors: &mut Vec<RegistrationError>, e: RegistrationError)
    ensures
        spec_error_views(final(errors)@) == spec_error_views(old(errors)@).push(e@),
{
    errors.push(e);
    proof {
        assert(spec_error_views(final(errors)@) =~= spec_error_views(old(errors)@).push(e@));
    }
}

/// Validates the registration form; the outcome of the recaptcha check is
/// given, with the text of its failure. Every refused field is reported.
pub fn validate_input(params: &RegistrationParams, recaptcha: Result<(), String>) -> (r: Result<
    (ValidatedName, Option<ValidatedEmail>, ValidatedPassword),
    Vec<RegistrationError>,
>)
    ensures
        ({
            let expected = spec_registration_errors(
                params.user_name@,
                params.email@,
                params.password@,
                match recaptcha {
                    Ok(()) => Ok(()),
                    Err(t) => Err(t@),
                },
            );
            match r {
                Ok((name, email, password)) => {
                    &&& expected.len() == 0
                    &&& name@ == spec_encode_safe_key(params.user_name@)
                    &&& if params.email@.len() == 0 {
                        email is None
                    } else {
                        email matches Some(e) && e@ == spec_encode_safe_key(params.email@)
                    }
                    &&& password@ == params.password@
                },
                Err(errors) => expected.len() > 0 && spec_error_views(errors@) == expected,
            }
        }),
{
    let mut errors: Vec<RegistrationError> = Vec::new();
    let ghost rc: Result<(), Seq<char>> = match recaptcha {
        Ok(()) => Ok(()),
        Err(ref t) => Err(t@),
    };

    let name = match ValidatedName::from_raw(params.user_name.as_str()) {
        Ok(name) => Some(name),
        Err(NameValidationError::TooShort) => {
            push_error(&mut errors, RegistrationError::Username("too_short".to_owned()));
            None
        },
        Err(NameValidationError::TooLong) => {
            push_error(&mut errors, RegistrationError::Username("too_long".to_owned()));
            None
        },
        Err(NameValidationError::InvalidCharacter(_)) => {
            push_error(&mut errors, RegistrationError::Username("invalid_character".to_owned()));
            None
        },
    };
    assert(spec_error_views(errors@) =~= spec_user_name_error(params.user_name@));

    let email = if !params.email.as_str().is_empty() {
        match ValidatedEmail::from_raw(params.email.as_str()) {
            Ok(email) => Some(email),
            Err(_) => {
                push_error(&mut errors, RegistrationError::Email("invalid_format".to_owned()));
                None
            },
        }
    } else {
        None
    };
    assert(spec_error_views(errors@) =~= spec_user_name_error(params.user_name@) + spec_email_error(params.email@));

    let password = match ValidatedPassword::from_raw(params.password.as_str()) {
        Ok(p) => Some(p),
        Err(PasswordValidationError::TooShort) => {
            push_error(&mut errors, RegistrationError::Password("too_short".to_owned()));
            None
        },
        Err(PasswordValidationError::TooLong) => {
            push_error(&mut errors, RegistrationError::Password("too_long".to_owned()));
            None
        },
        Err(PasswordValidationError::TooWeek) => None,
    };
    assert(spec_error_views(errors@) =~= spec_user_name_error(params.user_name@) + spec_email_error(params.email@)
        + spec_password_error(params.password@));

    match recaptcha {
        Ok(()) => {},
        Err(t) => push_error(&mut errors, RegistrationError::Recaptcha(t)),
    }
    assert(spec_error_views(errors@) =~= spec_registration_errors(
        params.user_name@, params.email@, params.password@, rc));

    if errors.len() == 0 {
        match (name, password) {
            (Some(name), Some(password)) => Ok((name, email, password)),
            _ => {
                proof {
                    assert(false);
                }
                Err(errors)
            },
        }
    } else {
        Err(errors)
    }
}

/// What a failed registration reports: a taken name or email on its field,
/// anything else as a server error with the error's debug text.
pub fn registration_errors(err: &IAMError, debug_text: &str) -> (r: Vec<RegistrationError>)
    ensures
        spec_error_views(r@) == match *err {
            IAMError::NameTaken => seq![RegistrationErrorView::Username("already_taken"@)],
            IAMError::EmailTaken => seq![RegistrationErrorView::Email("already_taken"@)],
            _ => seq![RegistrationErrorView::Server("server_error:"@ + debug_text@)],
        },
{
    let mut v: Vec<RegistrationError> = Vec::new();
    match err {
        IAMError::NameTaken => push_error(&mut v, RegistrationError::Username("already_taken".to_owned())),
        IAMError::EmailTaken => push_error(&mut v, RegistrationError::Email("already_taken".to_owned())),
        _ => {
            let mut m: Vec<char> = Vec::new();
            push_str(&mut m, "server_error:");
            push_str(&mut m, debug_text);
            push_error(&mut v, RegistrationError::Server(string_from_chars(&m)));
        },
    }
    assert(spec_error_views(Seq::<RegistrationError>::empty()) =~= Seq::<RegistrationErrorView>::empty());
    v
}


/// The field of the form that an error refuses.
pub enum ErrorField {
    UserName,
    Email,
    Password,
    Server,
    Recaptcha,
}

/// The field that an error refuses, and its message.
pub open spec fn spec_error_entry(e: RegistrationErrorView) -> (ErrorField, Seq<char>) {
    match e {
        RegistrationErrorView::Username(m) => (ErrorField::UserName, m),
        RegistrationErrorView::Email(m) => (ErrorField::Email, m),
        RegistrationErrorView::Password(m) => (ErrorField::Password, m),
        RegistrationErrorView::Server(m) => (ErrorField::Server, m),
        RegistrationErrorView::Recaptcha(m) => (ErrorField::Recaptcha, m),
    }
}

/// The message of the last error of a field; empty if there is none.
pub open spec fn spec_last_error(errors: Seq<RegistrationErrorView>, field: ErrorField) -> Seq<char>
    decreases errors.len(),
{
    if errors.len() == 0 {
        Seq::empty()
    } else if spec_error_entry(errors.last()).0 == field {
        spec_error_entry(errors.last()).1
    } else {
        spec_last_error(errors.drop_last(), field)
    }
}

/// A text of the submitted form, or empty without a form.
pub open spec fn spec_form_text(params: Option<RegistrationParams>, field: spec_fn(RegistrationParams) -> Seq<char>) -> Seq<char> {
    match params {
        Some(p) => field(p),
        None => Seq::empty(),
    }
}

/// The values the registration page is rendered with: the submitted form,
/// the tokens, the length limits and the message of each refused field.
pub open spec fn spec_registration_context(
    keys: Keys,
    params: Option<RegistrationParams>,
    errors: Seq<RegistrationErrorView>,
) -> Seq<(Seq<char>, Seq<char>)> {
    seq![
        ("user_name"@, spec_form_text(params, |p: RegistrationParams| p.user_name@)),
        ("email"@, spec_form_text(params, |p: RegistrationParams| p.email@)),
        ("password"@, spec_form_text(params, |p: RegistrationParams| p.password@)),
        ("accept_terms"@, spec_form_text(params, |p: RegistrationParams| if p.accept_terms { "true"@ } else { "false"@ })),
        ("af_token"@, keys.af@),
        ("recaptcha_site_key"@, keys.recaptcha_site_key@),
        ("user_name_min_len"@, spec_decimal(3)),
        ("user_name_max_len"@, spec_decimal(30)),
        ("password_min_len"@, spec_decimal(3)),
        ("password_max_len"@, spec_decimal(30)),
        ("user_name_error"@, spec_last_error(errors, ErrorField::UserName)),
        ("email_error"@, spec_last_error(errors, ErrorField::Email)),
        ("password_error"@, spec_last_error(errors, ErrorField::Password)),
        ("server_error"@, spec_last_error(errors, ErrorField::Server)),
        ("recaptcha_error"@, spec_last_error(errors, ErrorField::Recaptcha)),
    ]
}

/// The views of a list of page values.
pub open spec fn spec_entry_views(v: Seq<(String, String)>) -> Seq<(Seq<char>, Seq<char>)> {
    v.map_values(|e: (String, String)| (e.0@, e.1@))
}

fn entry(key: &str, value: String) -> (e: (String, String))
    ensures
        e.0@ == key@,
        e.1@ == value@,
{
    (key.to_owned(), value)
}

/// The values the registration page is rendered with.
pub fn page_context(keys: &Keys, params: Option<&RegistrationParams>, errors: Option<&Vec<RegistrationError>>) -> (r: Vec<(String, String)>)
    ensures
        spec_entry_views(r@) == spec_registration_context(
            *keys,
            match params {
                Some(p) => Some(*p),
                None => None,
            },
            match errors {
                Some(e) => spec_error_views(e@),
                None => Seq::empty(),
            },
        ),
{
    let ghost ps: Option<RegistrationParams> = match params {
        Some(p) => Some(*p),
        None => None,
    };
    let ghost ev: Seq<RegistrationErrorView> = match errors {
        Some(e) => spec_error_views(e@),
        None => Seq::empty(),
    };
    let (user_name, email, password, accept_terms) = match params {
        Some(p) => (
            p.user_name.clone(),
            p.email.clone(),
            p.password.clone(),
            if p.accept_terms { "true".to_owned() } else { "false".to_owned() },
        ),
        None => (String::new(), String::new(), String::new(), String::new()),
    };
    let mut user_name_error = String::new();
    let mut email_error = String::new();
    let mut password_error = String::new();
    let mut server_error = String::new();
    let mut recaptcha_error = String::new();
    match errors {
        Some(errors) => {
            let mut i: usize = 0;
            while i < errors.len()
                invariant
                    i <= errors@.len(),
                    ev == spec_error_views(errors@),
                    user_name_error@ == spec_last_error(ev.take(i as int), ErrorField::UserName),
                    email_error@ == spec_last_error(ev.take(i as int), ErrorField::Email),
                    password_error@ == spec_last_error(ev.take(i as int), ErrorField::Password),
                    server_error@ == spec_last_error(ev.take(i as int), ErrorField::Server),
                    recaptcha_error@ == spec_last_error(ev.take(i as int), ErrorField::Recaptcha),
                decreases errors@.len() - i,
            {
                proof {
                    assert(ev.take(i + 1).drop_last() =~= ev.take(i as int));
                    assert(ev.take(i + 1).last() == errors@[i as int]@);
                }
                match &errors[i] {
                    RegistrationError::Username(m) => user_name_error = m.clone(),
                    RegistrationError::Email(m) => email_error = m.clone(),
                    RegistrationError::Password(m) => password_error = m.clone(),
                    RegistrationError::Server(m) => server_error = m.clone(),
                    RegistrationError::Recaptcha(m) => recaptcha_error = m.clone(),
                }
                i = i + 1;
            }
            assert(ev.take(i as int) =~= ev);
        },
        None => {},
    }
    let mut r: Vec<(String, String)> = Vec::new();
    r.push(entry("user_name", user_name));
    r.push(entry("email", email));
    r.push(entry("password", password));
    r.push(entry("accept_terms", accept_terms));
    r.push(entry("af_token", keys.af.clone()));
    r.push(entry("recaptcha_site_key", keys.recaptcha_site_key.clone()));
    r.push(entry("user_name_min_len", decimal_string(ValidatedName::MIN_LEN as u64)));
    r.push(entry("user_name_max_len", decimal_string(ValidatedName::MAX_LEN as u64)));
    r.push(entry("password_min_len", decimal_string(ValidatedPassword::MIN_LEN as u64)));
    r.push(entry("password_max_len", decimal_string(ValidatedPassword::MAX_LEN as u64)));
    r.push(entry("user_name_error", user_name_error));
    r.push(entry("email_error", email_error));
    r.push(entry("password_error", password_error));
    r.push(entry("server_error", server_error));
    r.push(entry("recaptcha_error", recaptcha_error));
    proof {
        assert(spec_entry_views(r@) =~= spec_registration_context(*keys, ps, ev));
    }
    r
}

} // verus!
