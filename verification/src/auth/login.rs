//! The login page: validation of the submitted form, the values the page
//! is rendered with, and how a failed login is reported.
use vstd::prelude::*;
use crate::auth::iam::IAMError;
use crate::auth::iam::identity::{ValidatedEmail, ValidatedName, ValidatedPassword};
use crate::auth::iam::identity::input_validation::{spec_identifier_allowed, spec_validate_email};
use crate::auth::registration::{Keys, spec_entry_views};
use crate::azure_utils::spec_encode_safe_key;
use crate::text::{push_str, string_from_chars};

verus! {

/// Why a login was refused.
#[derive(Debug, Clone)]
pub enum LoginError {
    Username,
    Password,
    Server(String),
    Recaptcha,
}

/// Why a login was refused, by views.
pub enum LoginErrorView {
    Username,
    Password,
    Server(Seq<char>),
    Recaptcha,
}

impl View for LoginError {
    type V = LoginErrorView;

    open spec fn view(&self) -> LoginErrorView {
        match self {
            LoginError::Username => LoginErrorView::Username,
            LoginError::Password => LoginErrorView::Password,
            LoginError::Server(m) => LoginErrorView::Server(m@),
            LoginError::Recaptcha => LoginErrorView::Recaptcha,
        }
    }
}

/// The views of a list of login errors.
pub open spec fn spec_login_error_views(errors: Seq<LoginError>) -> Seq<LoginErrorView> {
    errors.map_values(|e: LoginError| e@)
}

/// The submitted login form.
#[derive(Debug, Clone)]
pub struct LoginParams {
    pub user: String,
    pub password: String,
    pub af: String,
    pub recaptcha_response: String,
}

/// Whom to log in: the user given by name, or by email.
#[derive(Debug)]
pub enum LoginTarget {
    Name(ValidatedName),
    Email(ValidatedEmail),
}

/// A user text that `ValidatedName::from_raw` accepts.
pub open spec fn spec_accepted_name(raw: Seq<char>) -> bool {
    &&& !exists|c: char| raw.contains(c) && spec_identifier_allowed(c)
    &&& 3 <= raw.len() <= 30
}

/// Validates the login form; the outcome of the recaptcha check is given.
/// The user text is read both as a name and as an email. A refused
/// password with a passed recaptcha is not handled (the form is taken to
/// have been checked by the page).
pub fn validate_input(params: &LoginParams, recaptcha_ok: bool) -> (r: Result<
    (Option<ValidatedName>, Option<ValidatedEmail>, ValidatedPassword),
    Vec<LoginError>,
>)
    requires
        recaptcha_ok ==> 3 <= params.password@.len() <= 30,
    ensures
        !recaptcha_ok ==> (r matches Err(errors) && spec_login_error_views(errors@) == seq![LoginErrorView::Recaptcha]),
        recaptcha_ok ==> (r matches Ok((name, email, password)) && {
            &&& if spec_accepted_name(params.user@) {
                name matches Some(n) && n@ == spec_encode_safe_key(params.user@)
            } else {
                name is None
            }
            &&& if spec_validate_email(params.user@) {
                email matches Some(e) && e@ == spec_encode_safe_key(params.user@)
            } else {
                email is None
            }
            &&& password@ == params.password@
        }),
{
    let name = match ValidatedName::from_raw(params.user.as_str()) {
        Ok(n) => Some(n),
        Err(_) => None,
    };
    let email = match ValidatedEmail::from_raw(params.user.as_str()) {
        Ok(e) => Some(e),
        Err(_) => None,
    };
    let password = ValidatedPassword::from_raw(params.password.as_str());
    if !recaptcha_ok {
        let mut errors: Vec<LoginError> = Vec::new();
        errors.push(LoginError::Recaptcha);
        assert(spec_login_error_views(errors@) =~= seq![LoginErrorView::Recaptcha]);
        return Err(errors);
    }
    match password {
        Ok(p) => Ok((name, email, p)),
        Err(_) => {
            proof {
                assert(false);
            }
            Err(Vec::new())
        },
    }
}

/// The user to log in: by name if the text is a name, else by email.
pub fn login_target(name: Option<ValidatedName>, email: Option<ValidatedEmail>) -> (r: Result<LoginTarget, IAMError>)
    ensures
        match (name, email) {
            (Some(n), _) => r matches Ok(LoginTarget::Name(m)) && m@ == n@,
            (None, Some(e)) => r matches Ok(LoginTarget::Email(f)) && f@ == e@,
            (None, None) => r matches Err(IAMError::IdentityNotFound),
        },
{
    match name {
        Some(n) => Ok(LoginTarget::Name(n)),
        None => match email {
            Some(e) => Ok(LoginTarget::Email(e)),
            None => Err(IAMError::IdentityNotFound),
        },
    }
}

/// What a failed login reports.
pub fn login_errors(err: &IAMError, debug_text: &str) -> (r: Vec<LoginError>)
    ensures
        spec_login_error_views(r@) == match *err {
            IAMError::IdentityNotFound => seq![LoginErrorView::Username],
            IAMError::PasswordNotMatching => seq![LoginErrorView::Password],
            _ => seq![LoginErrorView::Server("server_error:"@ + debug_text@)],
        },
{
    let mut v: Vec<LoginError> = Vec::new();
    match err {
        IAMError::IdentityNotFound => v.push(LoginError::Username),
        IAMError::PasswordNotMatching => v.push(LoginError::Password),
        _ => {
            let mut m: Vec<char> = Vec::new();
            push_str(&mut m, "server_error:");
            push_str(&mut m, debug_text);
            v.push(LoginError::Server(string_from_chars(&m)));
        },
    }
    proof {
        assert(spec_login_error_views(v@) =~= match *err {
            IAMError::IdentityNotFound => seq![LoginErrorView::Username],
            IAMError::PasswordNotMatching => seq![LoginErrorView::Password],
            _ => seq![LoginErrorView::Server("server_error:"@ + debug_text@)],
        });
    }
    v
}

/// The page value that an error sets: the validity of the credentials, or
/// the server error.
pub open spec fn spec_sets_validity(e: LoginErrorView) -> bool {
    !(e is Server)
}

/// The validity text of an error.
pub open spec fn spec_validity_text(e: LoginErrorView) -> Seq<char> {
    match e {
        LoginErrorView::Recaptcha => "err:recaptche"@,
        _ => "err:password_or_name"@,
    }
}

/// The validity text of the last error that sets it; empty if none does.
pub open spec fn spec_validity(errors: Seq<LoginErrorView>) -> Seq<char>
    decreases errors.len(),
{
    if errors.len() == 0 {
        Seq::empty()
    } else if spec_sets_validity(errors.last()) {
        spec_validity_text(errors.last())
    } else {
        spec_validity(errors.drop_last())
    }
}

/// The message of the last server error; empty if there is none.
pub open spec fn spec_server_error(errors: Seq<LoginErrorView>) -> Seq<char>
    decreases errors.len(),
{
    if errors.len() == 0 {
        Seq::empty()
    } else {
        match errors.last() {
            LoginErrorView::Server(m) => m,
            _ => spec_server_error(errors.drop_last()),
        }
    }
}

/// The values the login page is rendered with: the submitted user, the
/// tokens, and what the errors say.
pub open spec fn spec_login_context(keys: Keys, user: Option<Seq<char>>, errors: Seq<LoginErrorView>) -> Seq<(Seq<char>, Seq<char>)> {
    seq![
        ("user"@, match user { Some(u) => u, None => Seq::empty() }),
        ("af_token"@, keys.af@),
        ("recaptcha_site_key"@, keys.recaptcha_site_key@),
        ("validity"@, spec_validity(errors)),
        ("server_error"@, spec_server_error(errors)),
    ]
}

/// The values the login page is rendered with.
pub fn page_context(keys: &Keys, params: Option<(&LoginParams, &Vec<LoginError>)>) -> (r: Vec<(String, String)>)
    ensures
        spec_entry_views(r@) == match params {
            Some((p, errors)) => spec_login_context(*keys, Some(p.user@), spec_login_error_views(errors@)),
            None => spec_login_context(*keys, None, Seq::empty()),
        },
{
    let mut user = String::new();
    let mut validity = String::new();
    let mut server_error = String::new();
    let ghost ev: Seq<LoginErrorView> = match params {
        Some((_, errors)) => spec_login_error_views(errors@),
        None => Seq::empty(),
    };
    match params {
        Some((p, errors)) => {
            user = p.user.clone();
            let mut i: usize = 0;
            while i < errors.len()
                invariant
                    i <= errors@.len(),
                    ev == spec_login_error_views(errors@),
                    validity@ == spec_validity(ev.take(i as int)),
                    server_error@ == spec_server_error(ev.take(i as int)),
                decreases errors@.len() - i,
            {
                proof {
                    assert(ev.take(i + 1).drop_last() =~= ev.take(i as int));
                    assert(ev.take(i + 1).last() == errors@[i as int]@);
                }
                match &errors[i] {
                    LoginError::Username => validity = "err:password_or_name".to_owned(),
                    LoginError::Password => validity = "err:password_or_name".to_owned(),
                    LoginError::Recaptcha => validity = "err:recaptche".to_owned(),
                    LoginError::Server(m) => server_error = m.clone(),
                }
                i = i + 1;
            }
            assert(ev.take(i as int) =~= ev);
        },
        None => {},
    }
    let mut r: Vec<(String, String)> = Vec::new();
    r.push(("user".to_owned(), user));
    r.push(("af_token".to_owned(), keys.af.clone()));
    r.push(("recaptcha_site_key".to_owned(), keys.recaptcha_site_key.clone()));
    r.push(("validity".to_owned(), validity));
    r.push(("server_error".to_owned(), server_error));
    proof {
        let u: Option<Seq<char>> = match params {
            Some((p, _)) => Some(p.user@),
            None => None,
        };
        assert(spec_entry_views(r@) =~= spec_login_context(*keys, u, ev));
    }
    r
}

} // verus!
