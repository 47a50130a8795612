//! The authentication service: identities, sessions, roles and the pages and
//! endpoints that use them.
use vstd::prelude::*;
use vstd::utf8::encode_utf8;
use crate::auth::iam::IAMConfig;
use crate::text::{push_str, string_from_chars};
use crate::encoding::{base64_decode, spec_base64_decode, spec_decode_error_debug};

pub mod iam;
pub mod identity;
pub mod iam_handler;
pub mod login;
pub mod registration;
pub mod user;
pub mod utils;

verus! {

/// Configuration of the authentication service.
#[derive(Clone, Debug)]
pub struct AuthConfig {
    pub iam: IAMConfig,
    pub tera_templates: String,
    pub recaptcha_secret: String,
    pub recaptcha_site_key: String,
    pub id_session_secret: String,
    pub af_session_secret: String,
}

/// Failure to set up the service; each carries the debug text of its cause.
#[derive(Debug, Clone)]
pub enum AuthCreateError {
    ConfigureTera(String),
    ConfigureIAM(String),
    ConfigureDecodeSecret(String),
}

/// The text that describes a set up failure.
pub open spec fn spec_auth_create_error_text(err: AuthCreateError) -> Seq<char> {
    match err {
        AuthCreateError::ConfigureTera(e) => "Error in tera configuration: "@ + e@,
        AuthCreateError::ConfigureIAM(e) => "Error in IAM configuration: "@ + e@,
        AuthCreateError::ConfigureDecodeSecret(e) => "Error during secret configuration: "@ + e@,
    }
}

impl AuthCreateError {
    /// The text that describes the failure.
    pub fn to_display_string(&self) -> (s: String)
        ensures
            s@ == spec_auth_create_error_text(*self),
    {
        let mut v: Vec<char> = Vec::new();
        match self {
            AuthCreateError::ConfigureTera(e) => {
                push_str(&mut v, "Error in tera configuration: ");
                push_str(&mut v, e.as_str());
            },
            AuthCreateError::ConfigureIAM(e) => {
                push_str(&mut v, "Error in IAM configuration: ");
                push_str(&mut v, e.as_str());
            },
            AuthCreateError::ConfigureDecodeSecret(e) => {
                push_str(&mut v, "Error during secret configuration: ");
                push_str(&mut v, e.as_str());
            },
        }
        string_from_chars(&v)
    }
}

/// The secrets of the identity cookie and of the anti-forgery cookie, from
/// their base64 text in the configuration (the identity secret first).
pub fn decode_session_secrets(config: &AuthConfig) -> (r: Result<(Vec<u8>, Vec<u8>), AuthCreateError>)
    requires
        encode_utf8(config.id_session_secret@).len() <= usize::MAX / 8,
        encode_utf8(config.af_session_secret@).len() <= usize::MAX / 8,
    ensures
        ({
            let id = spec_base64_decode(encode_utf8(config.id_session_secret@));
            let af = spec_base64_decode(encode_utf8(config.af_session_secret@));
            match (id, af) {
                (Err(e), _) => r matches Err(AuthCreateError::ConfigureDecodeSecret(m)) && m@ == spec_decode_error_debug(e),
                (Ok(_), Err(e)) => r matches Err(AuthCreateError::ConfigureDecodeSecret(m)) && m@ == spec_decode_error_debug(e),
                (Ok(i), Ok(a)) => r matches Ok((is, as_)) && is@ == i && as_@ == a,
            }
        }),
{
    let id = match base64_decode(config.id_session_secret.as_str().as_bytes()) {
        Ok(v) => v,
        Err(e) => return Err(AuthCreateError::ConfigureDecodeSecret(e.debug_text())),
    };
    let af = match base64_decode(config.af_session_secret.as_str().as_bytes()) {
        Ok(v) => v,
        Err(e) => return Err(AuthCreateError::ConfigureDecodeSecret(e.debug_text())),
    };
    Ok((id, af))
}

} // verus!
