//! The request parameters of the identity endpoints and the decisions the
//! endpoints make around the identity and access management.
use vstd::prelude::*;
use crate::auth::iam::IAMError;

verus! {

/// Parameters of a registration through the API.
#[derive(Debug, Clone)]
pub struct RegistrationParams {
    pub name: String,
    pub password: String,
    pub email: Option<String>,
    pub af: String,
}

/// Parameters of a refresh by session key.
#[derive(Debug, Clone)]
pub struct RefreshKeyParams {
    pub key: String,
}

/// Parameters of a logout: `force` logs out all the sessions of the user.
#[derive(Debug, Clone)]
pub struct LogoutParams {
    pub force: bool,
}

/// The session key and the user id of the identity cookie; both are
/// required (the key is looked at first).
pub fn session_credentials(session_key: Option<String>, user_id: Option<String>) -> (r: Result<(String, String), IAMError>)
    ensures
        match (session_key, user_id) {
            (Some(k), Some(u)) => r matches Ok((key, user)) && key@ == k@ && user@ == u@,
            _ => r matches Err(IAMError::SessionRequired),
        },
{
    let key = match session_key {
        Some(k) => k,
        None => return Err(IAMError::SessionRequired),
    };
    let user = match user_id {
        Some(u) => u,
        None => return Err(IAMError::SessionRequired),
    };
    Ok((key, user))
}

/// Whether a failed refresh keeps the identity cookie: only a conflicting
/// update does, as the session is still valid then.
pub fn keeps_identity_cookie(err: &IAMError) -> (r: bool)
    ensures
        r == (*err is SessionKeyConflict),
{
    match err {
        IAMError::SessionKeyConflict => true,
        _ => false,
    }
}

/// The password of basic authentication; without one the login fails as a
/// mismatching password.
pub fn basic_auth_password(password: Option<&str>) -> (r: Result<&str, IAMError>)
    ensures
        match password {
            Some(p) => r matches Ok(q) && q@ == p@,
            None => r matches Err(IAMError::PasswordNotMatching),
        },
{
    match password {
        Some(p) => Ok(p),
        None => Err(IAMError::PasswordNotMatching),
    }
}

} // verus!
