//! The identity store of the identity service: user identities with random
//! ids, their name and email indices, and the sessions of the users. The
//! storage itself is driven by the caller; this module decides what to
//! store, check and answer.
use vstd::prelude::*;
use vstd::utf8::encode_utf8;
use crate::auth::identity::{IdentityConfig, IdentityError};
use crate::encoding::{base64_decode, spec_base64_decode, spec_decode_error_text};

pub mod identity;
pub mod session;

pub use self::identity::{
    EmailIndex, EmailIndexData, IdentityCategory, IdentityCore, IdentityData, IdentityIndexData,
    IdentityIndexedId, NameIndex, NameIndexData, UserIdentity, UserIdentityData,
};
pub use self::session::{Session, SessionData, SessionIndex, SessionIndexData};

verus! {

/// The secrets of the identity store; the tables and the id sequence are
/// held by the caller.
#[derive(Clone, Debug)]
pub struct IdentityManager {
    pub password_pepper: String,
    pub identity_id_secret: Vec<u8>,
}

impl IdentityManager {
    /// The identity store of the configuration: the identity id secret is
    /// given in base64.
    pub fn new(config: &IdentityConfig) -> (r: Result<IdentityManager, IdentityError>)
        requires
            encode_utf8(config.identity_id_secret@).len() <= usize::MAX / 8,
        ensures
            match spec_base64_decode(encode_utf8(config.identity_id_secret@)) {
                Ok(s) => r matches Ok(m) && m.password_pepper@ == config.password_pepper@
                    && m.identity_id_secret@ == s,
                Err(e) => r matches Err(IdentityError::Encryption(m)) && m@ == spec_decode_error_text(e),
            },
    {
        match base64_decode(config.identity_id_secret.as_str().as_bytes()) {
            Ok(identity_id_secret) => Ok(IdentityManager {
                password_pepper: config.password_pepper.clone(),
                identity_id_secret,
            }),
            Err(e) => Err(IdentityError::Encryption(e.to_display_string())),
        }
    }
}

} // verus!
