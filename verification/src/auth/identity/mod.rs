//! The identity service before the identity and access management: users
//! with encrypted ids, logins and sessions kept in table storage.
use vstd::prelude::*;

pub mod error;
pub mod identity;
pub mod identity_manager;
pub mod identitydb;
pub mod identityentry;
pub mod loginentry;
pub mod manager;
pub mod sessionentry;
pub mod siteinfo;

pub use self::error::IdentityError;
pub use self::siteinfo::SiteInfo;

verus! {

/// Configuration of the identity service.
#[derive(Clone, Debug)]
pub struct IdentityConfig {
    pub password_pepper: String,
    pub identity_id_secret: String,
    pub storage_account: String,
    pub storage_account_key: String,
}

/// A registration request.
#[derive(Debug, Clone)]
pub struct Registration {
    pub name: String,
    pub password: String,
    pub email: Option<String>,
}

} // verus!
