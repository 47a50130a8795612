//! The first user service: a registration request and the storage set up
//! of its user tables.
use vstd::prelude::*;

pub mod userdb;

pub use self::userdb::{IdentityConfig, ignore_409};

verus! {

/// A registration request.
#[derive(Debug, Clone)]
pub struct Registration {
    pub name: String,
    pub email: String,
    pub password: String,
}

} // verus!
