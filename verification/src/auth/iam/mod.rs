//! Identity and access management: identities, sessions and roles.
pub mod error;
pub mod fingerprint;
pub mod identity;
pub mod role;
pub mod session;

pub use self::error::IAMError;
pub use self::fingerprint::Fingerprint;

use vstd::prelude::*;
use std::collections::HashSet;
use self::identity::IdentityManager;
use self::role::RoleManager;
use self::session::SessionManager;
use self::session::manager::{InvalidateAllAction, InvalidateAllFlow, SessionCheckAction, SessionCheckFlow};
use crate::text::str_equal;

verus! {

/// Configuration of the identity and access management.
#[derive(Clone, Debug)]
pub struct IAMConfig {
    pub password_pepper: String,
    pub storage_account: String,
    pub storage_account_key: String,
    pub graph_db_host: String,
    pub graph_db_port: u16,
    pub graph_db_user: String,
    pub graph_db_password: String,
    pub ipdataco_key: String,
    pub session_time_to_live_h: u16,

    pub test_token: String,
}


/// The identity and access management: identities, sessions and roles.
#[derive(Clone, Debug)]
pub struct IAM {
    pub identity: IdentityManager,
    pub session: SessionManager,
    pub role: RoleManager,
    pub test_token: String,
}

/// A started invalidation: of one session, or of all the sessions of a user.
#[derive(Debug)]
pub enum SessionInvalidation {
    One(SessionCheckFlow, SessionCheckAction),
    All(InvalidateAllFlow, InvalidateAllAction),
}

impl IAM {
    /// The managers of the configuration.
    pub fn new(config: &IAMConfig) -> (r: IAM)
        ensures
            r.identity.password_pepper@ == config.password_pepper@,
            r.session.time_to_live_ms == config.session_time_to_live_h as int * 3_600_000,
            r.role.host@ == config.graph_db_host@,
            r.role.port == config.graph_db_port,
            r.test_token@ == config.test_token@,
    {
        IAM {
            identity: IdentityManager::new(config),
            session: SessionManager::new(config),
            role: RoleManager::new(config),
            test_token: config.test_token.clone(),
        }
    }

    /// A request may carry a testing token; if it does, it must be the
    /// configured one.
    pub fn check_permission_by_testing_token(&self, testing_token: Option<&str>) -> (r: Result<(), IAMError>)
        ensures
            match testing_token {
                Some(tt) => if tt@ == self.test_token@ { r is Ok } else { r matches Err(IAMError::InsufficientPermission) },
                None => r is Ok,
            },
    {
        match testing_token {
            Some(tt) => {
                if str_equal(self.test_token.as_str(), tt) {
                    Ok(())
                } else {
                    Err(IAMError::InsufficientPermission)
                }
            },
            None => Ok(()),
        }
    }

    /// The testing token is checked, then a session with roles is required.
    pub fn check_permission_by_roles(&self, roles: Option<&HashSet<String>>, testing_token: Option<&str>) -> (r: Result<(), IAMError>)
        ensures
            match testing_token {
                Some(tt) if tt@ != self.test_token@ => r matches Err(IAMError::InsufficientPermission),
                _ => if roles is None { r matches Err(IAMError::SessionRequired) } else { r is Ok },
            },
    {
        match self.check_permission_by_testing_token(testing_token) {
            Ok(()) => {},
            Err(e) => return Err(e),
        }
        match roles {
            Some(_roles) => Ok(()),
            None => Err(IAMError::SessionRequired),
        }
    }

    /// The identity whose roles decide the permission; a session is
    /// required. The roles of the identity are then checked with
    /// `check_permission_by_roles`.
    pub fn check_permission_by_identity(&self, identity_id: Option<&str>) -> (r: Result<String, IAMError>)
        ensures
            match identity_id {
                Some(id) => r matches Ok(i) && i@ == id@,
                None => r matches Err(IAMError::SessionRequired),
            },
    {
        match identity_id {
            Some(id) => Ok(id.to_owned()),
            None => Err(IAMError::SessionRequired),
        }
    }

    /// Logs out a session, or all the sessions of the user (the given
    /// session last).
    pub fn invalidate_session(&self, user_id: &str, session_key: &str, invalidate_all: bool) -> (r: SessionInvalidation)
        ensures
            if invalidate_all {
                r matches SessionInvalidation::All(flow, action) && {
                    &&& flow.id@ == user_id@
                    &&& flow.active_key matches Some(k) && k@ == session_key@
                    &&& !flow.has_conflict
                    &&& flow.stage is AwaitPage
                    &&& action is Query
                }
            } else {
                r matches SessionInvalidation::One(flow, action) && {
                    &&& flow.id@ == user_id@
                    &&& flow.key@ == session_key@
                    &&& flow.operation == self::session::manager::SessionOperation::Invalidate
                    &&& flow.attempt == 0
                    &&& flow.spec_started(action)
                }
            },
    {
        if invalidate_all {
            let (flow, action) = self.session.invalidate_all_session(user_id, Some(session_key));
            SessionInvalidation::All(flow, action)
        } else {
            let (flow, action) = self.session.invalidate_session(user_id, session_key);
            SessionInvalidation::One(flow, action)
        }
    }
}

} // verus!
