use vstd::prelude::*;
use crate::azure_utils::StorageError;
use crate::backoff::BackoffError;
use crate::idsequence::IdSequenceError;
use crate::idsequence::error::spec_id_sequence_error_text;
use crate::text::{push_str, push_chars, str_chars, string_from_chars};

verus! {

/// Failures of the identity and access management.
#[derive(Debug, Clone)]
pub enum IAMError {
    /// Database related error
    Internal(String),
    BadRequest(String),

    NameInvalid(String),
    NameTaken,
    EmailInvalid(String),
    EmailTaken,

    SequenceIdTaken,
    IdentityIdConflict,
    IdentityNotFound,
    PasswordNotMatching,
    SessionRequired,
    SessionExpired,
    SessionKeyConflict,

    RoleNotFound,
    RoleTaken,
    HasRoleTaken,
    HasRoleCycle(Vec<String>),

    InsufficientPermission,
}

/// The failures worth retrying: a freshly generated id or key collided with
/// an existing one.
pub open spec fn spec_is_transient(err: IAMError) -> bool {
    err is IdentityIdConflict || err is SessionKeyConflict
}

/// The message of the internal error reported for an id sequence failure.
pub open spec fn spec_id_sequence_message(err: IdSequenceError) -> Seq<char> {
    match err {
        IdSequenceError::SequenceEnded => "ID sequence out of values"@,
        e => "Sequence error: "@ + spec_id_sequence_error_text(e),
    }
}

impl IAMError {
    /// Classifies the error for the retry policy.
    pub fn into_backoff(self) -> (r: BackoffError<IAMError>)
        ensures
            spec_is_transient(self) ==> r == BackoffError::Transient(self),
            !spec_is_transient(self) ==> r == BackoffError::Permanent(self),
    {
        match self {
            IAMError::IdentityIdConflict => BackoffError::Transient(IAMError::IdentityIdConflict),
            IAMError::SessionKeyConflict => BackoffError::Transient(IAMError::SessionKeyConflict),
            e => BackoffError::Permanent(e),
        }
    }

    /// The error reported for a failure of the table storage.
    pub fn from_storage_error(err: &StorageError) -> (r: IAMError)
        ensures
            r matches IAMError::Internal(m) && m@ == err.spec_describe(),
    {
        IAMError::Internal(err.describe())
    }

    /// The error reported for a failure of the id sequence.
    pub fn from_id_sequence_error(err: &IdSequenceError) -> (r: IAMError)
        ensures
            r matches IAMError::Internal(m) && m@ == spec_id_sequence_message(*err),
    {
        match err {
            IdSequenceError::SequenceEnded => IAMError::Internal("ID sequence out of values".to_owned()),
            e => {
                let mut v: Vec<char> = Vec::new();
                push_str(&mut v, "Sequence error: ");
                let t = e.to_display_string();
                let tv = str_chars(t.as_str());
                push_chars(&mut v, &tv);
                IAMError::Internal(string_from_chars(&v))
            },
        }
    }

    /// The error reported when the anti-forgery token does not match.
    pub fn from_anti_forgery_error() -> (r: IAMError)
        ensures
            r matches IAMError::BadRequest(m) && m@ == "AF check failed"@,
    {
        IAMError::BadRequest("AF check failed".to_owned())
    }

    /// The error reported when the request information cannot be read; the
    /// message is that of the failure.
    pub fn from_request_info_error(message: &str) -> (r: IAMError)
        ensures
            r matches IAMError::BadRequest(m) && m@ == message@,
    {
        IAMError::BadRequest(message.to_owned())
    }

    /// The error reported for a failure of the graph database or of the ip
    /// location service; the message is that of the failure.
    pub fn from_service_error(message: &str) -> (r: IAMError)
        ensures
            r matches IAMError::Internal(m) && m@ == message@,
    {
        IAMError::Internal(message.to_owned())
    }
}

} // verus!
