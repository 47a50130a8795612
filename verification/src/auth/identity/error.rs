use vstd::prelude::*;
use crate::azure_utils::StorageError;
use crate::backoff::BackoffError;
use crate::idsequence::IdSequenceError;
use crate::idsequence::error::spec_id_sequence_error_text;
use crate::text::{push_str, string_from_chars};

verus! {

/// Failures of the identity service.
#[derive(Debug, Clone)]
pub enum IdentityError {
    /// Database related error
    DB(String),
    Encryption(String),
    InvalidName,
    InvalidEmail,
    NameTaken,
    EmailTaken,
    IdentityNotFound,
    PasswordNotMatching,
    IdentityIdConflict,
    SessionKeyConflict,
    SessionRequired,
    SessionExpired,
}

/// The failures worth retrying: a generated id or key collided.
pub open spec fn spec_is_transient_identity_error(err: IdentityError) -> bool {
    err is IdentityIdConflict || err is SessionKeyConflict
}

/// The message of a failed id sequence.
pub open spec fn spec_sequence_failure(err: IdSequenceError) -> Seq<char> {
    match err {
        IdSequenceError::SequenceEnded => "ID sequence out of values"@,
        e => "Sequence error: "@ + spec_id_sequence_error_text(e),
    }
}

/// The text that describes a failure.
pub open spec fn spec_identity_error_text(err: IdentityError) -> Seq<char> {
    match err {
        IdentityError::DB(e) => "DB, "@ + e@,
        IdentityError::Encryption(e) => "Encryption, encryption failed: "@ + e@,
        IdentityError::InvalidName => "Invalid name"@,
        IdentityError::InvalidEmail => "Invalid email"@,
        IdentityError::NameTaken => "Name already taken"@,
        IdentityError::EmailTaken => "Email already taken"@,
        IdentityError::IdentityIdConflict => "Identity id already in use"@,
        IdentityError::SessionKeyConflict => "Login key already in use"@,
        IdentityError::IdentityNotFound => "Identity not found"@,
        IdentityError::PasswordNotMatching => "Invalid user or password"@,
        IdentityError::SessionRequired => "Login required"@,
        IdentityError::SessionExpired => "Login expired"@,
    }
}

/// The HTTP status that answers a failure.
pub open spec fn spec_identity_error_status(err: IdentityError) -> u16 {
    match err {
        IdentityError::InvalidEmail => 400,
        IdentityError::InvalidName => 400,
        IdentityError::Encryption(_) => 400,
        IdentityError::NameTaken => 409,
        IdentityError::EmailTaken => 409,
        IdentityError::IdentityIdConflict => 429,
        IdentityError::SessionKeyConflict => 429,
        IdentityError::IdentityNotFound => 403,
        IdentityError::PasswordNotMatching => 403,
        IdentityError::SessionRequired => 401,
        IdentityError::SessionExpired => 401,
        IdentityError::DB(_) => 500,
    }
}

impl IdentityError {
    /// Classifies the error for the retry policy.
    pub fn into_backoff(self) -> (r: BackoffError<IdentityError>)
        ensures
            spec_is_transient_identity_error(self) ==> r == BackoffError::Transient(self),
            !spec_is_transient_identity_error(self) ==> r == BackoffError::Permanent(self),
    {
        match self {
            IdentityError::IdentityIdConflict => BackoffError::Transient(IdentityError::IdentityIdConflict),
            IdentityError::SessionKeyConflict => BackoffError::Transient(IdentityError::SessionKeyConflict),
            e => BackoffError::Permanent(e),
        }
    }

    /// The text that describes the failure.
    pub fn to_display_string(&self) -> (s: String)
        ensures
            s@ == spec_identity_error_text(*self),
    {
        let mut v: Vec<char> = Vec::new();
        match self {
            IdentityError::DB(e) => {
                push_str(&mut v, "DB, ");
                push_str(&mut v, e.as_str());
            },
            IdentityError::Encryption(e) => {
                push_str(&mut v, "Encryption, encryption failed: ");
                push_str(&mut v, e.as_str());
            },
            IdentityError::InvalidName => push_str(&mut v, "Invalid name"),
            IdentityError::InvalidEmail => push_str(&mut v, "Invalid email"),
            IdentityError::NameTaken => push_str(&mut v, "Name already taken"),
            IdentityError::EmailTaken => push_str(&mut v, "Email already taken"),
            IdentityError::IdentityIdConflict => push_str(&mut v, "Identity id already in use"),
            IdentityError::SessionKeyConflict => push_str(&mut v, "Login key already in use"),
            IdentityError::IdentityNotFound => push_str(&mut v, "Identity not found"),
            IdentityError::PasswordNotMatching => push_str(&mut v, "Invalid user or password"),
            IdentityError::SessionRequired => push_str(&mut v, "Login required"),
            IdentityError::SessionExpired => push_str(&mut v, "Login expired"),
        }
        proof {
            assert(v@ =~= spec_identity_error_text(*self));
        }
        string_from_chars(&v)
    }

    /// The HTTP status that answers the failure.
    pub fn status_code(&self) -> (r: u16)
        ensures
            r == spec_identity_error_status(*self),
    {
        match self {
            IdentityError::InvalidEmail => 400,
            IdentityError::InvalidName => 400,
            IdentityError::Encryption(_) => 400,
            IdentityError::NameTaken => 409,
            IdentityError::EmailTaken => 409,
            IdentityError::IdentityIdConflict => 429,
            IdentityError::SessionKeyConflict => 429,
            IdentityError::IdentityNotFound | IdentityError::PasswordNotMatching => 403,
            IdentityError::SessionRequired => 401,
            IdentityError::SessionExpired => 401,
            IdentityError::DB(_) => 500,
        }
    }

    /// The error reported for a failure of the table storage.
    pub fn from_storage_error(err: &StorageError) -> (r: IdentityError)
        ensures
            r matches IdentityError::DB(m) && m@ == err.spec_describe(),
    {
        IdentityError::DB(err.describe())
    }

    /// The error reported for a failure of the id sequence.
    pub fn from_id_sequence_error(err: &IdSequenceError) -> (r: IdentityError)
        ensures
            r matches IdentityError::DB(m) && m@ == spec_sequence_failure(*err),
    {
        match err {
            IdSequenceError::SequenceEnded => IdentityError::DB("ID sequence out of values".to_owned()),
            e => {
                let mut v: Vec<char> = Vec::new();
                push_str(&mut v, "Sequence error: ");
                let t = e.to_display_string();
                push_str(&mut v, t.as_str());
                IdentityError::DB(string_from_chars(&v))
            },
        }
    }

    /// The error reported for a failed encryption, decoding or hashing step;
    /// the message is that of the failure.
    pub fn from_encryption_error(message: &str) -> (r: IdentityError)
        ensures
            r matches IdentityError::Encryption(m) && m@ == message@,
    {
        IdentityError::Encryption(message.to_owned())
    }
}

} // verus!
