//! Identities: their validated names and emails, the stored identity data
//! and the indices that find an identity by name, email or sequence id.
use vstd::prelude::*;
use crate::auth::iam::IAMError;
use crate::azure_utils::{decode_safe_key, encode_safe_key, lemma_decode_encode, spec_decode_safe_key, spec_encode_safe_key};
use crate::text::{str_chars, push_str, push_decimal, string_from_chars, spec_decimal};
use self::input_validation::{identifier_allowed, spec_identifier_allowed, validate_email, spec_validate_email, lemma_encode_len};

pub mod email_index;
pub mod identity_data;
pub mod index_email;
pub mod index_identity;
pub mod index_name;
pub mod index_sequence;
pub mod input_validation;
pub mod manager;
pub mod name_index;
pub mod sequence_index;
pub mod user_identity;

pub use self::identity_data::{CoreIdentity, CoreIdentityData, IdentityCategory, IdentityData, IdentityEntity};
pub use self::index_email::{IndexEmail, IndexEmailData};
pub use self::index_identity::{CoreIdentityIndexed, CoreIdentityIndexedData, IndexIdentityData, IndexIdentityEntity};
pub use self::index_name::{IndexName, IndexNameData};
pub use self::index_sequence::{IndexSequence, IndexSequenceData};
pub use self::input_validation::{
    EmailValidationError, NameValidationError, PasswordValidationError, ValidatedEmail, ValidatedName,
    ValidatedPassword,
};
pub use self::manager::IdentityManager;
pub use self::user_identity::{UserIdentity, UserIdentityData};

verus! {

/// The message of a refused name that is too short.
pub open spec fn spec_too_short_message() -> Seq<char> {
    "Too short, required min length: "@ + spec_decimal(3)
}

/// The message of a refused name that is too long.
pub open spec fn spec_too_long_message() -> Seq<char> {
    "Too long, required max length: "@ + spec_decimal(30)
}

/// A name that may be registered: 3 to 30 characters, each allowed in identifiers.
pub open spec fn spec_is_valid_name(raw: Seq<char>) -> bool {
    &&& forall|c: char| raw.contains(c) ==> spec_identifier_allowed(c)
    &&& 3 <= raw.len() <= 30
}

/// The message that refuses an invalid name: the first rule it breaks.
pub open spec fn spec_name_error_message(raw: Seq<char>) -> Seq<char> {
    if !(forall|c: char| raw.contains(c) ==> spec_identifier_allowed(c)) {
        "Contains disallowed characters"@
    } else if raw.len() < 3 {
        spec_too_short_message()
    } else {
        spec_too_long_message()
    }
}

/// A name that may identify a user: 3 to 30 characters, each allowed in
/// identifiers; stored escaped for table keys.
#[derive(Debug)]
pub struct EncodedName(String);

impl View for EncodedName {
    type V = Seq<char>;

    closed spec fn view(&self) -> Seq<char> {
        self.0@
    }
}

impl Clone for EncodedName {
    fn clone(&self) -> (r: Self)
        ensures
            r@ == self@,
    {
        proof {
            use_type_invariant(self);
        }
        EncodedName(self.0.clone())
    }
}

impl EncodedName {
    /// The stored name is a well formed escaped key of at least three characters.
    #[verifier::type_invariant]
    pub closed spec fn inv(self) -> bool {
        &&& self.0@.len() >= 3
        &&& spec_decode_safe_key(self.0@) is Some
    }

    /// A well formed name holds at least three characters.
    pub proof fn lemma_len(self)
        requires
            self.inv(),
        ensures
            self@.len() >= 3,
    {
    }

    /// Validates and escapes a raw name.
    pub fn from_raw(raw: &str) -> (r: Result<EncodedName, IAMError>)
        ensures
            match r {
                Ok(name) => {
                    &&& spec_is_valid_name(raw@)
                    &&& name@ == spec_encode_safe_key(raw@)
                    &&& spec_decode_safe_key(name@) == Some(raw@)
                },
                Err(IAMError::NameInvalid(m)) => !spec_is_valid_name(raw@) && m@ == spec_name_error_message(raw@),
                Err(_) => false,
            },
    {
        let chars = str_chars(raw);
        let mut i: usize = 0;
        while i < chars.len()
            invariant
                chars@ == raw@,
                i <= chars@.len(),
                forall|k: int| 0 <= k < i ==> spec_identifier_allowed(#[trigger] chars@[k]),
            decreases chars@.len() - i,
        {
            if !identifier_allowed(chars[i]) {
                proof {
                    assert(raw@.contains(chars@[i as int]));
                }
                return Err(IAMError::NameInvalid("Contains disallowed characters".to_owned()));
            }
            i = i + 1;
        }
        proof {
            assert forall|c: char| raw@.contains(c) implies spec_identifier_allowed(c) by {
                let k = choose|k: int| 0 <= k < raw@.len() && raw@[k] == c;
                assert(spec_identifier_allowed(chars@[k]));
            }
        }
        if chars.len() < 3 {
            let mut m: Vec<char> = Vec::new();
            push_str(&mut m, "Too short, required min length: ");
            push_decimal(&mut m, 3);
            Err(IAMError::NameInvalid(string_from_chars(&m)))
        } else if chars.len() > 30 {
            let mut m: Vec<char> = Vec::new();
            push_str(&mut m, "Too long, required max length: ");
            push_decimal(&mut m, 30);
            Err(IAMError::NameInvalid(string_from_chars(&m)))
        } else {
            proof {
                lemma_decode_encode(raw@);
                lemma_encode_len(raw@);
            }
            Ok(EncodedName(encode_safe_key(raw)))
        }
    }

    /// The name as it was given.
    pub fn to_raw(&self) -> (r: String)
        ensures
            spec_decode_safe_key(self@) == Some(r@),
    {
        proof {
            use_type_invariant(self);
        }
        match decode_safe_key(self.0.as_str()) {
            Some(r) => r,
            None => {
                proof {
                    assert(false);
                }
                String::new()
            },
        }
    }

    /// The first `len` characters of the stored (escaped) name.
    pub fn prefix(&self, len: usize) -> (r: &str)
        requires
            len < self@.len(),
        ensures
            r@ == self@.take(len as int),
    {
        self.0.as_str().substring_char(0, len)
    }

    /// The stored (escaped) name.
    pub fn as_str(&self) -> (r: &str)
        ensures
            r@ == self@,
    {
        self.0.as_str()
    }
}

/// An email address that passed validation, stored escaped for table keys.
#[derive(Debug)]
pub struct EncodedEmail(String);

impl View for EncodedEmail {
    type V = Seq<char>;

    closed spec fn view(&self) -> Seq<char> {
        self.0@
    }
}

impl Clone for EncodedEmail {
    fn clone(&self) -> (r: Self)
        ensures
            r@ == self@,
    {
        proof {
            use_type_invariant(self);
        }
        EncodedEmail(self.0.clone())
    }
}

impl EncodedEmail {
    /// The stored address is a well formed escaped key of at least three characters.
    #[verifier::type_invariant]
    pub closed spec fn inv(self) -> bool {
        &&& self.0@.len() >= 3
        &&& spec_decode_safe_key(self.0@) is Some
    }

    /// A well formed address holds at least three characters.
    pub proof fn lemma_len(self)
        requires
            self.inv(),
        ensures
            self@.len() >= 3,
    {
    }

    /// Validates and escapes a raw email address.
    pub fn from_raw(raw: &str) -> (r: Result<EncodedEmail, IAMError>)
        ensures
            match r {
                Ok(email) => {
                    &&& spec_validate_email(raw@)
                    &&& email@ == spec_encode_safe_key(raw@)
                    &&& spec_decode_safe_key(email@) == Some(raw@)
                },
                Err(IAMError::EmailInvalid(m)) => !spec_validate_email(raw@) && m@ == "Invalid email"@,
                Err(_) => false,
            },
    {
        if !validate_email(raw) {
            Err(IAMError::EmailInvalid("Invalid email".to_owned()))
        } else {
            proof {
                lemma_decode_encode(raw@);
                lemma_encode_len(raw@);
            }
            Ok(EncodedEmail(encode_safe_key(raw)))
        }
    }

    /// The address as it was given.
    pub fn to_raw(&self) -> (r: String)
        ensures
            spec_decode_safe_key(self@) == Some(r@),
    {
        proof {
            use_type_invariant(self);
        }
        match decode_safe_key(self.0.as_str()) {
            Some(r) => r,
            None => {
                proof {
                    assert(false);
                }
                String::new()
            },
        }
    }

    /// The first `len` characters of the stored (escaped) address.
    pub fn prefix(&self, len: usize) -> (r: &str)
        requires
            len < self@.len(),
        ensures
            r@ == self@.take(len as int),
    {
        self.0.as_str().substring_char(0, len)
    }

    /// The stored (escaped) address.
    pub fn as_str(&self) -> (r: &str)
        ensures
            r@ == self@,
    {
        self.0.as_str()
    }
}

} // verus!
