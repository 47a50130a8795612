use vstd::prelude::*;
use crate::azure_utils::{
    decode_safe_key, encode_safe_key, lemma_decode_encode, spec_decode_safe_key, spec_encode_safe_key,
    is_reserved_key_char, encode_key_char,
};
use crate::text::{str_chars, lemma_char_code_injective};

verus! {

/// Whether Unicode's general security profile allows the character in
/// identifiers; decided by the `unicode-security` tables.
pub uninterp spec fn spec_identifier_allowed(c: char) -> bool;

/// Whether the text is an email address in the sense of the HTML5 form
/// specification, as the `validator` crate decides it.
pub uninterp spec fn spec_validate_email(s: Seq<char>) -> bool;

/// `GeneralSecurityProfile::identifier_allowed` of `unicode-security`: whether
/// the character is not restricted from use in identifiers. Its value is
/// named, not stated: it comes from the crate's Unicode tables.
#[verifier::external_body]
pub(crate) fn identifier_allowed(c: char) -> (r: bool)
    ensures
        r == spec_identifier_allowed(c),
{
    unicode_security::GeneralSecurityProfile::identifier_allowed(c)
}

/// `validator::validate_email`: the result is named; the crate's source shows
/// that it accepts only text whose last `@` has a non-empty user part before it
/// and a non-empty domain part after it.
#[verifier::external_body]
pub(crate) fn validate_email(s: &str) -> (r: bool)
    ensures
        r == spec_validate_email(s@),
        r ==> exists|i: int| 0 < i < s@.len() - 1 && s@[i] == '@',
{
    validator::validate_email(s)
}

/// Escaping never shortens a key.
pub proof fn lemma_encode_len(s: Seq<char>)
    ensures
        spec_encode_safe_key(s).len() >= s.len(),
    decreases s.len(),
{
    if s.len() > 0 {
        lemma_encode_len(s.drop_first());
        assert(encode_key_char(s[0]).len() >= 1);
    }
}

/// Why a name was refused.
#[derive(Debug, Clone)]
pub enum NameValidationError {
    TooShort,
    TooLong,
    InvalidCharacter(Vec<char>),
}

/// The characters are in strictly decreasing order.
pub open spec fn strictly_decreasing(s: Seq<char>) -> bool {
    forall|i: int, j: int| 0 <= i < j < s.len() ==> (s[i] as u32) > (s[j] as u32)
}

/// The distinct characters of `raw` that the identifier profile allows, from
/// the largest code point down: what `ValidatedName::from_raw` reports.
pub open spec fn spec_flagged_characters(raw: Seq<char>, v: Seq<char>) -> bool {
    &&& strictly_decreasing(v)
    &&& forall|c: char| #[trigger] v.contains(c) <==> (raw.contains(c) && spec_identifier_allowed(c))
}

/// Inserts `c` into a strictly decreasing sequence, keeping it so.
fn insert_decreasing(v: &mut Vec<char>, c: char)
    requires
        strictly_decreasing(old(v)@),
    ensures
        strictly_decreasing(final(v)@),
        forall|x: char| final(v)@.contains(x) <==> (old(v)@.contains(x) || x == c),
{
    let mut j: usize = 0;
    while j < v.len() && (v[j] as u32) > (c as u32)
        invariant
            j <= v@.len(),
            forall|k: int| 0 <= k < j ==> (v@[k] as u32) > (c as u32),
        decreases v@.len() - j,
    {
        j = j + 1;
    }
    if j < v.len() && v[j] == c {
        proof {
            assert(v@[j as int] == c);
        }
        return;
    }
    let ghost before = v@;
    proof {
        if j < before.len() {
            assert((before[j as int] as u32) <= (c as u32));
            assert(before[j as int] != c);
            if (before[j as int] as u32) == (c as u32) {
                lemma_char_code_injective(before[j as int], c);
            }
            assert((before[j as int] as u32) < (c as u32));
        }
    }
    v.insert(j, c);
    proof {
        assert(v@ == before.insert(j as int, c));
        assert(v@.len() == before.len() + 1);
        assert forall|k: int| 0 <= k < j implies v@[k] == before[k] by {}
        assert forall|k: int| j < k < v@.len() implies v@[k] == before[k - 1] by {}
        assert(v@[j as int] == c);
        assert forall|x: char| v@.contains(x) <==> (before.contains(x) || x == c) by {
            if v@.contains(x) {
                let k = choose|k: int| 0 <= k < v@.len() && v@[k] == x;
                if k < j {
                    assert(before[k] == x);
                } else if k > j {
                    assert(before[k - 1] == x);
                }
            }
            if before.contains(x) {
                let k = choose|k: int| 0 <= k < before.len() && before[k] == x;
                if k < j {
                    assert(v@[k] == x);
                } else {
                    assert(v@[k + 1] == x);
                }
            }
        }
        assert forall|a: int, b: int| 0 <= a < b < v@.len() implies (#[trigger] v@[a] as u32) > (#[trigger] v@[b] as u32) by {
            if b < j {
                assert(v@[a] == before[a]);
                assert(v@[b] == before[b]);
            } else if b == j {
                assert(v@[a] == before[a]);
            } else if a < j {
                assert(v@[a] == before[a]);
                assert(v@[b] == before[b - 1]);
                assert((before[a] as u32) > (before[b - 1] as u32));
            } else if a == j {
                assert(v@[b] == before[b - 1]);
                if b - 1 > j {
                    assert((before[j as int] as u32) > (before[b - 1] as u32));
                }
            } else {
                assert(v@[a] == before[a - 1]);
                assert(v@[b] == before[b - 1]);
            }
        }
    }
}

/// The distinct characters of `raw` that the identifier profile allows, in
/// decreasing order.
fn flagged_characters(raw: &[char]) -> (v: Vec<char>)
    ensures
        spec_flagged_characters(raw@, v@),
{
    let mut v: Vec<char> = Vec::new();
    let mut i: usize = 0;
    while i < raw.len()
        invariant
            i <= raw@.len(),
            strictly_decreasing(v@),
            forall|c: char| #[trigger] v@.contains(c) <==> (raw@.take(i as int).contains(c) && spec_identifier_allowed(c)),
        decreases raw@.len() - i,
    {
        let c = raw[i];
        let ghost before = v@;
        let allowed = identifier_allowed(c);
        if allowed {
            insert_decreasing(&mut v, c);
        }
        proof {
            let t1 = raw@.take(i + 1);
            let t0 = raw@.take(i as int);
            assert(t1 =~= t0.push(c));
            assert forall|x: char| t1.contains(x) <==> (t0.contains(x) || x == c) by {
                if t1.contains(x) {
                    let k = choose|k: int| 0 <= k < t1.len() && t1[k] == x;
                    if k < i {
                        assert(t0[k] == x);
                    }
                }
                if t0.contains(x) {
                    let k = choose|k: int| 0 <= k < t0.len() && t0[k] == x;
                    assert(t1[k] == x);
                }
                assert(t1[i as int] == c);
            }
            assert forall|x: char| v@.contains(x) <==> (t1.contains(x) && spec_identifier_allowed(x)) by {
                assert(before.contains(x) <==> (t0.contains(x) && spec_identifier_allowed(x)));
                assert(t1.contains(x) <==> (t0.contains(x) || x == c));
                if allowed {
                    assert(v@.contains(x) <==> (before.contains(x) || x == c));
                } else {
                    assert(v@ == before);
                }
            }
        }
        i = i + 1;
    }
    assert(raw@.take(i as int) =~= raw@);
    v
}

/// A user name that passed validation, stored escaped for table keys.
#[derive(Debug)]
pub struct ValidatedName(String);

impl Clone for ValidatedName {
    fn clone(&self) -> (r: Self)
        ensures
            r@ == self@,
    {
        proof {
            use_type_invariant(self);
        }
        ValidatedName(self.0.clone())
    }
}

impl View for ValidatedName {
    type V = Seq<char>;

    closed spec fn view(&self) -> Seq<char> {
        self.0@
    }
}

impl ValidatedName {
    pub const MIN_LEN: usize = 3;
    pub const MAX_LEN: usize = 30;

    /// The stored name is a well formed escaped key of at least three characters.
    #[verifier::type_invariant]
    pub closed spec fn inv(self) -> bool {
        &&& self.0@.len() >= 3
        &&& spec_decode_safe_key(self.0@) is Some
    }

    /// Validates a raw name. Refused with the list of the characters that the
    /// identifier profile allows (distinct, in decreasing order) when there
    /// are any; else with `TooShort` under 3 and `TooLong` over 30 characters.
    pub fn from_raw(raw: &str) -> (r: Result<ValidatedName, NameValidationError>)
        ensures
            match r {
                Ok(name) => {
                    &&& !exists|c: char| raw@.contains(c) && spec_identifier_allowed(c)
                    &&& 3 <= raw@.len() <= 30
                    &&& name@ == spec_encode_safe_key(raw@)
                    &&& spec_decode_safe_key(name@) == Some(raw@)
                },
                Err(NameValidationError::InvalidCharacter(v)) => {
                    &&& exists|c: char| raw@.contains(c) && spec_identifier_allowed(c)
                    &&& spec_flagged_characters(raw@, v@)
                },
                Err(NameValidationError::TooShort) => {
                    &&& !exists|c: char| raw@.contains(c) && spec_identifier_allowed(c)
                    &&& raw@.len() < 3
                },
                Err(NameValidationError::TooLong) => {
                    &&& !exists|c: char| raw@.contains(c) && spec_identifier_allowed(c)
                    &&& raw@.len() > 30
                },
            },
    {
        let chars = str_chars(raw);
        let invalid_character = flagged_characters(&chars);
        if invalid_character.len() > 0 {
            proof {
                let w = invalid_character@[0];
                assert(invalid_character@.contains(w));
                assert(raw@.contains(w) && spec_identifier_allowed(w));
            }
            Err(NameValidationError::InvalidCharacter(invalid_character))
        } else if chars.len() < Self::MIN_LEN {
            proof {
                assert forall|c: char| !(raw@.contains(c) && spec_identifier_allowed(c)) by {
                    if raw@.contains(c) && spec_identifier_allowed(c) {
                        assert(invalid_character@.contains(c));
                    }
                }
            }
            Err(NameValidationError::TooShort)
        } else if chars.len() > Self::MAX_LEN {
            proof {
                assert forall|c: char| !(raw@.contains(c) && spec_identifier_allowed(c)) by {
                    if raw@.contains(c) && spec_identifier_allowed(c) {
                        assert(invalid_character@.contains(c));
                    }
                }
            }
            Err(NameValidationError::TooLong)
        } else {
            proof {
                assert forall|c: char| !(raw@.contains(c) && spec_identifier_allowed(c)) by {
                    if raw@.contains(c) && spec_identifier_allowed(c) {
                        assert(invalid_character@.contains(c));
                    }
                }
                lemma_decode_encode(raw@);
                lemma_encode_len(raw@);
            }
            assert(chars@.len() == raw@.len());
            assert(3 <= raw@.len() <= 30);
            let key = encode_safe_key(raw);
            assert(key@ == spec_encode_safe_key(raw@));
            assert(!exists|c: char| raw@.contains(c) && spec_identifier_allowed(c));
            let name = ValidatedName(key);
            assert(name@ == spec_encode_safe_key(raw@));
            assert(spec_decode_safe_key(name@) == Some(raw@));
            Ok(name)
        }
    }

    /// The name as it was given.
    pub fn to_raw(&self) -> (r: String)
        ensures
            spec_decode_safe_key(self@) == Some(r@),
    {
        proof {
            use_type_invariant(self);
        }
        match decode_safe_key(self.0.as_str()) {
            Some(r) => r,
            None => {
                proof {
                    assert(false);
                }
                String::new()
            },
        }
    }

    /// The first `len` characters of the stored (escaped) name.
    pub fn prefix(&self, len: usize) -> (r: &str)
        requires
            len < self@.len(),
        ensures
            r@ == self@.take(len as int),
    {
        self.0.as_str().substring_char(0, len)
    }

    /// The stored (escaped) name.
    pub fn as_str(&self) -> (r: &str)
        ensures
            r@ == self@,
    {
        self.0.as_str()
    }

    /// A well formed name holds at least three characters.
    pub proof fn lemma_len(self)
        requires
            self.inv(),
        ensures
            self@.len() >= 3,
    {
    }
}

/// Why an email address was refused.
#[derive(Debug, Clone)]
pub enum EmailValidationError {
    InvalidFormat,
    UnsupportedDomain(String),
}

/// An email address that passed validation, stored escaped for table keys.
#[derive(Debug)]
pub struct ValidatedEmail(String);

impl Clone for ValidatedEmail {
    fn clone(&self) -> (r: Self)
        ensures
            r@ == self@,
    {
        proof {
            use_type_invariant(self);
        }
        ValidatedEmail(self.0.clone())
    }
}

impl View for ValidatedEmail {
    type V = Seq<char>;

    closed spec fn view(&self) -> Seq<char> {
        self.0@
    }
}

impl ValidatedEmail {
    /// The stored name is a well formed escaped key of at least three characters.
    #[verifier::type_invariant]
    pub closed spec fn inv(self) -> bool {
        &&& self.0@.len() >= 3
        &&& spec_decode_safe_key(self.0@) is Some
    }

    /// Validates a raw email address.
    pub fn from_raw(raw: &str) -> (r: Result<ValidatedEmail, EmailValidationError>)
        ensures
            match r {
                Ok(email) => {
                    &&& spec_validate_email(raw@)
                    &&& email@ == spec_encode_safe_key(raw@)
                    &&& spec_decode_safe_key(email@) == Some(raw@)
                },
                Err(e) => !spec_validate_email(raw@) && e is InvalidFormat,
            },
    {
        if !validate_email(raw) {
            Err(EmailValidationError::InvalidFormat)
        } else {
            proof {
                lemma_decode_encode(raw@);
                lemma_encode_len(raw@);
            }
            Ok(ValidatedEmail(encode_safe_key(raw)))
        }
    }

    /// The address as it was given.
    pub fn to_raw(&self) -> (r: String)
        ensures
            spec_decode_safe_key(self@) == Some(r@),
    {
        proof {
            use_type_invariant(self);
        }
        match decode_safe_key(self.0.as_str()) {
            Some(r) => r,
            None => {
                proof {
                    assert(false);
                }
                String::new()
            },
        }
    }

    /// The first `len` characters of the stored (escaped) address.
    pub fn prefix(&self, len: usize) -> (r: &str)
        requires
            len < self@.len(),
        ensures
            r@ == self@.take(len as int),
    {
        self.0.as_str().substring_char(0, len)
    }

    /// The stored (escaped) address.
    pub fn as_str(&self) -> (r: &str)
        ensures
            r@ == self@,
    {
        self.0.as_str()
    }

    /// A well formed address holds at least three characters.
    pub proof fn lemma_len(self)
        requires
            self.inv(),
        ensures
            self@.len() >= 3,
    {
    }
}

/// Why a password was refused.
#[derive(Debug, Clone)]
pub enum PasswordValidationError {
    TooShort,
    TooLong,
    TooWeek,
}

/// A password of acceptable length.
#[derive(Clone, Debug)]
pub struct ValidatedPassword(String);

impl View for ValidatedPassword {
    type V = Seq<char>;

    closed spec fn view(&self) -> Seq<char> {
        self.0@
    }
}

impl ValidatedPassword {
    pub const MIN_LEN: usize = 3;
    pub const MAX_LEN: usize = 30;

    /// Accepts a password of 3 to 30 characters.
    pub fn from_raw(raw: &str) -> (r: Result<ValidatedPassword, PasswordValidationError>)
        ensures
            match r {
                Ok(p) => 3 <= raw@.len() <= 30 && p@ == raw@,
                Err(PasswordValidationError::TooShort) => raw@.len() < 3,
                Err(PasswordValidationError::TooLong) => raw@.len() > 30,
                Err(PasswordValidationError::TooWeek) => false,
            },
    {
        let chars = str_chars(raw);
        if chars.len() < Self::MIN_LEN {
            Err(PasswordValidationError::TooShort)
        } else if chars.len() > Self::MAX_LEN {
            Err(PasswordValidationError::TooLong)
        } else {
            Ok(ValidatedPassword(raw.to_owned()))
        }
    }

    /// The password.
    pub fn as_str(&self) -> (r: &str)
        ensures
            r@ == self@,
    {
        self.0.as_str()
    }
}

} // verus!
