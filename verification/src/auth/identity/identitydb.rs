//! The user store with encrypted user ids and login keys: registration of
//! users with their name and email indices, lookup by login name or email,
//! and logins of users.
use vstd::prelude::*;
use vstd::utf8::{encode_utf8, is_ascii_chars, is_char_boundary, valid_utf8};
use block_modes::BlockMode;
use rand::Rng;
use crate::auth::iam::identity::manager::is_salt_char;
use crate::encoding::{
    base32_nopad_decode, base32_nopad_encode, base64_decode, base64url_nopad_decode, base64url_nopad_encode,
    spec_base32_nopad, spec_base32_nopad_decode, spec_base64_decode, spec_base64url_nopad, spec_base64url_nopad_decode,
    spec_decode_error_text,
};
use crate::text::{push_decimal, spec_decimal, string_from_chars};
use super::error::{IdentityError, spec_sequence_failure};
use super::identityentry::{
    EmailIndex, EmailIndexEntry, Identity, IdentityEntry, NameIndex, NameIndexEntry, is_email_index_entry,
    is_name_index_entry, spec_email_partition, spec_name_partition, spec_user_partition,
};
use crate::auth::iam::identity::input_validation::{spec_validate_email, validate_email};
use crate::auth::iam::identity::manager::{
    argon2_hash_encoded, argon2_verify_encoded, push_key_condition, spec_argon2_hash_encoded,
    spec_argon2_verify_encoded, spec_key_condition,
};
use crate::azure_utils::{filter_query, spec_filter_query, spec_condition_selects, lemma_key_condition_selects, lemma_or_condition_selects};
use crate::text::push_str;
use super::identityentry::IdentityIndex;
use super::loginentry::{Login, LoginEntry, LoginIndex, LoginIndexEntry, is_login_index_entry};
use super::siteinfo::SiteInfo;
use crate::azure_utils::{StorageError, TableEntity};
use crate::idsequence::IdSequenceError;

verus! {

/// Length of a generated salt.
pub const SALT_LEN: usize = 32;

/// Length of the salt prefix that is the initialization vector of the id
/// and key ciphers.
pub const CIPHER_IV_LEN: usize = 8;

/// Length of the text that a login key encrypts.
pub const LOGIN_KEY_LEN: usize = 32;

/// Whether `char::is_alphanumeric` holds of a character (Unicode alphabetic
/// or numeric).
pub uninterp spec fn spec_is_alphanumeric(c: char) -> bool;

/// `char::is_alphanumeric` of std; the answer is named (it comes from the
/// Unicode tables).
#[verifier::external_body]
fn char_is_alphanumeric(c: char) -> (r: bool)
    ensures
        r == spec_is_alphanumeric(c),
{
    c.is_alphanumeric()
}

/// A user name: every character alphanumeric.
pub open spec fn spec_valid_username(name: Seq<char>) -> bool {
    forall|i: int| 0 <= i < name.len() ==> spec_is_alphanumeric(#[trigger] name[i])
}

/// Whether every character of the name is alphanumeric.
pub fn validate_username(name: &str) -> (r: bool)
    ensures
        r == spec_valid_username(name@),
{
    let chars = crate::text::str_chars(name);
    let mut i: usize = 0;
    while i < chars.len()
        invariant
            chars@ == name@,
            i <= chars@.len(),
            forall|k: int| 0 <= k < i ==> spec_is_alphanumeric(#[trigger] chars@[k]),
        decreases chars@.len() - i,
    {
        if !char_is_alphanumeric(chars[i]) {
            return false;
        }
        i = i + 1;
    }
    true
}

/// What the Blowfish CBC cipher with PKCS7 padding gives for a key, an
/// initialization vector and a plain text: the cipher text, or the debug
/// text of the error when the key or the vector has a wrong length.
pub uninterp spec fn spec_blowfish_cbc_encrypt(key: Seq<u8>, iv: Seq<u8>, plain: Seq<u8>) -> Result<Seq<u8>, Seq<char>>;

/// What decrypting with the Blowfish CBC cipher with PKCS7 padding gives:
/// the plain text, or the debug text of the error.
pub uninterp spec fn spec_blowfish_cbc_decrypt(key: Seq<u8>, iv: Seq<u8>, cipher: Seq<u8>) -> Result<Seq<u8>, Seq<char>>;

/// `Cbc::<Blowfish, Pkcs7>::new_from_slices(key, iv)` then `encrypt_vec` of
/// `block-modes` and `blowfish`; the error is given as its debug text. The
/// cipher text is named. As the sources show, the cipher is made exactly for
/// a key of 4 to 56 bytes and a vector of 8 bytes, and the padded cipher
/// text is the plain text's length rounded up to the next multiple of 8.
#[verifier::external_body]
fn blowfish_cbc_encrypt(key: &[u8], iv: &[u8], plain: &[u8]) -> (r: Result<Vec<u8>, String>)
    ensures
        match r {
            Ok(c) => {
                &&& spec_blowfish_cbc_encrypt(key@, iv@, plain@) == Ok::<Seq<u8>, Seq<char>>(c@)
                &&& c@.len() == (plain@.len() / 8 + 1) * 8
            },
            Err(m) => spec_blowfish_cbc_encrypt(key@, iv@, plain@) == Err::<Seq<u8>, Seq<char>>(m@),
        },
        (r is Ok) == (4 <= key@.len() <= 56 && iv@.len() == 8),
{
    match block_modes::Cbc::<blowfish::Blowfish, block_modes::block_padding::Pkcs7>::new_from_slices(key, iv) {
        Ok(cipher) => Ok(cipher.encrypt_vec(plain)),
        Err(e) => Err(format!("{:?}", e)),
    }
}

/// `Cbc::<Blowfish, Pkcs7>::new_from_slices(key, iv)` then `decrypt_vec`;
/// the error is given as its debug text. The plain text is named; as the
/// crate documents, decrypting a cipher text made with the same key and
/// vector gives back the plain text.
#[verifier::external_body]
fn blowfish_cbc_decrypt(key: &[u8], iv: &[u8], cipher: &[u8]) -> (r: Result<Vec<u8>, String>)
    ensures
        match r {
            Ok(p) => {
                &&& spec_blowfish_cbc_decrypt(key@, iv@, cipher@) == Ok::<Seq<u8>, Seq<char>>(p@)
                &&& forall|q: Seq<u8>| #[trigger] spec_blowfish_cbc_encrypt(key@, iv@, q)
                    == Ok::<Seq<u8>, Seq<char>>(cipher@) ==> p@ == q
            },
            Err(m) => {
                &&& spec_blowfish_cbc_decrypt(key@, iv@, cipher@) == Err::<Seq<u8>, Seq<char>>(m@)
                &&& forall|q: Seq<u8>| #[trigger] spec_blowfish_cbc_encrypt(key@, iv@, q)
                    != Ok::<Seq<u8>, Seq<char>>(cipher@)
            },
        },
{
    match block_modes::Cbc::<blowfish::Blowfish, block_modes::block_padding::Pkcs7>::new_from_slices(key, iv) {
        Ok(c) => match c.decrypt_vec(cipher) {
            Ok(p) => Ok(p),
            Err(e) => Err(format!("{:?}", e)),
        },
        Err(e) => Err(format!("{:?}", e)),
    }
}

/// `std::str::from_utf8`: the text of valid UTF-8 bytes, else the text of
/// the error (not stated).
#[verifier::external_body]
fn utf8_text(bytes: &[u8]) -> (r: Result<String, String>)
    ensures
        match r {
            Ok(s) => encode_utf8(s@) == bytes@,
            Err(_) => !valid_utf8(bytes@),
        },
{
    match std::str::from_utf8(bytes) {
        Ok(s) => Ok(s.to_owned()),
        Err(e) => Err(e.to_string()),
    }
}

/// `rng.sample(Alphanumeric)` of `rand` with `thread_rng`: a random letter
/// or digit.
#[verifier::external_body]
fn random_alphanumeric_char() -> (c: char)
    ensures
        is_salt_char(c),
{
    rand::thread_rng().sample(rand::distributions::Alphanumeric)
}

/// `rng.gen_range(0, n)` of `rand` with `thread_rng`: a random index below `n`.
#[verifier::external_body]
fn random_index(n: usize) -> (i: usize)
    requires
        n > 0,
    ensures
        i < n,
{
    rand::thread_rng().gen_range(0, n)
}

/// A generated salt: 32 letters or digits.
pub open spec fn is_user_salt(salt: Seq<char>) -> bool {
    &&& salt.len() == SALT_LEN
    &&& forall|i: int| 0 <= i < salt.len() ==> is_salt_char(#[trigger] salt[i])
}

/// A fresh random salt.
pub fn random_user_salt() -> (salt: String)
    ensures
        is_user_salt(salt@),
{
    let mut v: Vec<char> = Vec::new();
    let mut i: usize = 0;
    while i < SALT_LEN
        invariant
            i <= SALT_LEN,
            v@.len() == i,
            forall|k: int| 0 <= k < i ==> is_salt_char(#[trigger] v@[k]),
        decreases SALT_LEN - i,
    {
        v.push(random_alphanumeric_char());
        i = i + 1;
    }
    string_from_chars(&v)
}

/// A salt is ASCII, so its first 8 bytes are its first 8 characters.
pub proof fn lemma_user_salt_bytes(salt: Seq<char>)
    requires
        is_user_salt(salt),
    ensures
        is_ascii_chars(salt),
        encode_utf8(salt).len() == SALT_LEN,
{
    assert forall|i: int| 0 <= i < salt.len() implies #[trigger] salt[i] <= '\u{7f}' by {
        assert(is_salt_char(salt[i]));
    }
    vstd::utf8::is_ascii_chars_encode_utf8(salt);
}

/// The decimal text of `n`, padded with zeros on the left to 10 characters.
pub open spec fn spec_zero_padded(n: nat) -> Seq<char> {
    let d = spec_decimal(n);
    if d.len() < 10 {
        Seq::new((10 - d.len()) as nat, |i: int| '0') + d
    } else {
        d
    }
}

/// The decimal text of `n` padded with zeros to 10 characters, as
/// `format!("{:0>10}", n)` writes it.
pub fn zero_padded(n: u64) -> (s: String)
    ensures
        s@ == spec_zero_padded(n as nat),
{
    let mut d: Vec<char> = Vec::new();
    push_decimal(&mut d, n);
    let mut v: Vec<char> = Vec::new();
    if d.len() < 10 {
        let pad = 10 - d.len();
        let mut i: usize = 0;
        while i < pad
            invariant
                i <= pad,
                v@ == Seq::new(i as nat, |k: int| '0'),
            decreases pad - i,
        {
            v.push('0');
            i = i + 1;
            assert(v@ =~= Seq::new(i as nat, |k: int| '0'));
        }
    }
    crate::text::push_chars(&mut v, &d);
    proof {
        assert(d@ =~= spec_decimal(n as nat));
        assert(v@ =~= spec_zero_padded(n as nat));
    }
    string_from_chars(&v)
}

/// Alternates the characters of `a` and `b`, starting with `a`; when one
/// runs out the rest of the other follows (`Itertools::interleave`).
pub open spec fn spec_interleave(a: Seq<char>, b: Seq<char>) -> Seq<char>
    decreases a.len() + b.len(),
{
    if a.len() == 0 {
        b
    } else {
        seq![a[0]] + spec_interleave(b, a.drop_first())
    }
}

/// The interleaving of `a` and `b`, as `Itertools::interleave` gives it.
pub fn interleave(a: &[char], b: &[char]) -> (r: Vec<char>)
    ensures
        r@ == spec_interleave(a@, b@),
{
    let mut r: Vec<char> = Vec::new();
    let mut i: usize = 0;
    let mut j: usize = 0;
    let mut from_a = true;
    assert(a@.skip(0) =~= a@);
    assert(b@.skip(0) =~= b@);
    assert(r@ + spec_interleave(a@, b@) =~= spec_interleave(a@, b@));
    while i < a.len() || j < b.len()
        invariant
            i <= a@.len(),
            j <= b@.len(),
            spec_interleave(a@, b@) == r@ + (if from_a {
                spec_interleave(a@.skip(i as int), b@.skip(j as int))
            } else {
                spec_interleave(b@.skip(j as int), a@.skip(i as int))
            }),
        decreases a@.len() - i + b@.len() - j,
    {
        let ghost before = r@;
        if from_a {
            if i < a.len() {
                proof {
                    let x = a@.skip(i as int);
                    assert(x[0] == a@[i as int]);
                    assert(x.drop_first() =~= a@.skip(i + 1));
                }
                r.push(a[i]);
                i = i + 1;
                from_a = false;
                proof {
                    assert(before.push(a@[i - 1]) =~= before + seq![a@[i - 1]]);
                }
            } else {
                proof {
                    assert(a@.skip(i as int) =~= Seq::<char>::empty());
                    let y = b@.skip(j as int);
                    assert(y[0] == b@[j as int]);
                    assert(spec_interleave(y, Seq::<char>::empty()) == seq![y[0]] + spec_interleave(Seq::<char>::empty(), y.drop_first()));
                    assert(y.drop_first() =~= b@.skip(j + 1));
                }
                r.push(b[j]);
                j = j + 1;
                proof {
                    assert(a@.skip(i as int) =~= Seq::<char>::empty());
                    assert(spec_interleave(Seq::<char>::empty(), b@.skip(j as int)) == b@.skip(j as int));
                    assert(b@.skip(j - 1) =~= seq![b@[j - 1]] + b@.skip(j as int));
                    assert(r@ + b@.skip(j as int) =~= before + b@.skip(j - 1));
                }
            }
        } else {
            if j < b.len() {
                proof {
                    let y = b@.skip(j as int);
                    assert(y[0] == b@[j as int]);
                    assert(y.drop_first() =~= b@.skip(j + 1));
                }
                r.push(b[j]);
                j = j + 1;
                from_a = true;
            } else {
                proof {
                    assert(b@.skip(j as int) =~= Seq::<char>::empty());
                    let x = a@.skip(i as int);
                    assert(x[0] == a@[i as int]);
                    assert(x.drop_first() =~= a@.skip(i + 1));
                }
                r.push(a[i]);
                i = i + 1;
                proof {
                    assert(b@.skip(j as int) =~= Seq::<char>::empty());
                    assert(spec_interleave(Seq::<char>::empty(), a@.skip(i as int)) == a@.skip(i as int));
                    assert(a@.skip(i - 1) =~= seq![a@[i - 1]] + a@.skip(i as int));
                    assert(r@ + a@.skip(i as int) =~= before + a@.skip(i - 1));
                }
            }
        }
    }
    proof {
        assert(a@.skip(i as int) =~= Seq::<char>::empty());
        assert(b@.skip(j as int) =~= Seq::<char>::empty());
        assert(r@ + Seq::<char>::empty() =~= r@);
    }
    r
}


/// The first bytes of a salt, the initialization vector of the ciphers.
pub open spec fn spec_salt_iv(salt: Seq<char>) -> Seq<u8> {
    encode_utf8(salt).take(CIPHER_IV_LEN as int)
}

/// The encrypted id of a sequence text: the base32 text of its cipher text,
/// or nothing when the secret cannot make a cipher.
pub open spec fn spec_encrypted_id(secret: Seq<u8>, salt: Seq<char>, sequence: Seq<char>) -> Option<Seq<char>> {
    match spec_blowfish_cbc_encrypt(secret, spec_salt_iv(salt), encode_utf8(sequence)) {
        Ok(c) => Some(spec_base32_nopad(c)),
        Err(_) => None,
    }
}

/// The encrypted login key of a key text: the base64url text of its cipher
/// text, or nothing when the secret cannot make a cipher.
pub open spec fn spec_encrypted_key(secret: Seq<u8>, salt: Seq<char>, sequence: Seq<char>) -> Option<Seq<char>> {
    match spec_blowfish_cbc_encrypt(secret, spec_salt_iv(salt), encode_utf8(sequence)) {
        Ok(c) => Some(spec_base64url_nopad(c)),
        Err(_) => None,
    }
}

/// A letter of login keys: `A-Z` or `a-z`.
pub open spec fn is_key_letter(c: char) -> bool {
    ('A' <= c && c <= 'Z') || ('a' <= c && c <= 'z')
}

/// The text a login key encrypts: the digits of the sequence number
/// interleaved with letters, 32 characters.
pub open spec fn is_login_key_text(text: Seq<char>, sequence: nat) -> bool {
    exists|letters: Seq<char>| letters.len() == LOGIN_KEY_LEN
        && (forall|i: int| 0 <= i < letters.len() ==> is_key_letter(#[trigger] letters[i]))
        && text == spec_interleave(spec_decimal(sequence), letters).take(LOGIN_KEY_LEN as int)
}

/// The encrypted ids and keys of users: the secrets of their ciphers.
#[derive(Clone, Debug)]
pub struct IdentityDB {
    pub password_pepper: String,
    pub user_id_secret: Vec<u8>,
    pub login_key_secret: Vec<u8>,
}

proof fn lemma_encode_utf8_injective(a: Seq<char>, b: Seq<char>)
    requires
        encode_utf8(a) == encode_utf8(b),
    ensures
        a == b,
{
    vstd::utf8::encode_utf8_decode_utf8(a);
    vstd::utf8::encode_utf8_decode_utf8(b);
}

fn salt_iv(salt: &str) -> (iv: &[u8])
    requires
        encode_utf8(salt@).len() >= CIPHER_IV_LEN,
    ensures
        iv@ == spec_salt_iv(salt@),
{
    let bytes = salt.as_bytes();
    let iv = vstd::slice::slice_subrange(bytes, 0, CIPHER_IV_LEN);
    assert(iv@ =~= spec_salt_iv(salt@));
    iv
}

/// What decoding an id or key gives, from its decoded bytes: the bytes
/// decrypted with the secret and the salt's vector, read as UTF-8 text; each
/// failure is an encryption error (with the decoding or cipher message).
pub open spec fn spec_decrypted(
    decoded: Result<Seq<u8>, crate::encoding::DecodeError>,
    secret: Seq<u8>,
    salt: Seq<char>,
    r: Result<String, IdentityError>,
) -> bool {
    match decoded {
        Err(e) => r matches Err(IdentityError::Encryption(m)) && m@ == spec_decode_error_text(e),
        Ok(b) => match spec_blowfish_cbc_decrypt(secret, spec_salt_iv(salt), b) {
            Err(m) => r matches Err(IdentityError::Encryption(x)) && x@ == m,
            Ok(p) => if valid_utf8(p) {
                r matches Ok(t) && encode_utf8(t@) == p
            } else {
                r matches Err(IdentityError::Encryption(_))
            },
        },
    }
}

/// A fresh encrypted user id of a sequence number, or the failure to make
/// the cipher.
pub open spec fn is_generated_user_id(r: Result<(String, String, String), IdentityError>, secret: Seq<u8>, sequence: u64) -> bool {
    match r {
        Ok((id, sequence_id, salt)) => {
            &&& sequence_id@ == spec_zero_padded(sequence as nat)
            &&& is_user_salt(salt@)
            &&& spec_encrypted_id(secret, salt@, sequence_id@) == Some(id@)
            &&& is_ascii_chars(id@)
            &&& id@.len() >= 2
        },
        Err(e) => e matches IdentityError::Encryption(_) && !(4 <= secret.len() <= 56),
    }
}

/// A fresh encrypted user id for a sequence number: the zero padded
/// sequence text, a fresh salt, and the encrypted id of the text.
pub fn generate_user_id(secret: &Vec<u8>, sequence: u64) -> (r: Result<(String, String, String), IdentityError>)
    ensures
        is_generated_user_id(r, secret@, sequence),
{
    let sequence_id = zero_padded(sequence);
    let salt = random_user_salt();
    proof {
        lemma_user_salt_bytes(salt@);
        lemma_decimal_len(sequence as nat);
    }
    let iv = salt_iv(salt.as_str());
    match blowfish_cbc_encrypt(secret.as_slice(), iv, sequence_id.as_str().as_bytes()) {
        Ok(c) => {
            proof {
                lemma_zero_padded_ascii(sequence as nat);
                vstd::utf8::is_ascii_chars_encode_utf8(sequence_id@);
            }
            let id = base32_nopad_encode(c.as_slice());
            Ok((id, sequence_id, salt))
        },
        Err(m) => Err(IdentityError::Encryption(m)),
    }
}

/// The sequence text of an encrypted user id and its salt.
pub fn decode_user_id(secret: &Vec<u8>, id: &str, salt: &str) -> (r: Result<String, IdentityError>)
    requires
        encode_utf8(id@).len() <= usize::MAX / 8,
        encode_utf8(salt@).len() >= CIPHER_IV_LEN,
    ensures
        spec_decrypted(spec_base32_nopad_decode(encode_utf8(id@)), secret@, salt@, r),
        forall|s: Seq<char>| spec_encrypted_id(secret@, salt@, s) == Some(id@)
            ==> (r matches Ok(t) && t@ == s),
{
    let bytes = match base32_nopad_decode(id.as_bytes()) {
        Ok(b) => b,
        Err(e) => return Err(IdentityError::Encryption(e.to_display_string())),
    };
    let iv = salt_iv(salt);
    let plain = match blowfish_cbc_decrypt(secret.as_slice(), iv, bytes.as_slice()) {
        Ok(p) => p,
        Err(m) => return Err(IdentityError::Encryption(m)),
    };
    match utf8_text(plain.as_slice()) {
        Ok(t) => {
            proof {
                assert forall|s: Seq<char>| spec_encrypted_id(secret@, salt@, s) == Some(id@)
                    implies t@ == s by {
                    lemma_encode_utf8_injective(t@, s);
                }
                vstd::utf8::encode_utf8_valid_utf8(t@);
            }
            Ok(t)
        },
        Err(m) => {
            proof {
                assert forall|s: Seq<char>| spec_encrypted_id(secret@, salt@, s) != Some(id@) by {
                    if spec_encrypted_id(secret@, salt@, s) == Some(id@) {
                        vstd::utf8::encode_utf8_valid_utf8(s);
                    }
                }
            }
            Err(IdentityError::Encryption(m))
        },
    }
}


impl IdentityDB {
    /// The store of the configuration: the secrets are decoded from their
    /// base64 text.
    pub fn new(password_pepper: &str, user_id_secret: &str, login_key_secret: &str) -> (r: Result<IdentityDB, IdentityError>)
        requires
            encode_utf8(user_id_secret@).len() <= usize::MAX / 8,
            encode_utf8(login_key_secret@).len() <= usize::MAX / 8,
        ensures
            match (spec_base64_decode(encode_utf8(user_id_secret@)), spec_base64_decode(encode_utf8(login_key_secret@))) {
                (Ok(u), Ok(l)) => r matches Ok(db) && db.password_pepper@ == password_pepper@
                    && db.user_id_secret@ == u && db.login_key_secret@ == l,
                (Err(e), _) => r matches Err(IdentityError::Encryption(m)) && m@ == spec_decode_error_text(e),
                (Ok(_), Err(e)) => r matches Err(IdentityError::Encryption(m)) && m@ == spec_decode_error_text(e),
            },
    {
        let user_id_secret = match base64_decode(user_id_secret.as_bytes()) {
            Ok(v) => v,
            Err(e) => return Err(IdentityError::Encryption(e.to_display_string())),
        };
        let login_key_secret = match base64_decode(login_key_secret.as_bytes()) {
            Ok(v) => v,
            Err(e) => return Err(IdentityError::Encryption(e.to_display_string())),
        };
        Ok(IdentityDB { password_pepper: password_pepper.to_owned(), user_id_secret, login_key_secret })
    }

    /// A fresh encrypted user id for a sequence number: the zero padded
    /// sequence text, a fresh salt, and the encrypted id of the text.
    pub fn generate_user_id(&self, sequence: u64) -> (r: Result<(String, String, String), IdentityError>)
        ensures
            is_generated_user_id(r, self.user_id_secret@, sequence),
    {
        generate_user_id(&self.user_id_secret, sequence)
    }

    /// The sequence text of an encrypted user id and its salt.
    pub fn decode_user_id(&self, id: &str, salt: &str) -> (r: Result<String, IdentityError>)
        requires
            encode_utf8(id@).len() <= usize::MAX / 8,
            encode_utf8(salt@).len() >= CIPHER_IV_LEN,
        ensures
            spec_decrypted(spec_base32_nopad_decode(encode_utf8(id@)), self.user_id_secret@, salt@, r),
            forall|s: Seq<char>| spec_encrypted_id(self.user_id_secret@, salt@, s) == Some(id@)
                ==> (r matches Ok(t) && t@ == s),
    {
        decode_user_id(&self.user_id_secret, id, salt)
    }

    /// A fresh encrypted login key for a sequence number and a user's salt:
    /// the digits of the number interleaved with random letters, encrypted.
    pub fn genrate_login_key(&self, salt: &str, sequence: u64) -> (r: Result<String, IdentityError>)
        requires
            encode_utf8(salt@).len() >= CIPHER_IV_LEN,
        ensures
            match r {
                Ok(key) => exists|text: Seq<char>| is_login_key_text(text, sequence as nat)
                    && spec_encrypted_key(self.login_key_secret@, salt@, text) == Some(key@),
                Err(e) => e matches IdentityError::Encryption(_) && !(4 <= self.login_key_secret@.len() <= 56),
            },
    {
        let mut letters: Vec<char> = Vec::new();
        let mut i: usize = 0;
        while i < LOGIN_KEY_LEN
            invariant
                i <= LOGIN_KEY_LEN,
                letters@.len() == i,
                forall|k: int| 0 <= k < i ==> is_key_letter(#[trigger] letters@[k]),
            decreases LOGIN_KEY_LEN - i,
        {
            let k = random_index(52);
            let c: char = if k < 26 {
                ((65 + k) as u8) as char
            } else {
                ((97 + k - 26) as u8) as char
            };
            letters.push(c);
            i = i + 1;
        }
        let mut digits: Vec<char> = Vec::new();
        push_decimal(&mut digits, sequence);
        let mixed = interleave(digits.as_slice(), letters.as_slice());
        proof {
            lemma_interleave_len(digits@, letters@);
        }
        let mut text: Vec<char> = Vec::new();
        let mut j: usize = 0;
        while j < LOGIN_KEY_LEN
            invariant
                j <= LOGIN_KEY_LEN,
                mixed@.len() >= LOGIN_KEY_LEN,
                text@ == mixed@.take(j as int),
            decreases LOGIN_KEY_LEN - j,
        {
            text.push(mixed[j]);
            j = j + 1;
            assert(text@ =~= mixed@.take(j as int));
        }
        let key_sequence = string_from_chars(&text);
        proof {
            assert(digits@ =~= spec_decimal(sequence as nat));
            assert(is_login_key_text(key_sequence@, sequence as nat));
            lemma_key_text_ascii(key_sequence@, sequence as nat, letters@);
            vstd::utf8::is_ascii_chars_encode_utf8(key_sequence@);
        }
        let iv = salt_iv(salt);
        match blowfish_cbc_encrypt(self.login_key_secret.as_slice(), iv, key_sequence.as_str().as_bytes()) {
            Ok(c) => Ok(base64url_nopad_encode(c.as_slice())),
            Err(m) => Err(IdentityError::Encryption(m)),
        }
    }

    /// The key text of an encrypted login key and its salt.
    pub fn decode_login_key(&self, key: &str, salt: &str) -> (r: Result<String, IdentityError>)
        requires
            encode_utf8(key@).len() <= usize::MAX / 8,
            encode_utf8(salt@).len() >= CIPHER_IV_LEN,
        ensures
            spec_decrypted(spec_base64url_nopad_decode(encode_utf8(key@)), self.login_key_secret@, salt@, r),
            forall|s: Seq<char>| spec_encrypted_key(self.login_key_secret@, salt@, s) == Some(key@)
                ==> (r matches Ok(t) && t@ == s),
    {
        let bytes = match base64url_nopad_decode(key.as_bytes()) {
            Ok(b) => b,
            Err(e) => return Err(IdentityError::Encryption(e.to_display_string())),
        };
        let iv = salt_iv(salt);
        let plain = match blowfish_cbc_decrypt(self.login_key_secret.as_slice(), iv, bytes.as_slice()) {
            Ok(p) => p,
            Err(m) => return Err(IdentityError::Encryption(m)),
        };
        match utf8_text(plain.as_slice()) {
            Ok(t) => {
                proof {
                    assert forall|s: Seq<char>| spec_encrypted_key(self.login_key_secret@, salt@, s) == Some(key@)
                        implies t@ == s by {
                        lemma_encode_utf8_injective(t@, s);
                    }
                    vstd::utf8::encode_utf8_valid_utf8(t@);
                }
                Ok(t)
            },
            Err(m) => {
                proof {
                    assert forall|s: Seq<char>| spec_encrypted_key(self.login_key_secret@, salt@, s) != Some(key@) by {
                        if spec_encrypted_key(self.login_key_secret@, salt@, s) == Some(key@) {
                            vstd::utf8::encode_utf8_valid_utf8(s);
                        }
                    }
                }
                Err(IdentityError::Encryption(m))
            },
        }
    }
}

proof fn lemma_decimal_len(n: nat)
    ensures
        1 <= spec_decimal(n).len() <= 20 || n > u64::MAX,
        forall|i: int| 0 <= i < spec_decimal(n).len() ==> ('0' <= #[trigger] spec_decimal(n)[i] && spec_decimal(n)[i] <= '9'),
    decreases n,
{
    if n >= 10 {
        lemma_decimal_len(n / 10);
        let d = spec_decimal(n / 10);
        assert forall|i: int| 0 <= i < spec_decimal(n).len() implies ('0' <= #[trigger] spec_decimal(n)[i] && spec_decimal(n)[i] <= '9') by {
            if i < d.len() {
                assert(spec_decimal(n)[i] == d[i]);
            }
        }
        if n <= u64::MAX {
            lemma_decimal_len_bound(n);
        }
    }
}

/// `10^k`.
pub open spec fn pow10(k: nat) -> nat
    decreases k,
{
    if k == 0 {
        1
    } else {
        10 * pow10((k - 1) as nat)
    }
}

proof fn lemma_decimal_len_pow10(n: nat, k: nat)
    requires
        k >= 1,
        n < pow10(k),
    ensures
        spec_decimal(n).len() <= k,
    decreases k,
{
    if n >= 10 {
        let p = pow10((k - 1) as nat);
        if k == 1 {
            assert(pow10(1) == 10 * pow10(0));
        }
        assert(k >= 2);
        assert(n / 10 < p) by (nonlinear_arith)
            requires
                n < 10 * p,
        ;
        lemma_decimal_len_pow10(n / 10, (k - 1) as nat);
    }
}

proof fn lemma_decimal_len_bound(n: nat)
    requires
        n <= u64::MAX,
    ensures
        spec_decimal(n).len() <= 20,
{
    assert(pow10(20) == 100_000_000_000_000_000_000) by {
        reveal_with_fuel(pow10, 21);
    }
    lemma_decimal_len_pow10(n, 20);
}

proof fn lemma_zero_padded_ascii(n: nat)
    ensures
        is_ascii_chars(spec_zero_padded(n)),
{
    lemma_decimal_len(n);
    let z = spec_zero_padded(n);
    let d = spec_decimal(n);
    assert forall|i: int| 0 <= i < z.len() implies #[trigger] z[i] <= '\u{7f}' by {
        if d.len() < 10 {
            let p = (10 - d.len()) as int;
            if i >= p {
                assert(z[i] == d[i - p]);
            }
        }
    }
}

proof fn lemma_interleave_len(a: Seq<char>, b: Seq<char>)
    ensures
        spec_interleave(a, b).len() == a.len() + b.len(),
    decreases a.len() + b.len(),
{
    if a.len() > 0 {
        lemma_interleave_len(b, a.drop_first());
    }
}

proof fn lemma_interleave_ascii(a: Seq<char>, b: Seq<char>)
    requires
        is_ascii_chars(a),
        is_ascii_chars(b),
    ensures
        is_ascii_chars(spec_interleave(a, b)),
    decreases a.len() + b.len(),
{
    if a.len() > 0 {
        assert(is_ascii_chars(a.drop_first()));
        lemma_interleave_ascii(b, a.drop_first());
        let r = spec_interleave(b, a.drop_first());
        let x = spec_interleave(a, b);
        assert forall|i: int| 0 <= i < x.len() implies '\0' <= #[trigger] x[i] <= '\u{7f}' by {
            if i > 0 {
                assert(x[i] == r[i - 1]);
            }
        }
    }
}

proof fn lemma_key_text_ascii(text: Seq<char>, n: nat, letters: Seq<char>)
    requires
        forall|i: int| 0 <= i < letters.len() ==> is_key_letter(#[trigger] letters[i]),
        text == spec_interleave(spec_decimal(n), letters).take(LOGIN_KEY_LEN as int),
        spec_interleave(spec_decimal(n), letters).len() >= LOGIN_KEY_LEN,
    ensures
        is_ascii_chars(text),
{
    lemma_decimal_len(n);
    let d = spec_decimal(n);
    assert forall|i: int| 0 <= i < d.len() implies '\0' <= #[trigger] d[i] <= '\u{7f}' by {}
    assert forall|i: int| 0 <= i < letters.len() implies '\0' <= #[trigger] letters[i] <= '\u{7f}' by {
        assert(is_key_letter(letters[i]));
    }
    lemma_interleave_ascii(d, letters);
    let x = spec_interleave(d, letters);
    assert forall|i: int| 0 <= i < text.len() implies '\0' <= #[trigger] text[i] <= '\u{7f}' by {
        assert(text[i] == x[i]);
    }
}


/// A conflict with a stored entity: the storage answered 409.
pub open spec fn spec_is_conflict(err: StorageError) -> bool {
    err == StorageError::UnexpectedStatus(409)
}

/// Whether the storage answered 409.
pub fn is_conflict(err: &StorageError) -> (r: bool)
    ensures
        r == spec_is_conflict(*err),
{
    match err {
        StorageError::UnexpectedStatus(code) => *code == 409,
        StorageError::Other(_) => false,
    }
}

/// The error of a failed index insertion: `taken` on a conflict, else the
/// storage failure.
pub open spec fn is_index_insert_error(e: IdentityError, err: StorageError, taken: IdentityError) -> bool {
    if spec_is_conflict(err) {
        e == taken
    } else {
        e matches IdentityError::DB(m) && m@ == err.spec_describe()
    }
}

fn index_insert_error(err: &StorageError, taken: IdentityError) -> (e: IdentityError)
    ensures
        is_index_insert_error(e, *err, taken),
{
    if is_conflict(err) {
        taken
    } else {
        IdentityError::from_storage_error(err)
    }
}

/// A new user as registration stores it: an encrypted id of the zero padded
/// sequence number, a fresh salt, the hash of the password with that salt,
/// the name and the email, not validated yet.
pub open spec fn is_new_identity_entry(
    e: TableEntity<Identity>,
    secret: Seq<u8>,
    sequence: nat,
    name: Seq<char>,
    email: Option<Seq<char>>,
    password: Seq<char>,
) -> bool {
    &&& e.payload.sequence_id@ == spec_zero_padded(sequence)
    &&& is_user_salt(e.payload.salt@)
    &&& spec_encrypted_id(secret, e.payload.salt@, e.payload.sequence_id@) == Some(e.row_key@)
    &&& e.partition_key@ == spec_user_partition(e.row_key@)
    &&& e.etag is None
    &&& e.timestamp is None
    &&& e.payload.name@ == name
    &&& match (e.payload.email, email) {
        (Some(a), Some(b)) => a@ == b,
        (None, None) => true,
        _ => false,
    }
    &&& !e.payload.email_validated
    &&& spec_argon2_hash_encoded(encode_utf8(password), encode_utf8(e.payload.salt@))
        == Ok::<Seq<char>, Seq<char>>(e.payload.password_hash@)
}

/// The name and the email of a user start with two whole characters, so
/// that their index keys can be made.
pub open spec fn has_index_keys(e: TableEntity<Identity>) -> bool {
    &&& is_char_boundary(encode_utf8(e.payload.name@), 2)
    &&& e.payload.email matches Some(x) ==> is_char_boundary(encode_utf8(x@), 2)
}

/// The stages of registering a user.
#[derive(Debug)]
pub enum CreateIdentityStage {
    AwaitNameCheck,
    AwaitEmailCheck,
    AwaitSequenceId,
    /// The new user with an id of this sequence number was sent for insertion.
    AwaitUser { sequence: u64 },
    /// The user is stored; its name index entry was sent.
    AwaitNameIndex { identity: IdentityEntry },
    /// The name index entry is stored; the email index entry was sent.
    AwaitEmailIndex { identity: IdentityEntry, name_index: NameIndexEntry },
    /// Registration failed after the user was stored; it is being removed.
    AwaitRollback { error: IdentityError },
    Finished,
}

/// What the storage reports back to the registration.
#[derive(Debug)]
pub enum CreateIdentityEvent {
    /// Whether an entry of the name index exists.
    NameChecked(Result<bool, StorageError>),
    /// Whether an entry of the email index exists.
    EmailChecked(Result<bool, StorageError>),
    SequenceIdAllocated(Result<u64, IdSequenceError>),
    UserInserted(Result<TableEntity<Identity>, StorageError>),
    NameIndexInserted(Result<TableEntity<NameIndex>, StorageError>),
    EmailIndexInserted(Result<TableEntity<EmailIndex>, StorageError>),
    /// The removals were done (failures are only logged).
    RolledBack,
}

/// What the registration asks the caller to do next.
#[derive(Debug)]
pub enum CreateIdentityAction {
    CheckName { partition_key: String, row_key: String },
    CheckEmail { partition_key: String, row_key: String },
    AllocateSequenceId,
    InsertUser(TableEntity<Identity>),
    InsertNameIndex(TableEntity<NameIndex>),
    InsertEmailIndex(TableEntity<EmailIndex>),
    /// Remove the stored user, then the stored name index entry.
    Rollback { user: TableEntity<Identity>, name_index: Option<TableEntity<NameIndex>> },
    Finish(Result<IdentityEntry, IdentityError>),
}

/// Registration of a user with an encrypted id: the name and the email are
/// checked to be free, a sequence number is taken and encrypted into the
/// id, the user is stored, then its name and email index entries; if an
/// index entry cannot be stored, what was stored is removed again.
#[derive(Debug)]
pub struct CreateIdentityFlow {
    pub name: String,
    pub email: Option<String>,
    pub password: String,
    /// How many more times an id collision is retried with a new id; without
    /// a count, a failed insertion of the user is a storage failure.
    pub id_conflict_retries: Option<u32>,
    pub stage: CreateIdentityStage,
}

impl CreateIdentityFlow {
    /// Which event the flow waits for in its stage.
    pub open spec fn spec_accepts(&self, event: CreateIdentityEvent) -> bool {
        match self.stage {
            CreateIdentityStage::AwaitNameCheck => event is NameChecked,
            CreateIdentityStage::AwaitEmailCheck => event is EmailChecked,
            CreateIdentityStage::AwaitSequenceId => event is SequenceIdAllocated,
            CreateIdentityStage::AwaitUser { .. } => event is UserInserted,
            CreateIdentityStage::AwaitNameIndex { .. } => event is NameIndexInserted,
            CreateIdentityStage::AwaitEmailIndex { .. } => event is EmailIndexInserted,
            CreateIdentityStage::AwaitRollback { .. } => event is RolledBack,
            CreateIdentityStage::Finished => false,
        }
    }

    /// The name and email of the flow have their keys: both start with two
    /// whole characters.
    pub open spec fn wf(&self) -> bool {
        &&& is_char_boundary(encode_utf8(self.name@), 2)
        &&& self.email matches Some(e) ==> is_char_boundary(encode_utf8(e@), 2)
        &&& match self.stage {
            CreateIdentityStage::AwaitNameIndex { identity } => has_index_keys(identity.0),
            CreateIdentityStage::AwaitEmailIndex { identity, .. } => has_index_keys(identity.0),
            _ => true,
        }
    }

    /// An attempt to store the user with an id of the sequence number: the
    /// new user is sent for insertion, or the id or the hash cannot be made.
    pub open spec fn spec_user_attempt(&self, secret: Seq<u8>, n: u64, action: CreateIdentityAction) -> bool {
        ||| self.stage == CreateIdentityStage::AwaitUser { sequence: n } && (action matches CreateIdentityAction::InsertUser(e)
            && is_new_identity_entry(e, secret, n as nat, self.name@,
                match self.email { Some(x) => Some(x@), None => None }, self.password@))
        ||| self.stage is Finished && (action matches CreateIdentityAction::Finish(Err(IdentityError::Encryption(_))))
            && (!(4 <= secret.len() <= 56) || encode_utf8(self.password@).len() > 0xFFFF_FFFF)
    }

    fn start_user(&mut self, user_id_secret: &Vec<u8>, n: u64) -> (action: CreateIdentityAction)
        requires
            old(self).wf(),
        ensures
            final(self).wf(),
            final(self).name@ == old(self).name@,
            final(self).email == old(self).email,
            final(self).password@ == old(self).password@,
            final(self).id_conflict_retries == old(self).id_conflict_retries,
            final(self).spec_user_attempt(user_id_secret@, n, action),
    {
        self.stage = CreateIdentityStage::Finished;
        match generate_user_id(user_id_secret, n) {
            Ok((id, sequence_id, salt)) => {
                proof {
                    lemma_user_salt_bytes(salt@);
                    lemma_ascii_boundary(id@);
                }
                match argon2_hash_encoded(self.password.as_str().as_bytes(), salt.as_str().as_bytes()) {
                    Ok(password_hash) => {
                        let email = match &self.email {
                            Some(e) => Some(e.clone()),
                            None => None,
                        };
                        let user = IdentityEntry::new(id, sequence_id, salt, self.name.clone(), email, password_hash);
                        self.stage = CreateIdentityStage::AwaitUser { sequence: n };
                        CreateIdentityAction::InsertUser(user.into_entry())
                    },
                    Err(text) => CreateIdentityAction::Finish(Err(IdentityError::Encryption(text))),
                }
            },
            Err(e) => CreateIdentityAction::Finish(Err(e)),
        }
    }

    /// Advances the registration with what the storage reported.
    pub fn step(&mut self, user_id_secret: &Vec<u8>, event: CreateIdentityEvent) -> (action: CreateIdentityAction)
        requires
            old(self).wf(),
            old(self).spec_accepts(event),
            event matches CreateIdentityEvent::UserInserted(Ok(e)) ==> has_index_keys(e),
        ensures
            final(self).wf(),
            final(self).name@ == old(self).name@,
            final(self).password@ == old(self).password@,
            match (old(self).stage, event) {
                (CreateIdentityStage::AwaitNameCheck, CreateIdentityEvent::NameChecked(Ok(found))) => {
                    if found {
                        final(self).stage is Finished && action matches CreateIdentityAction::Finish(Err(IdentityError::NameTaken))
                    } else {
                        match old(self).email {
                            Some(email) => final(self).stage is AwaitEmailCheck
                                && (action matches CreateIdentityAction::CheckEmail { partition_key, row_key }
                                && partition_key@ == spec_email_partition(email@) && row_key@ == email@),
                            None => final(self).stage is AwaitSequenceId && action is AllocateSequenceId,
                        }
                    }
                },
                (CreateIdentityStage::AwaitEmailCheck, CreateIdentityEvent::EmailChecked(Ok(found))) => {
                    if found {
                        final(self).stage is Finished && action matches CreateIdentityAction::Finish(Err(IdentityError::EmailTaken))
                    } else {
                        final(self).stage is AwaitSequenceId && action is AllocateSequenceId
                    }
                },
                (CreateIdentityStage::AwaitNameCheck, CreateIdentityEvent::NameChecked(Err(err))) => {
                    final(self).stage is Finished && (action matches CreateIdentityAction::Finish(Err(IdentityError::DB(m)))
                        && m@ == err.spec_describe())
                },
                (CreateIdentityStage::AwaitEmailCheck, CreateIdentityEvent::EmailChecked(Err(err))) => {
                    final(self).stage is Finished && (action matches CreateIdentityAction::Finish(Err(IdentityError::DB(m)))
                        && m@ == err.spec_describe())
                },
                (CreateIdentityStage::AwaitSequenceId, CreateIdentityEvent::SequenceIdAllocated(Ok(n))) => {
                    final(self).id_conflict_retries == old(self).id_conflict_retries
                        && final(self).spec_user_attempt(user_id_secret@, n, action)
                },
                (CreateIdentityStage::AwaitSequenceId, CreateIdentityEvent::SequenceIdAllocated(Err(err))) => {
                    final(self).stage is Finished && (action matches CreateIdentityAction::Finish(Err(IdentityError::DB(m)))
                        && m@ == spec_sequence_failure(err))
                },
                (CreateIdentityStage::AwaitUser { .. }, CreateIdentityEvent::UserInserted(Ok(e))) => {
                    &&& final(self).stage matches CreateIdentityStage::AwaitNameIndex { identity } && identity.0 == e
                    &&& action matches CreateIdentityAction::InsertNameIndex(n) && is_name_index_entry(n, e)
                },
                (CreateIdentityStage::AwaitUser { sequence }, CreateIdentityEvent::UserInserted(Err(err))) => {
                    match old(self).id_conflict_retries {
                        Some(k) if spec_is_conflict(err) => if k > 0 {
                            final(self).id_conflict_retries == Some((k - 1) as u32)
                                && final(self).spec_user_attempt(user_id_secret@, sequence, action)
                        } else {
                            final(self).stage is Finished
                                && action matches CreateIdentityAction::Finish(Err(IdentityError::IdentityIdConflict))
                        },
                        _ => final(self).stage is Finished && (action matches CreateIdentityAction::Finish(Err(IdentityError::DB(m)))
                            && m@ == err.spec_describe()),
                    }
                },
                (CreateIdentityStage::AwaitNameIndex { identity }, CreateIdentityEvent::NameIndexInserted(Ok(n))) => {
                    match identity.0.payload.email {
                        Some(email) => {
                            &&& final(self).stage matches CreateIdentityStage::AwaitEmailIndex { identity: i, name_index }
                                && i == identity && name_index.0 == n
                            &&& action matches CreateIdentityAction::InsertEmailIndex(x) && is_email_index_entry(x, identity.0, email@)
                        },
                        None => final(self).stage is Finished && action == CreateIdentityAction::Finish(Ok(identity)),
                    }
                },
                (CreateIdentityStage::AwaitNameIndex { identity }, CreateIdentityEvent::NameIndexInserted(Err(err))) => {
                    &&& final(self).stage matches CreateIdentityStage::AwaitRollback { error }
                        && is_index_insert_error(error, err, IdentityError::NameTaken)
                    &&& action == CreateIdentityAction::Rollback { user: identity.0, name_index: None }
                },
                (CreateIdentityStage::AwaitEmailIndex { identity, .. }, CreateIdentityEvent::EmailIndexInserted(Ok(_))) => {
                    final(self).stage is Finished && action == CreateIdentityAction::Finish(Ok(identity))
                },
                (CreateIdentityStage::AwaitEmailIndex { identity, name_index }, CreateIdentityEvent::EmailIndexInserted(Err(err))) => {
                    &&& final(self).stage matches CreateIdentityStage::AwaitRollback { error }
                        && is_index_insert_error(error, err, IdentityError::EmailTaken)
                    &&& action == CreateIdentityAction::Rollback { user: identity.0, name_index: Some(name_index.0) }
                },
                (CreateIdentityStage::AwaitRollback { error }, CreateIdentityEvent::RolledBack) => {
                    final(self).stage is Finished && action == CreateIdentityAction::Finish(Err(error))
                },
                _ => false,
            },
    {
        let mut stage = CreateIdentityStage::Finished;
        std::mem::swap(&mut stage, &mut self.stage);
        match (stage, event) {
            (CreateIdentityStage::AwaitNameCheck, CreateIdentityEvent::NameChecked(Ok(found))) => {
                if found {
                    CreateIdentityAction::Finish(Err(IdentityError::NameTaken))
                } else {
                    match &self.email {
                        Some(email) => {
                            let partition_key = EmailIndexEntry::generate_partion_key(email.as_str());
                            self.stage = CreateIdentityStage::AwaitEmailCheck;
                            CreateIdentityAction::CheckEmail { partition_key, row_key: email.clone() }
                        },
                        None => {
                            self.stage = CreateIdentityStage::AwaitSequenceId;
                            CreateIdentityAction::AllocateSequenceId
                        },
                    }
                }
            },
            (CreateIdentityStage::AwaitEmailCheck, CreateIdentityEvent::EmailChecked(Ok(found))) => {
                if found {
                    CreateIdentityAction::Finish(Err(IdentityError::EmailTaken))
                } else {
                    self.stage = CreateIdentityStage::AwaitSequenceId;
                    CreateIdentityAction::AllocateSequenceId
                }
            },
            (CreateIdentityStage::AwaitNameCheck, CreateIdentityEvent::NameChecked(Err(err))) => {
                CreateIdentityAction::Finish(Err(IdentityError::from_storage_error(&err)))
            },
            (CreateIdentityStage::AwaitEmailCheck, CreateIdentityEvent::EmailChecked(Err(err))) => {
                CreateIdentityAction::Finish(Err(IdentityError::from_storage_error(&err)))
            },
            (CreateIdentityStage::AwaitSequenceId, CreateIdentityEvent::SequenceIdAllocated(Ok(n))) => {
                self.start_user(user_id_secret, n)
            },
            (CreateIdentityStage::AwaitSequenceId, CreateIdentityEvent::SequenceIdAllocated(Err(err))) => {
                CreateIdentityAction::Finish(Err(IdentityError::from_id_sequence_error(&err)))
            },
            (CreateIdentityStage::AwaitUser { .. }, CreateIdentityEvent::UserInserted(Ok(e))) => {
                let identity = IdentityEntry::from_entry(e);
                let name_index = NameIndexEntry::from_identity(&identity);
                self.stage = CreateIdentityStage::AwaitNameIndex { identity };
                CreateIdentityAction::InsertNameIndex(name_index.into_entry())
            },
            (CreateIdentityStage::AwaitUser { sequence }, CreateIdentityEvent::UserInserted(Err(err))) => {
                let conflict = is_conflict(&err);
                match self.id_conflict_retries {
                    Some(k) => {
                        if !conflict {
                            CreateIdentityAction::Finish(Err(IdentityError::from_storage_error(&err)))
                        } else if k > 0 {
                            self.id_conflict_retries = Some(k - 1);
                            self.start_user(user_id_secret, sequence)
                        } else {
                            CreateIdentityAction::Finish(Err(IdentityError::IdentityIdConflict))
                        }
                    },
                    None => CreateIdentityAction::Finish(Err(IdentityError::from_storage_error(&err))),
                }
            },
            (CreateIdentityStage::AwaitNameIndex { identity }, CreateIdentityEvent::NameIndexInserted(Ok(n))) => {
                match EmailIndexEntry::from_identity(&identity) {
                    Some(email_index) => {
                        self.stage = CreateIdentityStage::AwaitEmailIndex {
                            identity,
                            name_index: NameIndexEntry::from_entry(n),
                        };
                        CreateIdentityAction::InsertEmailIndex(email_index.into_entry())
                    },
                    None => CreateIdentityAction::Finish(Ok(identity)),
                }
            },
            (CreateIdentityStage::AwaitNameIndex { identity }, CreateIdentityEvent::NameIndexInserted(Err(err))) => {
                let error = index_insert_error(&err, IdentityError::NameTaken);
                self.stage = CreateIdentityStage::AwaitRollback { error };
                CreateIdentityAction::Rollback { user: identity.into_entry(), name_index: None }
            },
            (CreateIdentityStage::AwaitEmailIndex { identity, .. }, CreateIdentityEvent::EmailIndexInserted(Ok(_))) => {
                CreateIdentityAction::Finish(Ok(identity))
            },
            (CreateIdentityStage::AwaitEmailIndex { identity, name_index }, CreateIdentityEvent::EmailIndexInserted(Err(err))) => {
                let error = index_insert_error(&err, IdentityError::EmailTaken);
                self.stage = CreateIdentityStage::AwaitRollback { error };
                CreateIdentityAction::Rollback { user: identity.into_entry(), name_index: Some(name_index.into_entry()) }
            },
            (CreateIdentityStage::AwaitRollback { error }, CreateIdentityEvent::RolledBack) => {
                CreateIdentityAction::Finish(Err(error))
            },
            (stage, _) => {
                proof {
                    assert(false);
                }
                self.stage = stage;
                CreateIdentityAction::Finish(Err(IdentityError::SessionRequired))
            },
        }
    }
}

proof fn lemma_ascii_boundary(s: Seq<char>)
    requires
        is_ascii_chars(s),
        s.len() >= 2,
    ensures
        is_char_boundary(encode_utf8(s), 2),
{
    crate::text::lemma_ascii_char_boundary(s, 2);
}

/// Registration of a user may start: the name is alphanumeric and the
/// email, if any, valid.
pub open spec fn spec_registration_valid(name: Seq<char>, email: Option<&str>) -> bool {
    &&& spec_valid_username(name)
    &&& email matches Some(e) ==> spec_validate_email(e@)
}

/// The registration of a user as it starts: refused for a name that is not
/// alphanumeric or an invalid email, else waiting for the check of the name
/// index entry.
pub open spec fn spec_registration_started(
    name: Seq<char>,
    email: Option<&str>,
    password: Seq<char>,
    id_conflict_retries: Option<u32>,
    r: Result<(CreateIdentityFlow, CreateIdentityAction), IdentityError>,
) -> bool {
    if !spec_valid_username(name) {
        r matches Err(IdentityError::InvalidName)
    } else if email matches Some(e) && !spec_validate_email(e@) {
        r matches Err(IdentityError::InvalidEmail)
    } else {
        r matches Ok((flow, action)) && {
            &&& flow.name@ == name
            &&& flow.password@ == password
            &&& match (flow.email, email) {
                (Some(a), Some(b)) => a@ == b@,
                (None, None) => true,
                _ => false,
            }
            &&& flow.id_conflict_retries == id_conflict_retries
            &&& flow.stage is AwaitNameCheck
            &&& flow.wf()
            &&& action matches CreateIdentityAction::CheckName { partition_key, row_key }
                && partition_key@ == spec_name_partition(name) && row_key@ == name
        }
    }
}

/// Starts the registration of a user, with the given number of retries of
/// an id collision.
pub fn start_registration(name: &str, email: Option<&str>, password: &str, id_conflict_retries: Option<u32>) -> (r: Result<
    (CreateIdentityFlow, CreateIdentityAction),
    IdentityError,
>)
    requires
        spec_registration_valid(name@, email) ==> is_char_boundary(encode_utf8(name@), 2),
        spec_registration_valid(name@, email) ==> (email matches Some(e) ==> is_char_boundary(encode_utf8(e@), 2)),
    ensures
        spec_registration_started(name@, email, password@, id_conflict_retries, r),
{
    if !validate_username(name) {
        return Err(IdentityError::InvalidName);
    }
    match email {
        Some(e) => {
            if !validate_email(e) {
                return Err(IdentityError::InvalidEmail);
            }
        },
        None => {},
    }
    let partition_key = NameIndexEntry::generate_partion_key(name);
    let flow = CreateIdentityFlow {
        name: name.to_owned(),
        email: match email {
            Some(e) => Some(e.to_owned()),
            None => None,
        },
        password: password.to_owned(),
        id_conflict_retries,
        stage: CreateIdentityStage::AwaitNameCheck,
    };
    Ok((flow, CreateIdentityAction::CheckName { partition_key, row_key: name.to_owned() }))
}

impl IdentityDB {
    /// Registers a user. The name must be alphanumeric and the email, if
    /// any, valid; the flow then starts by looking up the name index. A
    /// failed insertion of the user is not retried.
    pub fn create(&self, name: &str, email: Option<&str>, password: &str) -> (r: Result<
        (CreateIdentityFlow, CreateIdentityAction),
        IdentityError,
    >)
        requires
            spec_registration_valid(name@, email) ==> is_char_boundary(encode_utf8(name@), 2),
            spec_registration_valid(name@, email) ==> (email matches Some(e) ==> is_char_boundary(encode_utf8(e@), 2)),
        ensures
            spec_registration_started(name@, email, password@, None, r),
    {
        start_registration(name, email, password, None)
    }
}


/// The stages of finding a user by login name or email.
#[derive(Debug)]
pub enum FindLoginStage {
    AwaitIndices,
    AwaitUser,
    Finished,
}

/// What the storage reports back to the lookup.
#[derive(Debug)]
pub enum FindLoginEvent {
    IndicesLoaded(Result<Vec<TableEntity<IdentityIndex>>, StorageError>),
    UserLoaded(Result<Option<TableEntity<Identity>>, StorageError>),
}

/// What the lookup asks the caller to do next.
#[derive(Debug)]
pub enum FindLoginAction {
    QueryIndices(String),
    GetUser { partition_key: String, row_key: String },
    Finish(Result<IdentityEntry, IdentityError>),
}

/// Lookup of a user by login name or email through the indices; the
/// password, if given, is checked against the stored hash.
#[derive(Debug)]
pub struct FindLoginFlow {
    pub password: Option<String>,
    pub stage: FindLoginStage,
}

/// The storage condition that selects the name or the email index entry of
/// a login text.
pub open spec fn spec_login_condition(login: Seq<char>) -> Seq<char> {
    "(("@ + spec_key_condition(spec_name_partition(login), login) + ") or ("@
        + spec_key_condition(spec_email_partition(login), login) + "))"@
}

/// The login query finds a user by name or by email: its condition selects
/// the name index entry of the login text and also its email index entry,
/// so a user whose name (or email) is the login text is found through
/// either entry.
pub proof fn lemma_login_condition_selects_the_index_entries(
    login: Seq<char>,
    identity: TableEntity<Identity>,
    name_entry: TableEntity<NameIndex>,
    email_entry: TableEntity<EmailIndex>,
)
    ensures
        spec_condition_selects(spec_login_condition(login), spec_name_partition(login), login),
        spec_condition_selects(spec_login_condition(login), spec_email_partition(login), login),
        is_name_index_entry(name_entry, identity) && identity.payload.name@ == login ==> spec_condition_selects(
            spec_login_condition(login), name_entry.partition_key@, name_entry.row_key@),
        is_email_index_entry(email_entry, identity, login) ==> spec_condition_selects(
            spec_login_condition(login), email_entry.partition_key@, email_entry.row_key@),
{
    let np = spec_name_partition(login);
    let ep = spec_email_partition(login);
    let a = spec_key_condition(np, login);
    let b = spec_key_condition(ep, login);
    lemma_key_condition_selects(np, login);
    lemma_key_condition_selects(ep, login);
    lemma_or_condition_selects(a, b, np, login);
    lemma_or_condition_selects(a, b, ep, login);
}

impl FindLoginFlow {
    /// Which event the flow waits for in its stage.
    pub open spec fn spec_accepts(&self, event: FindLoginEvent) -> bool {
        match self.stage {
            FindLoginStage::AwaitIndices => event is IndicesLoaded,
            FindLoginStage::AwaitUser => event is UserLoaded,
            FindLoginStage::Finished => false,
        }
    }

    /// Advances the lookup with what the storage reported. At most one
    /// index entry may match.
    pub fn step(&mut self, event: FindLoginEvent) -> (action: FindLoginAction)
        requires
            old(self).spec_accepts(event),
            event matches FindLoginEvent::IndicesLoaded(Ok(v)) ==> (v@.len() <= 1
                && (v@.len() == 1 ==> is_char_boundary(encode_utf8(v@[0].payload.user_id@), 2))),
        ensures
            final(self).password == old(self).password,
            match (old(self).stage, event) {
                (FindLoginStage::AwaitIndices, FindLoginEvent::IndicesLoaded(Ok(v))) => {
                    if v@.len() == 0 {
                        final(self).stage is Finished && action matches FindLoginAction::Finish(Err(IdentityError::IdentityNotFound))
                    } else {
                        &&& final(self).stage is AwaitUser
                        &&& action matches FindLoginAction::GetUser { partition_key, row_key }
                            && partition_key@ == spec_user_partition(v@[0].payload.user_id@)
                            && row_key@ == v@[0].payload.user_id@
                    }
                },
                (FindLoginStage::AwaitIndices, FindLoginEvent::IndicesLoaded(Err(err))) => {
                    final(self).stage is Finished && (action matches FindLoginAction::Finish(Err(IdentityError::DB(m)))
                        && m@ == err.spec_describe())
                },
                (FindLoginStage::AwaitUser, FindLoginEvent::UserLoaded(Ok(Some(e)))) => {
                    &&& final(self).stage is Finished
                    &&& match old(self).password {
                        None => action == FindLoginAction::Finish(Ok(IdentityEntry(e))),
                        Some(p) => {
                            &&& match spec_argon2_verify_encoded(e.payload.password_hash@, encode_utf8(p@)) {
                                Ok(true) => action == FindLoginAction::Finish(Ok(IdentityEntry(e))),
                                Ok(false) => action matches FindLoginAction::Finish(Err(IdentityError::PasswordNotMatching)),
                                Err(t) => action matches FindLoginAction::Finish(Err(IdentityError::Encryption(m))) && m@ == t,
                            }
                            &&& (exists|salt: Seq<u8>| spec_argon2_hash_encoded(encode_utf8(p@), salt)
                                == Ok::<Seq<char>, Seq<char>>(e.payload.password_hash@))
                                ==> action == FindLoginAction::Finish(Ok(IdentityEntry(e)))
                        },
                    }
                },
                (FindLoginStage::AwaitUser, FindLoginEvent::UserLoaded(Ok(None))) => {
                    final(self).stage is Finished && action matches FindLoginAction::Finish(Err(IdentityError::IdentityNotFound))
                },
                (FindLoginStage::AwaitUser, FindLoginEvent::UserLoaded(Err(err))) => {
                    final(self).stage is Finished && (action matches FindLoginAction::Finish(Err(IdentityError::DB(m)))
                        && m@ == err.spec_describe())
                },
                _ => false,
            },
    {
        let mut stage = FindLoginStage::Finished;
        std::mem::swap(&mut stage, &mut self.stage);
        match (stage, event) {
            (FindLoginStage::AwaitIndices, FindLoginEvent::IndicesLoaded(Ok(indices))) => {
                if indices.len() == 0 {
                    FindLoginAction::Finish(Err(IdentityError::IdentityNotFound))
                } else {
                    let user_id = indices[0].payload.user_id.as_str();
                    let partition_key = IdentityEntry::generate_partion_key(user_id);
                    self.stage = FindLoginStage::AwaitUser;
                    FindLoginAction::GetUser { partition_key, row_key: user_id.to_owned() }
                }
            },
            (FindLoginStage::AwaitIndices, FindLoginEvent::IndicesLoaded(Err(err))) => {
                FindLoginAction::Finish(Err(IdentityError::from_storage_error(&err)))
            },
            (FindLoginStage::AwaitUser, FindLoginEvent::UserLoaded(Ok(Some(e)))) => {
                let identity = IdentityEntry::from_entry(e);
                match &self.password {
                    None => FindLoginAction::Finish(Ok(identity)),
                    Some(p) => {
                        match argon2_verify_encoded(identity.data().password_hash.as_str(), p.as_str().as_bytes()) {
                            Ok(true) => FindLoginAction::Finish(Ok(identity)),
                            Ok(false) => FindLoginAction::Finish(Err(IdentityError::PasswordNotMatching)),
                            Err(t) => FindLoginAction::Finish(Err(IdentityError::Encryption(t))),
                        }
                    },
                }
            },
            (FindLoginStage::AwaitUser, FindLoginEvent::UserLoaded(Ok(None))) => {
                FindLoginAction::Finish(Err(IdentityError::IdentityNotFound))
            },
            (FindLoginStage::AwaitUser, FindLoginEvent::UserLoaded(Err(err))) => {
                FindLoginAction::Finish(Err(IdentityError::from_storage_error(&err)))
            },
            (stage, _) => {
                proof {
                    assert(false);
                }
                self.stage = stage;
                FindLoginAction::Finish(Err(IdentityError::SessionRequired))
            },
        }
    }
}

/// The stages of logging in a user.
#[derive(Debug)]
pub enum CreateLoginStage {
    /// A sequence number for the login key was asked for.
    AwaitKeySequence,
    /// The login with a fresh key was sent for insertion.
    AwaitLogin,
    /// The login is stored; its index entry was sent.
    AwaitLoginIndex { login: LoginEntry },
    /// The index entry could not be stored; the login is being removed.
    AwaitRollback { error: IdentityError },
    Finished,
}

/// What the storage reports back to the login.
#[derive(Debug)]
pub enum CreateLoginEvent {
    KeySequenceAllocated(Result<u64, IdSequenceError>),
    LoginInserted(Result<TableEntity<Login>, StorageError>),
    LoginIndexInserted(Result<TableEntity<LoginIndex>, StorageError>),
    RolledBack,
}

/// What the login asks the caller to do next.
#[derive(Debug)]
pub enum CreateLoginAction {
    AllocateKeySequence,
    InsertLogin(TableEntity<Login>),
    InsertLoginIndex(TableEntity<LoginIndex>),
    Rollback(TableEntity<Login>),
    Finish(Result<LoginEntry, IdentityError>),
}

/// A login of a user from a remote: a login with a fresh encrypted key is
/// stored (a key collision is retried with a new key), then its index entry;
/// if the index entry cannot be stored, the login is removed again.
#[derive(Debug)]
pub struct CreateLoginFlow {
    pub user_id: String,
    pub salt: String,
    pub site: SiteInfo,
    pub stage: CreateLoginStage,
}

/// A new login of a user: keyed by the user id and a fresh encrypted key.
pub open spec fn is_new_login(e: TableEntity<Login>, secret: Seq<u8>, user_id: Seq<char>, salt: Seq<char>, site: SiteInfo, n: nat) -> bool {
    &&& e.partition_key@ == user_id
    &&& exists|text: Seq<char>| is_login_key_text(text, n) && spec_encrypted_key(secret, salt, text) == Some(e.row_key@)
    &&& e.etag is None
    &&& e.timestamp is None
    &&& e.payload.site.remote@ == site.remote@
    &&& e.payload.site.agent@ == site.agent@
}

impl CreateLoginFlow {
    /// Which event the flow waits for in its stage.
    pub open spec fn spec_accepts(&self, event: CreateLoginEvent) -> bool {
        match self.stage {
            CreateLoginStage::AwaitKeySequence => event is KeySequenceAllocated,
            CreateLoginStage::AwaitLogin => event is LoginInserted,
            CreateLoginStage::AwaitLoginIndex { .. } => event is LoginIndexInserted,
            CreateLoginStage::AwaitRollback { .. } => event is RolledBack,
            CreateLoginStage::Finished => false,
        }
    }

    /// Advances the login with what the storage reported.
    pub fn step(&mut self, db: &IdentityDB, event: CreateLoginEvent) -> (action: CreateLoginAction)
        requires
            encode_utf8(old(self).salt@).len() >= CIPHER_IV_LEN,
            old(self).spec_accepts(event),
            event matches CreateLoginEvent::LoginInserted(Ok(l)) ==> is_char_boundary(encode_utf8(l.row_key@), 2),
        ensures
            final(self).user_id@ == old(self).user_id@,
            final(self).salt@ == old(self).salt@,
            match (old(self).stage, event) {
                (CreateLoginStage::AwaitKeySequence, CreateLoginEvent::KeySequenceAllocated(Ok(n))) => {
                    ||| final(self).stage is AwaitLogin && (action matches CreateLoginAction::InsertLogin(e)
                        && is_new_login(e, db.login_key_secret@, old(self).user_id@, old(self).salt@, old(self).site, n as nat))
                    ||| final(self).stage is Finished && (action matches CreateLoginAction::Finish(Err(IdentityError::Encryption(_))))
                        && !(4 <= db.login_key_secret@.len() <= 56)
                },
                (CreateLoginStage::AwaitKeySequence, CreateLoginEvent::KeySequenceAllocated(Err(err))) => {
                    final(self).stage is Finished && (action matches CreateLoginAction::Finish(Err(IdentityError::DB(m)))
                        && m@ == spec_sequence_failure(err))
                },
                (CreateLoginStage::AwaitLogin, CreateLoginEvent::LoginInserted(Ok(l))) => {
                    &&& final(self).stage matches CreateLoginStage::AwaitLoginIndex { login } && login.0 == l
                    &&& action matches CreateLoginAction::InsertLoginIndex(x) && is_login_index_entry(x, l)
                },
                (CreateLoginStage::AwaitLogin, CreateLoginEvent::LoginInserted(Err(err))) => {
                    if spec_is_conflict(err) {
                        final(self).stage is AwaitKeySequence && action is AllocateKeySequence
                    } else {
                        final(self).stage is Finished && (action matches CreateLoginAction::Finish(Err(IdentityError::DB(m)))
                            && m@ == err.spec_describe())
                    }
                },
                (CreateLoginStage::AwaitLoginIndex { login }, CreateLoginEvent::LoginIndexInserted(Ok(_))) => {
                    final(self).stage is Finished && action == CreateLoginAction::Finish(Ok(login))
                },
                (CreateLoginStage::AwaitLoginIndex { login }, CreateLoginEvent::LoginIndexInserted(Err(err))) => {
                    &&& final(self).stage matches CreateLoginStage::AwaitRollback { error }
                        && is_index_insert_error(error, err, IdentityError::SessionKeyConflict)
                    &&& action == CreateLoginAction::Rollback(login.0)
                },
                (CreateLoginStage::AwaitRollback { error }, CreateLoginEvent::RolledBack) => {
                    final(self).stage is Finished && action == CreateLoginAction::Finish(Err(error))
                },
                _ => false,
            },
    {
        let mut stage = CreateLoginStage::Finished;
        std::mem::swap(&mut stage, &mut self.stage);
        match (stage, event) {
            (CreateLoginStage::AwaitKeySequence, CreateLoginEvent::KeySequenceAllocated(Ok(n))) => {
                match db.genrate_login_key(self.salt.as_str(), n) {
                    Ok(key) => {
                        let login = LoginEntry::new(self.user_id.clone(), key, self.site.clone());
                        self.stage = CreateLoginStage::AwaitLogin;
                        CreateLoginAction::InsertLogin(login.into_entry())
                    },
                    Err(e) => CreateLoginAction::Finish(Err(e)),
                }
            },
            (CreateLoginStage::AwaitKeySequence, CreateLoginEvent::KeySequenceAllocated(Err(err))) => {
                CreateLoginAction::Finish(Err(IdentityError::from_id_sequence_error(&err)))
            },
            (CreateLoginStage::AwaitLogin, CreateLoginEvent::LoginInserted(Ok(l))) => {
                let login = LoginEntry::from_entry(l);
                let index = LoginIndexEntry::from_identity(&login);
                self.stage = CreateLoginStage::AwaitLoginIndex { login };
                CreateLoginAction::InsertLoginIndex(index.into_entry())
            },
            (CreateLoginStage::AwaitLogin, CreateLoginEvent::LoginInserted(Err(err))) => {
                if is_conflict(&err) {
                    self.stage = CreateLoginStage::AwaitKeySequence;
                    CreateLoginAction::AllocateKeySequence
                } else {
                    CreateLoginAction::Finish(Err(IdentityError::from_storage_error(&err)))
                }
            },
            (CreateLoginStage::AwaitLoginIndex { login }, CreateLoginEvent::LoginIndexInserted(Ok(_))) => {
                CreateLoginAction::Finish(Ok(login))
            },
            (CreateLoginStage::AwaitLoginIndex { login }, CreateLoginEvent::LoginIndexInserted(Err(err))) => {
                let error = index_insert_error(&err, IdentityError::SessionKeyConflict);
                self.stage = CreateLoginStage::AwaitRollback { error };
                CreateLoginAction::Rollback(login.into_entry())
            },
            (CreateLoginStage::AwaitRollback { error }, CreateLoginEvent::RolledBack) => {
                CreateLoginAction::Finish(Err(error))
            },
            (stage, _) => {
                proof {
                    assert(false);
                }
                self.stage = stage;
                CreateLoginAction::Finish(Err(IdentityError::SessionRequired))
            },
        }
    }
}

/// The answer to the name or email availability check, from whether its
/// index entry was found.
pub open spec fn spec_available(found: Result<bool, StorageError>, r: Result<bool, IdentityError>) -> bool {
    match found {
        Ok(f) => r == Ok::<bool, IdentityError>(!f),
        Err(err) => r matches Err(IdentityError::DB(m)) && m@ == err.spec_describe(),
    }
}

/// Whether the name or email can be used, from whether its index entry was
/// found.
pub fn availability(found: Result<bool, StorageError>) -> (r: Result<bool, IdentityError>)
    ensures
        spec_available(found, r),
{
    match found {
        Ok(f) => Ok(!f),
        Err(err) => Err(IdentityError::from_storage_error(&err)),
    }
}

/// Starts the lookup of a user through the index entries of a query; the
/// password, if given, is checked.
pub fn find_login_by_index(query: &str, password: Option<&str>) -> (r: (FindLoginFlow, FindLoginAction))
    ensures
        match password {
            Some(p) => r.0.password matches Some(q) && q@ == p@,
            None => r.0.password is None,
        },
        r.0.stage is AwaitIndices,
        r.1 matches FindLoginAction::QueryIndices(q) && q@ == query@,
{
    let flow = FindLoginFlow {
        password: match password {
            Some(p) => Some(p.to_owned()),
            None => None,
        },
        stage: FindLoginStage::AwaitIndices,
    };
    (flow, FindLoginAction::QueryIndices(query.to_owned()))
}

/// The query that selects the name or the email index entry of a login text.
pub fn login_query(login: &str) -> (q: String)
    requires
        is_char_boundary(encode_utf8(login@), 2),
    ensures
        q@ == spec_filter_query(spec_login_condition(login@)),
{
    let np = NameIndexEntry::generate_partion_key(login);
    let ep = EmailIndexEntry::generate_partion_key(login);
    let mut c: Vec<char> = Vec::new();
    push_str(&mut c, "((");
    push_key_condition(&mut c, np.as_str(), login);
    push_str(&mut c, ") or (");
    push_key_condition(&mut c, ep.as_str(), login);
    push_str(&mut c, "))");
    let condition = string_from_chars(&c);
    proof {
        assert(condition@ =~= spec_login_condition(login@));
    }
    filter_query(condition.as_str())
}

impl IdentityDB {
    /// The keys of the name index entry that a new user name would take.
    pub fn is_user_name_available(&self, name: &str) -> (r: (String, String))
        requires
            is_char_boundary(encode_utf8(name@), 2),
        ensures
            r.0@ == spec_name_partition(name@),
            r.1@ == name@,
    {
        (NameIndexEntry::generate_partion_key(name), name.to_owned())
    }

    /// The keys of the email index entry that an email would take.
    pub fn is_email_available(&self, email: &str) -> (r: (String, String))
        requires
            is_char_boundary(encode_utf8(email@), 2),
        ensures
            r.0@ == spec_email_partition(email@),
            r.1@ == email@,
    {
        (EmailIndexEntry::generate_partion_key(email), email.to_owned())
    }

    /// Starts the lookup of a user through the index entries of a query;
    /// the password, if given, is checked.
    pub fn find_by_index(&self, query: &str, password: Option<&str>) -> (r: (FindLoginFlow, FindLoginAction))
        ensures
            match password {
                Some(p) => r.0.password matches Some(q) && q@ == p@,
                None => r.0.password is None,
            },
            r.0.stage is AwaitIndices,
            r.1 matches FindLoginAction::QueryIndices(q) && q@ == query@,
    {
        find_login_by_index(query, password)
    }

    /// Finds a user by login name or email; the password, if given, is
    /// checked. The flow starts with the query of the two index entries.
    pub fn find_by_login(&self, login: &str, password: Option<&str>) -> (r: (FindLoginFlow, FindLoginAction))
        requires
            is_char_boundary(encode_utf8(login@), 2),
        ensures
            match password {
                Some(p) => r.0.password matches Some(q) && q@ == p@,
                None => r.0.password is None,
            },
            r.0.stage is AwaitIndices,
            r.1 matches FindLoginAction::QueryIndices(q) && q@ == spec_filter_query(spec_login_condition(login@)),
    {
        let query = login_query(login);
        self.find_by_index(query.as_str(), password)
    }

    /// Logs in a user from a remote; the flow starts by asking for a
    /// sequence number of the login key.
    pub fn create_login(&self, identity: &IdentityEntry, site: SiteInfo) -> (r: (CreateLoginFlow, CreateLoginAction))
        ensures
            r.0.user_id@ == identity.0.row_key@,
            r.0.salt@ == identity.0.payload.salt@,
            r.0.site == site,
            r.0.stage is AwaitKeySequence,
            r.1 is AllocateKeySequence,
    {
        let flow = CreateLoginFlow {
            user_id: identity.user_id().to_owned(),
            salt: identity.data().salt.clone(),
            site,
            stage: CreateLoginStage::AwaitKeySequence,
        };
        (flow, CreateLoginAction::AllocateKeySequence)
    }
}

} // verus!
