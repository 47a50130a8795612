//! Credentials of the `Bearer` authentication scheme (RFC 6750), read from
//! an `Authorization` header.
use vstd::prelude::*;
use vstd::utf8::encode_utf8;
use crate::text::{str_chars, str_equal};

verus! {

/// Possible errors while parsing `Authorization` header.
#[derive(Debug, Clone)]
pub enum Error {
    /// Header value is malformed
    Invalid,
    /// Authentication scheme is missing
    MissingScheme,
    /// Required authentication field is missing
    MissingField(String),
    /// Unable to convert header into the str
    ToStrError(String),
    /// Malformed base64 string
    Base64DecodeError(String),
    /// Malformed UTF-8 string
    Utf8Error(String),
}

/// Credentials for `Bearer` authentication scheme, defined in [RFC6750](https://tools.ietf.org/html/rfc6750)
#[derive(Clone, Debug)]
pub struct BearerAuth {
    token: String,
}

impl View for BearerAuth {
    type V = Seq<char>;

    closed spec fn view(&self) -> Seq<char> {
        self.token@
    }
}

/// The index of the first space of a text, or its length if it has none.
pub open spec fn spec_first_space(s: Seq<char>) -> int
    decreases s.len(),
{
    if s.len() == 0 {
        0
    } else if s[0] == ' ' {
        0
    } else {
        1 + spec_first_space(s.drop_first())
    }
}

/// What parsing a header value gives: the token after `Bearer `, or why the
/// value is refused (shorter than `Bearer *` in bytes, another scheme, or
/// no token part).
pub open spec fn spec_parse_bearer(header: Seq<char>) -> Result<Seq<char>, Error> {
    let k = spec_first_space(header);
    if encode_utf8(header).len() < 8 {
        Err(Error::Invalid)
    } else if header.take(k) != "Bearer"@ {
        Err(Error::MissingScheme)
    } else if k == header.len() {
        Err(Error::Invalid)
    } else {
        Ok(header.skip(k + 1))
    }
}

proof fn lemma_first_space(s: Seq<char>, i: int)
    requires
        0 <= i <= s.len(),
        i < s.len() ==> s[i] == ' ',
        forall|k: int| 0 <= k < i ==> s[k] != ' ',
    ensures
        spec_first_space(s) == i,
    decreases s.len(),
{
    if s.len() > 0 && s[0] != ' ' {
        assert forall|k: int| 0 <= k < i - 1 implies s.drop_first()[k] != ' ' by {
            assert(s.drop_first()[k] == s[k + 1]);
        }
        if i - 1 < s.drop_first().len() {
            assert(s.drop_first()[i - 1] == s[i]);
        }
        lemma_first_space(s.drop_first(), i - 1);
    }
}

proof fn lemma_encode_utf8_len(s: Seq<char>)
    ensures
        encode_utf8(s).len() >= s.len(),
    decreases s.len(),
{
    if s.len() > 0 {
        lemma_encode_utf8_len(s.drop_first());
    }
}

/// The credentials of a `Bearer <token>` header value are the token, for
/// every non-empty token (spaces included).
pub proof fn lemma_parse_bearer_roundtrip(token: Seq<char>)
    requires
        token.len() > 0,
    ensures
        spec_parse_bearer("Bearer "@ + token) == Ok::<Seq<char>, Error>(token),
{
    reveal_strlit("Bearer ");
    reveal_strlit("Bearer");
    let h = "Bearer "@ + token;
    lemma_encode_utf8_len(h);
    assert(h[6] == ' ');
    assert forall|k: int| 0 <= k < 6 implies h[k] != ' ' by {}
    lemma_first_space(h, 6);
    assert(h.take(6) =~= "Bearer"@);
    assert(h.skip(7) =~= token);
}

impl BearerAuth {
    /// Creates new `Bearer` credentials with the token provided.
    pub fn new(token: String) -> (r: BearerAuth)
        ensures
            r@ == token@,
    {
        BearerAuth { token }
    }

    /// Gets reference to the credentials token.
    pub fn token(&self) -> (r: &str)
        ensures
            r@ == self@,
    {
        self.token.as_str()
    }

    /// Reads the credentials of an `Authorization` header value.
    pub fn parse(header: &str) -> (r: Result<BearerAuth, Error>)
        ensures
            match spec_parse_bearer(header@) {
                Ok(token) => r matches Ok(b) && b@ == token,
                Err(Error::Invalid) => r matches Err(Error::Invalid),
                Err(_) => r matches Err(Error::MissingScheme),
            },
    {
        if header.as_bytes().len() < 8 {
            return Err(Error::Invalid);
        }
        let chars = str_chars(header);
        let mut i: usize = 0;
        while i < chars.len() && chars[i] != ' '
            invariant
                chars@ == header@,
                i <= chars@.len(),
                forall|k: int| 0 <= k < i ==> chars@[k] != ' ',
            decreases chars@.len() - i,
        {
            i = i + 1;
        }
        proof {
            lemma_first_space(header@, i as int);
        }
        let scheme = header.substring_char(0, i);
        if !str_equal(scheme, "Bearer") {
            return Err(Error::MissingScheme);
        }
        if i == chars.len() {
            return Err(Error::Invalid);
        }
        let token = header.substring_char(i + 1, chars.len());
        proof {
            assert(token@ =~= header@.skip(i + 1));
        }
        Ok(BearerAuth { token: token.to_owned() })
    }
}

} // verus!
