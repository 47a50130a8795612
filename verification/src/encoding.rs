//! The text encodings of `data-encoding` that ids, keys and secrets use.
use vstd::prelude::*;
use vstd::utf8::{encode_utf8, is_ascii_chars};
use crate::text::{push_decimal, push_str, spec_decimal, string_from_chars};

verus! {

/// Why a text could not be decoded.
#[derive(Debug, Clone, Copy, PartialEq, Eq, Structural)]
pub enum DecodeKind {
    /// Invalid length
    Length,
    /// Invalid symbol
    Symbol,
    /// Non-zero trailing bits
    Trailing,
    /// Invalid padding length
    Padding,
}

/// A decoding failure: where and why.
#[derive(Debug, Clone, Copy, PartialEq, Eq, Structural)]
pub struct DecodeError {
    pub position: usize,
    pub kind: DecodeKind,
}

/// The description of a decoding failure kind.
pub open spec fn spec_decode_kind_text(kind: DecodeKind) -> Seq<char> {
    match kind {
        DecodeKind::Length => "invalid length"@,
        DecodeKind::Symbol => "invalid symbol"@,
        DecodeKind::Trailing => "non-zero trailing bits"@,
        DecodeKind::Padding => "invalid padding length"@,
    }
}

/// The name of a decoding failure kind.
pub open spec fn spec_decode_kind_name(kind: DecodeKind) -> Seq<char> {
    match kind {
        DecodeKind::Length => "Length"@,
        DecodeKind::Symbol => "Symbol"@,
        DecodeKind::Trailing => "Trailing"@,
        DecodeKind::Padding => "Padding"@,
    }
}

/// The display text of a decoding failure: `<kind> at <position>`.
pub open spec fn spec_decode_error_text(e: DecodeError) -> Seq<char> {
    spec_decode_kind_text(e.kind) + " at "@ + spec_decimal(e.position as nat)
}

/// The debug text of a decoding failure.
pub open spec fn spec_decode_error_debug(e: DecodeError) -> Seq<char> {
    "DecodeError { position: "@ + spec_decimal(e.position as nat) + ", kind: "@ + spec_decode_kind_name(e.kind) + " }"@
}

impl DecodeError {
    /// The display text of the failure.
    pub fn to_display_string(&self) -> (s: String)
        ensures
            s@ == spec_decode_error_text(*self),
    {
        let mut v: Vec<char> = Vec::new();
        match self.kind {
            DecodeKind::Length => push_str(&mut v, "invalid length"),
            DecodeKind::Symbol => push_str(&mut v, "invalid symbol"),
            DecodeKind::Trailing => push_str(&mut v, "non-zero trailing bits"),
            DecodeKind::Padding => push_str(&mut v, "invalid padding length"),
        }
        push_str(&mut v, " at ");
        push_decimal(&mut v, self.position as u64);
        string_from_chars(&v)
    }

    /// The debug text of the failure.
    pub fn debug_text(&self) -> (s: String)
        ensures
            s@ == spec_decode_error_debug(*self),
    {
        let mut v: Vec<char> = Vec::new();
        push_str(&mut v, "DecodeError { position: ");
        push_decimal(&mut v, self.position as u64);
        push_str(&mut v, ", kind: ");
        match self.kind {
            DecodeKind::Length => push_str(&mut v, "Length"),
            DecodeKind::Symbol => push_str(&mut v, "Symbol"),
            DecodeKind::Trailing => push_str(&mut v, "Trailing"),
            DecodeKind::Padding => push_str(&mut v, "Padding"),
        }
        push_str(&mut v, " }");
        string_from_chars(&v)
    }
}

/// The padless base64url text of bytes (`BASE64URL_NOPAD`).
pub uninterp spec fn spec_base64url_nopad(bytes: Seq<u8>) -> Seq<char>;

/// What decoding a text with `BASE64URL_NOPAD` gives: the bytes, or the
/// decoding failure.
pub uninterp spec fn spec_base64url_nopad_decode(text: Seq<u8>) -> Result<Seq<u8>, DecodeError>;

/// The padless base32 text of bytes (`BASE32_NOPAD`).
pub uninterp spec fn spec_base32_nopad(bytes: Seq<u8>) -> Seq<char>;

/// What decoding a text with `BASE32_NOPAD` gives: the bytes, or the
/// decoding failure.
pub uninterp spec fn spec_base32_nopad_decode(text: Seq<u8>) -> Result<Seq<u8>, DecodeError>;

/// What decoding a text with `BASE64` (padded) gives: the bytes, or the
/// decoding failure.
pub uninterp spec fn spec_base64_decode(input: Seq<u8>) -> Result<Seq<u8>, DecodeError>;

/// `BASE64URL_NOPAD.encode` of `data-encoding`: the value is named; the
/// crate documents that the output is ASCII (symbols `A-Z a-z 0-9 - _`) of
/// length `ceil(8 * n / 6)` for `n` bytes; it panics for inputs over
/// `usize::MAX / 512` bytes.
#[verifier::external_body]
pub(crate) fn base64url_nopad_encode(bytes: &[u8]) -> (s: String)
    requires
        bytes@.len() <= usize::MAX / 512,
    ensures
        s@ == spec_base64url_nopad(bytes@),
        is_ascii_chars(s@),
        s@.len() == (8 * bytes@.len() + 5) / 6,
{
    data_encoding::BASE64URL_NOPAD.encode(bytes)
}

/// `BASE64URL_NOPAD.decode` of `data-encoding`, the failure given by its
/// position and kind. The result is named; as the crate documents, decoding an encoded
/// text gives back the encoded bytes. It may panic for inputs over
/// `usize::MAX / 8` bytes.
#[verifier::external_body]
pub(crate) fn base64url_nopad_decode(text: &[u8]) -> (r: Result<Vec<u8>, DecodeError>)
    requires
        text@.len() <= usize::MAX / 8,
    ensures
        match r {
            Ok(v) => {
                &&& spec_base64url_nopad_decode(text@) == Ok::<Seq<u8>, DecodeError>(v@)
                &&& forall|b: Seq<u8>| encode_utf8(#[trigger] spec_base64url_nopad(b)) == text@ ==> v@ == b
            },
            Err(e) => {
                &&& spec_base64url_nopad_decode(text@) == Err::<Seq<u8>, DecodeError>(e)
                &&& forall|b: Seq<u8>| encode_utf8(#[trigger] spec_base64url_nopad(b)) != text@
            },
        },
{
    match data_encoding::BASE64URL_NOPAD.decode(text) {
        Ok(v) => Ok(v),
        Err(e) => Err(DecodeError {
            position: e.position,
            kind: match e.kind {
                data_encoding::DecodeKind::Length => DecodeKind::Length,
                data_encoding::DecodeKind::Symbol => DecodeKind::Symbol,
                data_encoding::DecodeKind::Trailing => DecodeKind::Trailing,
                data_encoding::DecodeKind::Padding => DecodeKind::Padding,
            },
        }),
    }
}

/// `BASE32_NOPAD.encode` of `data-encoding`: the value is named; the crate
/// documents that the output is ASCII (symbols `A-Z 2-7`) of length
/// `ceil(8 * n / 5)` for `n` bytes; it panics for
/// inputs over `usize::MAX / 512` bytes.
#[verifier::external_body]
pub(crate) fn base32_nopad_encode(bytes: &[u8]) -> (s: String)
    requires
        bytes@.len() <= usize::MAX / 512,
    ensures
        s@ == spec_base32_nopad(bytes@),
        is_ascii_chars(s@),
        s@.len() == (8 * bytes@.len() + 4) / 5,
{
    data_encoding::BASE32_NOPAD.encode(bytes)
}

/// `BASE32_NOPAD.decode` of `data-encoding`, the failure given by its
/// position and kind. The result is named; as the crate documents, decoding an encoded
/// text gives back the encoded bytes. It may panic for inputs over
/// `usize::MAX / 8` bytes.
#[verifier::external_body]
pub(crate) fn base32_nopad_decode(text: &[u8]) -> (r: Result<Vec<u8>, DecodeError>)
    requires
        text@.len() <= usize::MAX / 8,
    ensures
        match r {
            Ok(v) => {
                &&& spec_base32_nopad_decode(text@) == Ok::<Seq<u8>, DecodeError>(v@)
                &&& forall|b: Seq<u8>| encode_utf8(#[trigger] spec_base32_nopad(b)) == text@ ==> v@ == b
            },
            Err(e) => {
                &&& spec_base32_nopad_decode(text@) == Err::<Seq<u8>, DecodeError>(e)
                &&& forall|b: Seq<u8>| encode_utf8(#[trigger] spec_base32_nopad(b)) != text@
            },
        },
{
    match data_encoding::BASE32_NOPAD.decode(text) {
        Ok(v) => Ok(v),
        Err(e) => Err(DecodeError {
            position: e.position,
            kind: match e.kind {
                data_encoding::DecodeKind::Length => DecodeKind::Length,
                data_encoding::DecodeKind::Symbol => DecodeKind::Symbol,
                data_encoding::DecodeKind::Trailing => DecodeKind::Trailing,
                data_encoding::DecodeKind::Padding => DecodeKind::Padding,
            },
        }),
    }
}

/// `data_encoding::BASE64.decode`, the padded standard base64; the failure is
/// given by its position and kind. The result is named. It may panic for inputs
/// over `usize::MAX / 8` bytes.
#[verifier::external_body]
pub(crate) fn base64_decode(input: &[u8]) -> (r: Result<Vec<u8>, DecodeError>)
    requires
        input@.len() <= usize::MAX / 8,
    ensures
        match r {
            Ok(v) => spec_base64_decode(input@) == Ok::<Seq<u8>, DecodeError>(v@),
            Err(e) => spec_base64_decode(input@) == Err::<Seq<u8>, DecodeError>(e),
        },
{
    match data_encoding::BASE64.decode(input) {
        Ok(v) => Ok(v),
        Err(e) => Err(DecodeError {
            position: e.position,
            kind: match e.kind {
                data_encoding::DecodeKind::Length => DecodeKind::Length,
                data_encoding::DecodeKind::Symbol => DecodeKind::Symbol,
                data_encoding::DecodeKind::Trailing => DecodeKind::Trailing,
                data_encoding::DecodeKind::Padding => DecodeKind::Padding,
            },
        }),
    }
}

} // verus!
