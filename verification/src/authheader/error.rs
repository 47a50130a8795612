use vstd::prelude::*;

verus! {

/// Possible errors while parsing `Authorization` header. The variants that
/// wrap a failure of another kind carry that failure's description.
#[derive(Debug, Clone)]
pub enum Error {
    /// Missing authentication header
    Header,
    /// Header value is malformed
    Invalid,
    /// Authentication scheme is missing
    MissingScheme,
    /// Required authentication field is missing
    MissingField(String),
    /// Unable to convert header into the str
    ToStrError(String),
    /// Malformed base64 string
    Base64DecodeError(String),
    /// Malformed UTF-8 string
    Utf8Error(String),
}

/// The description of an error.
pub open spec fn spec_description(e: Error) -> Seq<char> {
    match e {
        Error::Header => "Invalid authentication header"@,
        Error::Invalid => "Invalid header value"@,
        Error::MissingScheme => "Missing authorization scheme"@,
        Error::MissingField(_) => "Missing header field"@,
        Error::ToStrError(d) => d@,
        Error::Base64DecodeError(d) => d@,
        Error::Utf8Error(d) => d@,
    }
}

impl Error {
    /// The description of the error; also its display text.
    pub fn description(&self) -> (r: &str)
        ensures
            r@ == spec_description(*self),
    {
        match self {
            Error::Header => "Invalid authentication header",
            Error::Invalid => "Invalid header value",
            Error::MissingScheme => "Missing authorization scheme",
            Error::MissingField(_) => "Missing header field",
            Error::ToStrError(d) => d.as_str(),
            Error::Base64DecodeError(d) => d.as_str(),
            Error::Utf8Error(d) => d.as_str(),
        }
    }

    /// Whether the error wraps a failure of another kind.
    pub fn has_source(&self) -> (r: bool)
        ensures
            r == (self is ToStrError || self is Base64DecodeError || self is Utf8Error),
    {
        match self {
            Error::ToStrError(_) | Error::Base64DecodeError(_) | Error::Utf8Error(_) => true,
            Error::Header | Error::Invalid | Error::MissingScheme | Error::MissingField(_) => false,
        }
    }
}

} // verus!
