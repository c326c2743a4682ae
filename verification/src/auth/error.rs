//! Errors of the sign-in flow and the HTTP status they are answered with.
use vstd::prelude::*;
use vstd::string::*;

verus! {

/// `url::ParseError`, the error `Url::parse` reports.
#[verifier::external_type_specification]
#[verifier::external_body]
pub struct ExParseError(url::ParseError);

/// Why `url::Url::parse` refused an address: the kinds of `url::ParseError`.
#[derive(Debug, Clone, Copy, PartialEq, Eq, Structural)]
pub enum UrlParseError {
    EmptyHost,
    IdnaError,
    InvalidPort,
    InvalidIpv4Address,
    InvalidIpv6Address,
    InvalidDomainCharacter,
    RelativeUrlWithoutBase,
    RelativeUrlWithCannotBeABaseBase,
    SetHostOnCannotBeABaseUrl,
    Overflow,
    /// A kind that `url::ParseError` may gain in later versions of url.
    Other,
}

/// Something that is answered with an HTTP status code.
pub trait WithCode {
    /// The HTTP status code.
    fn code(&self) -> u16;
}

/// What can go wrong while signing a guest in. The provider and transport
/// failures carry the text their libraries describe them with.
pub enum AuthError {
    /// The redirect address of the OAuth client is not a valid URL.
    BadRedirectUrl(UrlParseError),
    /// The provider refused or garbled the token exchange.
    ExchangeTokenError(String),
    /// The HTTP request to the provider failed.
    ReqwestError(String),
    /// Anything else.
    Other(String),
}

/// Every sign-in error is answered with 500 Internal Server Error.
pub open spec fn auth_error_code(e: &AuthError) -> u16 {
    500
}

/// The text an error is displayed with.
pub open spec fn auth_error_message(e: &AuthError) -> Seq<char> {
    match e {
        AuthError::BadRedirectUrl(_) => "Malformed Redirect Url"@,
        AuthError::ExchangeTokenError(m) => "Can't parse token `"@ + m@ + "`"@,
        AuthError::ReqwestError(m) => "Can't make HTTP Request `"@ + m@ + "`"@,
        AuthError::Other(m) => "Something went wrong `"@ + m@ + "`"@,
    }
}

impl WithCode for AuthError {
    fn code(&self) -> (r: u16)
        ensures
            r == auth_error_code(self),
    {
        match self {
            AuthError::BadRedirectUrl(_) => 500,
            AuthError::ExchangeTokenError(_) => 500,
            AuthError::ReqwestError(_) => 500,
            AuthError::Other(_) => 500,
        }
    }
}

fn quoted(prefix: &str, m: &String) -> (r: String)
    ensures
        r@ == prefix@ + m@ + "`"@,
{
    let mut s = String::from_str(prefix);
    s.append(m.as_str());
    s.append("`");
    s
}

impl AuthError {
    /// The text the error is displayed with.
    pub fn message(&self) -> (r: String)
        ensures
            r@ == auth_error_message(self),
    {
        match self {
            AuthError::BadRedirectUrl(_) => String::from_str("Malformed Redirect Url"),
            AuthError::ExchangeTokenError(m) => quoted("Can't parse token `", m),
            AuthError::ReqwestError(m) => quoted("Can't make HTTP Request `", m),
            AuthError::Other(m) => quoted("Something went wrong `", m),
        }
    }
}

impl From<UrlParseError> for AuthError {
    fn from(error: UrlParseError) -> (r: AuthError) {
        AuthError::BadRedirectUrl(error)
    }
}

impl vstd::std_specs::convert::FromSpecImpl<UrlParseError> for AuthError {
    open spec fn obeys_from_spec() -> bool {
        true
    }

    open spec fn from_spec(error: UrlParseError) -> AuthError {
        AuthError::BadRedirectUrl(error)
    }
}

} // verus!
