//! The error type of the scanner.

use vstd::prelude::*;
use vstd::string::*;
use vstd::std_specs::convert::FromSpecImpl;

verus! {

/// What can go wrong while a target is scanned.
#[derive(Debug)]
pub enum SmugglexError {
    /// A request could not be sent or its response not read.
    HttpRequest(String),
    /// The TLS handshake or its configuration failed.
    Tls(String),
    /// The target URL could not be parsed.
    UrlParse(String),
    /// A file or socket operation failed.
    Io(String),
    /// A report could not be serialised or read back.
    Json(String),
    /// A request did not finish within its time budget.
    Timeout(String),
    /// The caller supplied a value that the scanner cannot use.
    InvalidInput(String),
}

impl SmugglexError {
    /// The words that introduce each kind of error.
    pub open spec fn label(self) -> Seq<char> {
        match self {
            SmugglexError::HttpRequest(_) => "HTTP request error: "@,
            SmugglexError::Tls(_) => "TLS error: "@,
            SmugglexError::UrlParse(_) => "URL parsing error: "@,
            SmugglexError::Io(_) => "I/O error: "@,
            SmugglexError::Json(_) => "JSON error: "@,
            SmugglexError::Timeout(_) => "Timeout error: "@,
            SmugglexError::InvalidInput(_) => "Invalid input: "@,
        }
    }

    /// The message that the error carries.
    pub open spec fn detail(self) -> Seq<char> {
        match self {
            SmugglexError::HttpRequest(m) => m@,
            SmugglexError::Tls(m) => m@,
            SmugglexError::UrlParse(m) => m@,
            SmugglexError::Io(m) => m@,
            SmugglexError::Json(m) => m@,
            SmugglexError::Timeout(m) => m@,
            SmugglexError::InvalidInput(m) => m@,
        }
    }

    /// The error is of the timeout kind.
    pub open spec fn is_timeout_kind(self) -> bool {
        self is Timeout
    }

    /// Tells whether the error reports that a time budget ran out.
    pub fn is_timeout(&self) -> (r: bool)
        ensures
            r == self.is_timeout_kind(),
    {
        match self {
            SmugglexError::Timeout(_) => true,
            _ => false,
        }
    }

    /// The error as one line of text: its label, then its message.
    pub fn to_string(&self) -> (text: String)
        ensures
            text@ == self.label() + self.detail(),
    {
        let (label, detail) = match self {
            SmugglexError::HttpRequest(m) => ("HTTP request error: ", m),
            SmugglexError::Tls(m) => ("TLS error: ", m),
            SmugglexError::UrlParse(m) => ("URL parsing error: ", m),
            SmugglexError::Io(m) => ("I/O error: ", m),
            SmugglexError::Json(m) => ("JSON error: ", m),
            SmugglexError::Timeout(m) => ("Timeout error: ", m),
            SmugglexError::InvalidInput(m) => ("Invalid input: ", m),
        };
        let mut text = String::from_str(label);
        text.append(detail.as_str());
        text
    }
}

impl From<&str> for SmugglexError {
    fn from(err: &str) -> (e: Self)
        ensures
            e is InvalidInput,
            e.detail() == err@,
    {
        SmugglexError::InvalidInput(String::from_str(err))
    }
}

impl FromSpecImpl<&str> for SmugglexError {
    open spec fn obeys_from_spec() -> bool {
        false
    }

    open spec fn from_spec(v: &str) -> Self {
        arbitrary()
    }
}

/// The error with which `url::Url::parse` refuses a text.
#[verifier::external_type_specification]
#[verifier::external_body]
pub struct ExUrlParseError(url::ParseError);

impl From<url::ParseError> for SmugglexError {
    fn from(err: url::ParseError) -> (e: Self)
        ensures
            e is UrlParse,
    {
        SmugglexError::UrlParse(err.to_string())
    }
}

impl FromSpecImpl<url::ParseError> for SmugglexError {
    open spec fn obeys_from_spec() -> bool {
        false
    }

    open spec fn from_spec(v: url::ParseError) -> Self {
        arbitrary()
    }
}

/// The error of an operation on a file or a socket.
#[verifier::external_type_specification]
#[verifier::external_body]
pub struct ExIoError(std::io::Error);

impl From<std::io::Error> for SmugglexError {
    fn from(err: std::io::Error) -> (e: Self)
        ensures
            e is Io,
    {
        SmugglexError::Io(err.to_string())
    }
}

impl FromSpecImpl<std::io::Error> for SmugglexError {
    open spec fn obeys_from_spec() -> bool {
        false
    }

    open spec fn from_spec(v: std::io::Error) -> Self {
        arbitrary()
    }
}

/// The error with which `serde_json` refuses to write or to read a value.
#[verifier::external_type_specification]
#[verifier::external_body]
pub struct ExJsonError(serde_json::Error);

impl From<serde_json::Error> for SmugglexError {
    fn from(err: serde_json::Error) -> (e: Self)
        ensures
            e is Json,
    {
        SmugglexError::Json(err.to_string())
    }
}

impl FromSpecImpl<serde_json::Error> for SmugglexError {
    open spec fn obeys_from_spec() -> bool {
        false
    }

    open spec fn from_spec(v: serde_json::Error) -> Self {
        arbitrary()
    }
}

/// The error of a TLS handshake or of its configuration.
#[verifier::external_type_specification]
#[verifier::external_body]
pub struct ExTlsError(rustls::Error);

impl From<rustls::Error> for SmugglexError {
    fn from(err: rustls::Error) -> (e: Self)
        ensures
            e is Tls,
    {
        SmugglexError::Tls(err.to_string())
    }
}

impl FromSpecImpl<rustls::Error> for SmugglexError {
    open spec fn obeys_from_spec() -> bool {
        false
    }

    open spec fn from_spec(v: rustls::Error) -> Self {
        arbitrary()
    }
}

/// The error with which a host name is refused as the name of a TLS server.
#[verifier::external_type_specification]
#[verifier::external_body]
pub struct ExInvalidDnsNameError(rustls::pki_types::InvalidDnsNameError);

impl From<rustls::pki_types::InvalidDnsNameError> for SmugglexError {
    fn from(err: rustls::pki_types::InvalidDnsNameError) -> (e: Self)
        ensures
            e is Tls,
            "Invalid DNS name: "@.is_prefix_of(e.detail()),
    {
        let mut message = String::from_str("Invalid DNS name: ");
        message.append(err.to_string().as_str());
        SmugglexError::Tls(message)
    }
}

impl FromSpecImpl<rustls::pki_types::InvalidDnsNameError> for SmugglexError {
    open spec fn obeys_from_spec() -> bool {
        false
    }

    open spec fn from_spec(v: rustls::pki_types::InvalidDnsNameError) -> Self {
        arbitrary()
    }
}

/// The error of `tokio::time::timeout` when the time ran out.
#[verifier::external_type_specification]
#[verifier::external_body]
pub struct ExElapsed(tokio::time::error::Elapsed);

impl From<tokio::time::error::Elapsed> for SmugglexError {
    fn from(_err: tokio::time::error::Elapsed) -> (e: Self)
        ensures
            e is Timeout,
            e.detail() == "Request timed out"@,
    {
        SmugglexError::Timeout(String::from_str("Request timed out"))
    }
}

impl FromSpecImpl<tokio::time::error::Elapsed> for SmugglexError {
    open spec fn obeys_from_spec() -> bool {
        false
    }

    open spec fn from_spec(v: tokio::time::error::Elapsed) -> Self {
        arbitrary()
    }
}

} // verus!
