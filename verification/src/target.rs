//! From the URL of a target to what a connection needs.

use vstd::prelude::*;
use vstd::string::*;
use crate::error::SmugglexError;
use crate::text::{same_text, text_of};

verus! {

/// What a URL says of its target, as the `url` crate reads it.
#[derive(Debug)]
pub struct UrlParts {
    /// The scheme, in lower case.
    pub scheme: String,
    /// The host, where the URL has one.
    pub host: Option<String>,
    /// The port that the URL names, or the usual port of its scheme where
    /// there is one.
    pub port: Option<u16>,
    /// The path.
    pub path: String,
}

/// The mathematical content of `UrlParts`.
pub struct UrlPartsView {
    pub scheme: Seq<char>,
    pub host: Option<Seq<char>>,
    pub port: Option<u16>,
    pub path: Seq<char>,
}

impl View for UrlParts {
    type V = UrlPartsView;

    open spec fn view(&self) -> UrlPartsView {
        UrlPartsView {
            scheme: self.scheme@,
            host: text_of(self.host),
            port: self.port,
            path: self.path@,
        }
    }
}

/// What the `url` crate reads from a text: the parts of the URL, or nothing
/// where the text is no URL.
pub uninterp spec fn parsed_url(target: Seq<char>) -> Option<UrlPartsView>;

/// Parses a URL (`url::Url::parse`) and takes from it the scheme
/// (`Url::scheme`), the host (`Url::host_str`), the port
/// (`Url::port_or_known_default`) and the path (`Url::path`). What comes
/// back depends on the text alone.
#[verifier::external_body]
fn parse_url(target: &str) -> (r: Result<UrlParts, url::ParseError>)
    ensures
        r matches Ok(parts) ==> parsed_url(target@) == Some(parts@),
        r is Err ==> parsed_url(target@) is None,
{
    let url = url::Url::parse(target)?;
    Ok(
        UrlParts {
            scheme: url.scheme().to_string(),
            host: url.host_str().map(|host| host.to_string()),
            port: url.port_or_known_default(),
            path: url.path().to_string(),
        },
    )
}

/// What a connection to a target needs.
#[derive(Debug)]
pub struct Target {
    /// The host to connect to.
    pub host: String,
    /// The port to connect to.
    pub port: u16,
    /// The path of the requests.
    pub path: String,
    /// Whether the connection is wrapped in TLS.
    pub use_tls: bool,
}

/// The mathematical content of a `Target`.
pub struct TargetView {
    pub host: Seq<char>,
    pub port: u16,
    pub path: Seq<char>,
    pub use_tls: bool,
}

impl View for Target {
    type V = TargetView;

    open spec fn view(&self) -> TargetView {
        TargetView { host: self.host@, port: self.port, path: self.path@, use_tls: self.use_tls }
    }
}

/// The target that the parts of a URL name: there is one where the URL has a
/// host and a port, and it is reached over TLS where the scheme is `https`.
pub open spec fn target_of(parts: UrlPartsView) -> Option<TargetView> {
    if parts.host is Some && parts.port is Some {
        Some(
            TargetView {
                host: parts.host->0,
                port: parts.port->0,
                path: parts.path,
                use_tls: parts.scheme == "https"@,
            },
        )
    } else {
        None
    }
}

/// Takes the target from the parts of a URL. A URL without a host is refused
/// as `Invalid host`, one without a port as `Invalid port`.
pub fn target_from_parts(parts: UrlParts) -> (r: Result<Target, SmugglexError>)
    ensures
        r matches Ok(target) ==> target_of(parts@) == Some(target@),
        r matches Err(e) ==> {
            &&& target_of(parts@) is None
            &&& e is InvalidInput
            &&& e.detail() == if parts.host is None {
                "Invalid host"@
            } else {
                "Invalid port"@
            }
        },
{
    let use_tls = same_text(parts.scheme.as_str(), "https");
    let host = match parts.host {
        Some(host) => host,
        None => {
            return Err(SmugglexError::InvalidInput(String::from_str("Invalid host")));
        },
    };
    let port = match parts.port {
        Some(port) => port,
        None => {
            return Err(SmugglexError::InvalidInput(String::from_str("Invalid port")));
        },
    };
    Ok(Target { host, port, path: parts.path, use_tls })
}

/// Reads the target from a URL. A text that is no URL is refused with the
/// parser's error; a URL without a host or a port as `target_from_parts` says.
pub fn resolve_target(url: &str) -> (r: Result<Target, SmugglexError>)
    ensures
        r matches Ok(target) ==> parsed_url(url@) matches Some(parts) && target_of(parts) == Some(
            target@,
        ),
        r matches Err(e) ==> match parsed_url(url@) {
            Some(parts) => {
                &&& target_of(parts) is None
                &&& e is InvalidInput
                &&& e.detail() == if parts.host is None {
                    "Invalid host"@
                } else {
                    "Invalid port"@
                }
            },
            None => e is UrlParse,
        },
{
    match parse_url(url) {
        Ok(parts) => target_from_parts(parts),
        Err(e) => Err(SmugglexError::from(e)),
    }
}

/// The host that the requests name: the virtual host where one is given,
/// else the host of the URL.
pub fn host_header<'a>(vhost: &'a Option<String>, host: &'a str) -> (name: &'a str)
    ensures
        name@ == match vhost {
            Some(v) => v@,
            None => host@,
        },
{
    match vhost {
        Some(v) => v.as_str(),
        None => host,
    }
}

} // verus!
