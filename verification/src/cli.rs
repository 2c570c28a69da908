//! What the scanner is asked to do.

use vstd::prelude::*;
use vstd::string::*;

verus! {

/// The form in which the results are printed.
#[derive(Debug, Clone, Copy, PartialEq, Eq, Structural)]
pub enum OutputFormat {
    /// Plain text for a reader.
    Plain,
    /// JSON for a program.
    Json,
}

impl OutputFormat {
    /// The name of the format as it is given on the command line.
    pub open spec fn name(self) -> Seq<char> {
        match self {
            OutputFormat::Plain => "plain"@,
            OutputFormat::Json => "json"@,
        }
    }

    /// Tells whether the format is JSON.
    pub fn is_json(&self) -> (r: bool)
        ensures
            r == (*self is Json),
    {
        match self {
            OutputFormat::Json => true,
            OutputFormat::Plain => false,
        }
    }

    /// The name of the format as it is given on the command line.
    pub fn to_string(&self) -> (text: String)
        ensures
            text@ == self.name(),
    {
        match self {
            OutputFormat::Plain => String::from_str("plain"),
            OutputFormat::Json => String::from_str("json"),
        }
    }
}

/// The options of one run of the scanner.
#[derive(Debug)]
pub struct Cli {
    /// The URLs of the targets.
    pub urls: Vec<String>,
    /// The method of the attack requests.
    pub method: String,
    /// The time budget of each request, in seconds.
    pub timeout: u64,
    /// Header lines that are added to every attack request.
    pub headers: Vec<String>,
    /// The host to name in the `Host` header in place of the URL's host.
    pub vhost: Option<String>,
    /// Whether cookies are fetched first and sent along.
    pub use_cookies: bool,
    /// The file that the results are written to.
    pub output: Option<String>,
    /// The form in which the results are printed.
    pub format: OutputFormat,
    /// The directory that winning requests are written to.
    pub export_dir: Option<String>,
    /// Whether every request and response is shown.
    pub verbose: bool,
    /// The check categories to run, separated by commas; all where none is named.
    pub checks: Option<String>,
    /// Whether the scan of a target stops at the first vulnerable category.
    pub exit_first: bool,
    /// The exploits to run after a finding, separated by commas.
    pub exploit: Option<String>,
    /// The ports that the localhost exploit tries, separated by commas.
    pub exploit_ports: String,
}

} // verus!
