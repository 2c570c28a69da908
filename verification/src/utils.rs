//! Helpers on responses and host names.

use vstd::prelude::*;
use vstd::string::*;
use crate::text::{
    chars_of, decimal, decimal_u16, find_char, find_line_break, first_line_of, lemma_position_shift,
    line_end, lines_from, lowercase, parse_u16_at, position, push_char, push_decimal, push_text, scan,
    scan_from, split_lines, starts_with_at, string_from, text_of, texts_of, to_lowercase,
    trim_bounds, trimmed,
};

verus! {

/// The first line of a response, without its line ending.
pub fn first_line(response: &str) -> (line: String)
    ensures
        line@ == first_line_of(response@),
{
    let v = chars_of(response);
    let end = find_line_break(&v, 0);
    let stop = line_end(&v, 0, end);
    string_from(&v, 0, stop)
}

/// Where the first word of a line starts. Words are the maximal runs of
/// characters that are not white space.
pub open spec fn first_word_start(s: Seq<char>) -> int {
    scan(s, 0, false)
}

/// Where the first word of a line ends.
pub open spec fn first_word_end(s: Seq<char>) -> int {
    scan(s, first_word_start(s), true)
}

/// Where the second word of a line starts; the length of the line where it
/// has no second word.
pub open spec fn second_word_start(s: Seq<char>) -> int {
    scan(s, first_word_end(s), false)
}

/// Where the second word of a line ends.
pub open spec fn second_word_end(s: Seq<char>) -> int {
    scan(s, second_word_start(s), true)
}

/// The first word of a line names a protocol version that this scanner knows.
pub open spec fn names_http_version(word: Seq<char>) -> bool {
    "HTTP/1."@.is_prefix_of(word) || "HTTP/2"@.is_prefix_of(word)
}

/// The status code that a status line carries: the line has at least two
/// words, the first begins with `HTTP/1.` or `HTTP/2`, and the second writes
/// an unsigned 16-bit number. Every other line carries none.
pub open spec fn status_code_of(line: Seq<char>) -> Option<u16> {
    let version = line.subrange(first_word_start(line), first_word_end(line));
    let code = line.subrange(second_word_start(line), second_word_end(line));
    if second_word_start(line) < line.len() && names_http_version(version) {
        decimal_u16(code)
    } else {
        None
    }
}

/// Extracts the status code from a status line.
pub fn parse_status_code(status_line: &str) -> (code: Option<u16>)
    ensures
        code == status_code_of(status_line@),
{
    let v = chars_of(status_line);
    let a0 = scan_from(&v, 0, false);
    let b0 = scan_from(&v, a0, true);
    let a1 = scan_from(&v, b0, false);
    let b1 = scan_from(&v, a1, true);
    if a1 >= v.len() {
        return None;
    }
    let http1 = chars_of("HTTP/1.");
    let http2 = chars_of("HTTP/2");
    if starts_with_at(&v, a0, b0, &http1) || starts_with_at(&v, a0, b0, &http2) {
        parse_u16_at(&v, a1, b1)
    } else {
        None
    }
}

/// The character that stands for `c` in a file name: a colon, a slash and a
/// full stop become an underscore, every other character stays.
pub open spec fn file_name_char(c: char) -> char {
    if c == ':' || c == '/' || c == '.' {
        '_'
    } else {
        c
    }
}

/// A host name made fit for a file name, character by character.
pub open spec fn sanitized(host: Seq<char>) -> Seq<char> {
    host.map_values(|c: char| file_name_char(c))
}

/// Sanitizes a host name for use in a file name.
pub fn sanitize_hostname(host: &str) -> (name: String)
    ensures
        name@ == sanitized(host@),
{
    let v = chars_of(host);
    let mut name = String::new();
    let mut i: usize = 0;
    while i < v.len()
        invariant
            i <= v.len(),
            name@ == sanitized(v@.take(i as int)),
        decreases v.len() - i,
    {
        let c = v[i];
        let d = if c == ':' || c == '/' || c == '.' {
            '_'
        } else {
            c
        };
        push_char(&mut name, d);
        i += 1;
        assert(sanitized(v@.take(i as int)) == sanitized(v@.take(i - 1)).push(d));
    }
    assert(v@.take(v.len() as int) == v@);
    name
}

/// The scheme that a file name records.
pub open spec fn scheme_name(use_tls: bool) -> Seq<char> {
    if use_tls {
        "https"@
    } else {
        "http"@
    }
}

/// The name of the file that an exported request is written to:
/// `<dir>/<scheme>_<host>_<check>_<index>.txt`, the host sanitized.
pub open spec fn export_file_name_of(
    export_dir: Seq<char>,
    host: Seq<char>,
    check_type: Seq<char>,
    payload_index: nat,
    use_tls: bool,
) -> Seq<char> {
    export_dir + "/"@ + scheme_name(use_tls) + "_"@ + sanitized(host) + "_"@ + check_type + "_"@
        + decimal(payload_index) + ".txt"@
}

/// Makes the name of the file that an exported request is written to.
pub fn export_file_name(
    export_dir: &str,
    host: &str,
    check_type: &str,
    payload_index: usize,
    use_tls: bool,
) -> (name: String)
    ensures
        name@ == export_file_name_of(
            export_dir@,
            host@,
            check_type@,
            payload_index as nat,
            use_tls,
        ),
{
    let mut name = String::from_str(export_dir);
    name.append("/");
    name.append(if use_tls {
        "https"
    } else {
        "http"
    });
    name.append("_");
    let host_part = sanitize_hostname(host);
    name.append(host_part.as_str());
    name.append("_");
    name.append(check_type);
    name.append("_");
    push_decimal(&mut name, payload_index);
    name.append(".txt");
    name
}

/// The benign request that the baseline is measured with and that cookies are
/// fetched with: a `GET` of the path that asks for the connection to be closed.
pub open spec fn benign_request_of(path: Seq<char>, host: Seq<char>) -> Seq<char> {
    "GET "@ + path + " HTTP/1.1\r\nHost: "@ + host + "\r\nConnection: close\r\n\r\n"@
}

/// Makes the benign request for a path on a host.
pub fn benign_request(path: &str, host: &str) -> (request: String)
    ensures
        request@ == benign_request_of(path@, host@),
{
    let mut request = String::from_str("GET ");
    request.append(path);
    request.append(" HTTP/1.1\r\nHost: ");
    request.append(host);
    request.append("\r\nConnection: close\r\n\r\n");
    request
}

/// The time of the call as an RFC 3339 text in UTC (`chrono::Utc::now`, then
/// `DateTime::to_rfc3339`). Nothing is claimed of the text: it depends on the
/// clock. `Utc::now` panics where the clock of the machine stands before the
/// year 1970, which nothing that a caller passes can rule out.
#[verifier::external_body]
pub(crate) fn timestamp_now() -> String {
    chrono::Utc::now().to_rfc3339()
}

/// The cookie that a response line sets, given the line and its lowercase
/// form: the line must begin with `set-cookie:` in its lowercase form and
/// hold a colon; the cookie is what stands between the first colon and the
/// next, without the white space around it, up to the first semicolon. A
/// line that leaves nothing sets no cookie.
pub open spec fn cookie_of_line(line: Seq<char>, lowered: Seq<char>) -> Option<Seq<char>> {
    let colon = position(line, ':', 0);
    if !"set-cookie:"@.is_prefix_of(lowered) || colon >= line.len() {
        None
    } else {
        let value = line.subrange(colon + 1, position(line, ':', colon + 1));
        let kept = trimmed(value);
        let cookie = kept.subrange(0, position(kept, ';', 0));
        if cookie.len() == 0 {
            None
        } else {
            Some(cookie)
        }
    }
}

/// The cookies that the lines set, in the order of the lines.
pub open spec fn cookies_of(lines: Seq<Seq<char>>) -> Seq<Seq<char>>
    decreases lines.len(),
{
    if lines.len() == 0 {
        Seq::empty()
    } else {
        let before = cookies_of(lines.drop_last());
        match cookie_of_line(lines.last(), lowercase(lines.last())) {
            Some(cookie) => before.push(cookie),
            None => before,
        }
    }
}

/// The cookies that a response sets.
pub open spec fn cookies_in(response: Seq<char>) -> Seq<Seq<char>> {
    cookies_of(lines_from(response, 0))
}

/// Reads the cookie that a response line sets, from the line and its
/// lowercase form.
pub fn cookie_from_line(line: &str, lowered: &str) -> (cookie: Option<String>)
    ensures
        text_of(cookie) == cookie_of_line(line@, lowered@),
{
    let low = chars_of(lowered);
    let name = chars_of("set-cookie:");
    assert(low@.subrange(0, low.len() as int) == low@);
    if !starts_with_at(&low, 0, low.len(), &name) {
        return None;
    }
    let v = chars_of(line);
    let n = v.len();
    assert(v@.subrange(0, n as int) == v@);
    let colon = find_char(&v, ':', 0, n);
    if colon >= n {
        return None;
    }
    let next = find_char(&v, ':', colon + 1, n);
    proof {
        lemma_position_shift(v@, ':', colon + 1);
    }
    let (a, b) = trim_bounds(&v, colon + 1, next);
    let stop = find_char(&v, ';', a, b);
    let ghost kept = v@.subrange(a as int, b as int);
    assert(kept.subrange(0, stop - a) == v@.subrange(a as int, stop as int));
    if stop == a {
        None
    } else {
        Some(string_from(&v, a, stop))
    }
}

/// Collects the cookies that a response sets.
pub fn extract_cookies(response: &str) -> (cookies: Vec<String>)
    ensures
        texts_of(cookies@) == cookies_in(response@),
{
    let lines = split_lines(response);
    let ghost all = texts_of(lines@);
    let mut cookies: Vec<String> = Vec::new();
    let mut i: usize = 0;
    assert(texts_of(cookies@) =~= Seq::<Seq<char>>::empty());
    assert(all.take(0) =~= Seq::<Seq<char>>::empty());
    while i < lines.len()
        invariant
            i <= lines.len(),
            all == texts_of(lines@),
            texts_of(cookies@) == cookies_of(all.take(i as int)),
        decreases lines.len() - i,
    {
        let line = lines[i].as_str();
        let lowered = to_lowercase(line);
        assert(all.take(i + 1).drop_last() == all.take(i as int));
        assert(all.take(i + 1).last() == line@);
        match cookie_from_line(line, lowered.as_str()) {
            Some(cookie) => {
                push_text(&mut cookies, cookie);
            },
            None => {},
        }
        i += 1;
    }
    assert(all.take(lines.len() as int) == all);
    cookies
}

/// How grave a message of the scanner is.
#[derive(Debug, Clone, Copy, PartialEq, Eq, Structural)]
pub enum LogLevel {
    Info,
    Warning,
    Error,
}

impl LogLevel {
    /// The three letters that mark a message of this level.
    pub open spec fn label_of(self) -> Seq<char> {
        match self {
            LogLevel::Info => "INF"@,
            LogLevel::Warning => "WRN"@,
            LogLevel::Error => "ERR"@,
        }
    }

    /// The three letters that mark a message of this level.
    pub fn label(&self) -> (text: &'static str)
        ensures
            text@ == self.label_of(),
    {
        match self {
            LogLevel::Info => "INF",
            LogLevel::Warning => "WRN",
            LogLevel::Error => "ERR",
        }
    }
}

} // verus!
