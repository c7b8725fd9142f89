use vstd::prelude::*;
use vstd::utf8::encode_utf8;
use vstd::string::StringSliceAdditionalSpecFns;
use crate::errors::ErrorKind;

verus! {

/// http's request method, produced by `Method::from_bytes`.
#[verifier::external_type_specification]
#[verifier::external_body]
pub struct ExMethod(http::Method);

/// http's error for a malformed method.
#[verifier::external_type_specification]
#[verifier::external_body]
pub struct ExInvalidMethod(http::method::InvalidMethod);

/// http's header name, produced by `HeaderName::from_bytes`.
#[verifier::external_type_specification]
#[verifier::external_body]
pub struct ExHeaderName(http::HeaderName);

/// http's error for a malformed header name.
#[verifier::external_type_specification]
#[verifier::external_body]
pub struct ExInvalidHeaderName(http::header::InvalidHeaderName);

/// http's header value, produced by `HeaderValue::from_bytes`.
#[verifier::external_type_specification]
#[verifier::external_body]
pub struct ExHeaderValue(http::HeaderValue);

/// http's error for a malformed header value.
#[verifier::external_type_specification]
#[verifier::external_body]
pub struct ExInvalidHeaderValue(http::header::InvalidHeaderValue);

/// The URL type reqwest re-exports from the url crate.
#[verifier::external_type_specification]
#[verifier::external_body]
pub struct ExUrl(reqwest::Url);

/// The protocol versions a response can report.
#[derive(Clone, Copy, Debug, PartialEq, Eq, Structural)]
pub enum HttpVersion {
    Http09,
    Http10,
    Http11,
    Http2,
    Http3,
}

pub open spec fn version_text(v: HttpVersion) -> Seq<char> {
    match v {
        HttpVersion::Http09 => "HTTP/0.9"@,
        HttpVersion::Http10 => "HTTP/1.0"@,
        HttpVersion::Http11 => "HTTP/1.1"@,
        HttpVersion::Http2 => "HTTP/2"@,
        HttpVersion::Http3 => "HTTP/3"@,
    }
}

/// The label of a protocol version, as the host sees it.
pub fn http_version_str(v: HttpVersion) -> (r: String)
    ensures
        r@ == version_text(v),
{
    match v {
        HttpVersion::Http09 => "HTTP/0.9".to_owned(),
        HttpVersion::Http10 => "HTTP/1.0".to_owned(),
        HttpVersion::Http11 => "HTTP/1.1".to_owned(),
        HttpVersion::Http2 => "HTTP/2".to_owned(),
        HttpVersion::Http3 => "HTTP/3".to_owned(),
    }
}

pub open spec fn lower_byte(b: u8) -> u8 {
    if 65 <= b <= 90 {
        (b + 32) as u8
    } else {
        b
    }
}

/// ASCII lower-casing, as header names are stored.
pub open spec fn ascii_lower(s: Seq<u8>) -> Seq<u8> {
    s.map_values(|b: u8| lower_byte(b))
}

/// A token character: `!#$%&'*+-.^_`|~`, a digit or an ASCII letter.
pub open spec fn is_tchar(b: u8) -> bool {
    (48 <= b <= 57)  // digits
    || (97 <= b <= 122)  // lower-case letters
    || (65 <= b <= 90)  // upper-case letters
    || b == 33  // !
    || (35 <= b <= 39)  // # $ % & '
    || b == 42 || b == 43  // * +
    || b == 45 || b == 46  // - .
    || (94 <= b <= 96)  // ^ _ `
    || b == 124 || b == 126  // | ~
}

/// A non-empty run of token characters.
pub open spec fn is_token(s: Seq<u8>) -> bool {
    s.len() > 0 && forall|i: int| 0 <= i < s.len() ==> is_tchar(#[trigger] s[i])
}

/// The longest header name the transport accepts.
pub const MAX_HEADER_NAME_LEN: usize = 65535;

pub open spec fn header_name_ok(s: Seq<u8>) -> bool {
    is_token(s) && s.len() <= MAX_HEADER_NAME_LEN
}

pub open spec fn header_value_byte_ok(b: u8) -> bool {
    (b >= 32 && b != 127) || b == 9
}

pub open spec fn header_value_ok(s: Seq<u8>) -> bool {
    forall|i: int| 0 <= i < s.len() ==> header_value_byte_ok(#[trigger] s[i])
}

/// Every pair of a header list is a well-formed name and value.
pub open spec fn headers_ok(h: Seq<(Vec<u8>, Vec<u8>)>) -> bool {
    forall|i: int| 0 <= i < h.len() ==> header_name_ok((#[trigger] h[i]).0@) && header_value_ok(h[i].1@)
}

/// Relies on http::Method::from_bytes: it accepts exactly the non-empty token strings.
pub assume_specification[ http::Method::from_bytes ](src: &[u8]) -> (r: Result<http::Method, http::method::InvalidMethod>)
    ensures
        r is Ok <==> is_token(src@),
;

/// The bytes of a header name's text, as `HeaderName::as_str` gives them.
pub uninterp spec fn name_bytes(n: http::HeaderName) -> Seq<u8>;

/// The bytes of a header value, as `HeaderValue::as_bytes` gives them.
pub uninterp spec fn value_bytes(v: http::HeaderValue) -> Seq<u8>;

/// Relies on http::HeaderName::from_bytes: it accepts token strings of at
/// most 65535 bytes and stores them lower-cased (its `HEADER_CHARS` table).
pub assume_specification[ http::HeaderName::from_bytes ](src: &[u8]) -> (r: Result<http::HeaderName, http::header::InvalidHeaderName>)
    ensures
        r is Ok <==> header_name_ok(src@),
        r matches Ok(n) ==> name_bytes(n) == ascii_lower(src@),
;

/// Relies on http::HeaderName::as_str: the stored text of the name.
pub assume_specification[ http::HeaderName::as_str ](n: &http::HeaderName) -> (r: &str)
    ensures
        r.spec_bytes() == name_bytes(*n),
;

/// Relies on http::HeaderValue::from_bytes: it accepts visible bytes, spaces
/// and tabs, and keeps them as given.
pub assume_specification[ http::HeaderValue::from_bytes ](src: &[u8]) -> (r: Result<http::HeaderValue, http::header::InvalidHeaderValue>)
    ensures
        r is Ok <==> header_value_ok(src@),
        r matches Ok(v) ==> value_bytes(v) == src@,
;

/// Relies on http::HeaderValue::as_bytes: the stored bytes of the value.
pub assume_specification[ http::HeaderValue::as_bytes ](v: &http::HeaderValue) -> (r: &[u8])
    ensures
        r@ == value_bytes(*v),
;

/// Whether the URL parser accepts a string as an absolute URL.
pub uninterp spec fn url_parses(s: Seq<char>) -> bool;

/// Whether the URL parsed from a string names a host (`Url::has_host`).
pub uninterp spec fn url_has_host(s: Seq<char>) -> bool;

/// The scheme of the URL parsed from a string (`Url::scheme`).
pub uninterp spec fn url_scheme(s: Seq<char>) -> Seq<char>;

/// A parsed URL, with the two facts the client decides on.
pub struct ParsedUrl {
    pub url: reqwest::Url,
    pub has_host: bool,
    pub scheme: String,
}

/// Relies on url::Url::parse (re-exported by reqwest) to parse an absolute
/// URL, and on `Url::has_host` and `Url::scheme` to read it; all three depend
/// on the string alone.
#[verifier::external_body]
pub(crate) fn parse_absolute_url(s: &str) -> (r: Option<ParsedUrl>)
    ensures
        r is Some <==> url_parses(s@),
        r matches Some(p) ==> p.has_host == url_has_host(s@) && p.scheme@ == url_scheme(s@),
{
    reqwest::Url::parse(s).ok().map(|url| {
        let has_host = url.has_host();
        let scheme = url.scheme().to_string();
        ParsedUrl { url, has_host, scheme }
    })
}

/// A URL a request may be sent to.
pub open spec fn request_url_ok(s: Seq<char>) -> bool {
    url_parses(s) && url_has_host(s) && web_scheme(url_scheme(s))
}

/// A URL a proxy may be reached at.
pub open spec fn proxy_url_ok(s: Seq<char>) -> bool {
    url_parses(s) && url_has_host(s) && proxy_scheme(url_scheme(s))
}

/// Parses an HTTP method; any non-token string is a bad method.
pub fn parse_method(method: String) -> (r: Result<http::Method, ErrorKind>)
    ensures
        r is Ok <==> is_token(encode_utf8(method@)),
        r is Err ==> r == Err::<http::Method, ErrorKind>(ErrorKind::BadMethod),
{
    match http::Method::from_bytes(method.as_str().as_bytes()) {
        Ok(m) => Ok(m),
        Err(_) => Err(ErrorKind::BadMethod),
    }
}

/// Parses a URL usable in a network request: absolute, with a host.
pub fn parse_url(url: &str) -> (r: Result<reqwest::Url, ErrorKind>)
    ensures
        r is Ok <==> url_parses(url@) && url_has_host(url@),
        r is Err ==> r == Err::<reqwest::Url, ErrorKind>(ErrorKind::BadUrl),
{
    match parse_absolute_url(url) {
        Some(p) => {
            if p.has_host {
                Ok(p.url)
            } else {
                Err(ErrorKind::BadUrl)
            }
        },
        None => Err(ErrorKind::BadUrl),
    }
}

pub open spec fn web_scheme(s: Seq<char>) -> bool {
    s == "http"@ || s == "https"@
}

pub open spec fn proxy_scheme(s: Seq<char>) -> bool {
    web_scheme(s) || s == "socks5"@ || s == "socks5h"@
}

fn same_text(a: &str, b: &str) -> (r: bool)
    ensures
        r == (a@ == b@),
{
    let x = a.to_owned();
    let y = b.to_owned();
    x == y
}

/// Whether a request may be sent over this scheme.
pub fn is_web_scheme(s: &str) -> (r: bool)
    ensures
        r == web_scheme(s@),
{
    same_text(s, "http") || same_text(s, "https")
}

/// Whether a proxy may be reached over this scheme.
pub fn is_proxy_scheme(s: &str) -> (r: bool)
    ensures
        r == proxy_scheme(s@),
{
    is_web_scheme(s) || same_text(s, "socks5") || same_text(s, "socks5h")
}

/// Decides whether a parsed URL may carry a request: it names a host and
/// its scheme is http or https.
pub fn check_request_url(has_host: bool, scheme: &str) -> (r: Result<(), ErrorKind>)
    ensures
        r is Ok <==> has_host && web_scheme(scheme@),
        r is Err ==> r->Err_0 == ErrorKind::BadUrl,
{
    if has_host && is_web_scheme(scheme) {
        Ok(())
    } else {
        Err(ErrorKind::BadUrl)
    }
}

/// Decides whether a parsed URL may name a proxy: it names a host and its
/// scheme is http, https, socks5 or socks5h.
pub fn check_proxy_url(has_host: bool, scheme: &str) -> (r: Result<(), ErrorKind>)
    ensures
        r is Ok <==> has_host && proxy_scheme(scheme@),
        r is Err ==> r->Err_0 == ErrorKind::BadUrl,
{
    if has_host && is_proxy_scheme(scheme) {
        Ok(())
    } else {
        Err(ErrorKind::BadUrl)
    }
}

/// Converts a header list into wire-safe names and values, keeping its order.
pub fn parse_headers(headers: &Vec<(Vec<u8>, Vec<u8>)>) -> (r: Result<Vec<(http::HeaderName, http::HeaderValue)>, ErrorKind>)
    ensures
        r is Ok <==> headers_ok(headers@),
        r is Ok ==> r->Ok_0@.len() == headers@.len(),
        r matches Ok(v) ==> forall|i: int| 0 <= i < v@.len() ==> name_bytes((#[trigger] v@[i]).0) == ascii_lower(headers@[i].0@)
            && value_bytes(v@[i].1) == headers@[i].1@,
        r is Err ==> r == Err::<Vec<(http::HeaderName, http::HeaderValue)>, ErrorKind>(ErrorKind::BadHeader),
{
    let mut out: Vec<(http::HeaderName, http::HeaderValue)> = Vec::new();
    let mut i: usize = 0;
    while i < headers.len()
        invariant
            i <= headers@.len(),
            out@.len() == i,
            headers_ok(headers@.subrange(0, i as int)),
            forall|j: int| 0 <= j < i ==> name_bytes((#[trigger] out@[j]).0) == ascii_lower(headers@[j].0@)
                && value_bytes(out@[j].1) == headers@[j].1@,
        decreases headers@.len() - i,
    {
        let name = match http::HeaderName::from_bytes(headers[i].0.as_slice()) {
            Ok(n) => n,
            Err(_) => {
                assert(!headers_ok(headers@)) by {
                    assert(!header_name_ok(headers@[i as int].0@));
                }
                return Err(ErrorKind::BadHeader);
            },
        };
        let value = match http::HeaderValue::from_bytes(headers[i].1.as_slice()) {
            Ok(v) => v,
            Err(_) => {
                assert(!headers_ok(headers@)) by {
                    assert(!header_value_ok(headers@[i as int].1@));
                }
                return Err(ErrorKind::BadHeader);
            },
        };
        out.push((name, value));
        assert(headers_ok(headers@.subrange(0, i + 1))) by {
            assert forall|j: int| 0 <= j < i + 1 implies header_name_ok((#[trigger] headers@.subrange(0, i + 1)[j]).0@)
                && header_value_ok(headers@.subrange(0, i + 1)[j].1@) by {
                if j < i {
                    assert(headers@.subrange(0, i + 1)[j] == headers@.subrange(0, i as int)[j]);
                }
            }
        }
        i = i + 1;
    }
    assert(headers@.subrange(0, i as int) == headers@);
    assert(forall|j: int| 0 <= j < out@.len() ==> name_bytes((#[trigger] out@[j]).0) == ascii_lower(headers@[j].0@)
        && value_bytes(out@[j].1) == headers@[j].1@);
    Ok(out)
}

} // verus!
