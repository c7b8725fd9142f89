use vstd::prelude::*;
use vstd::string::StringSliceAdditionalSpecFns;
use crate::errors::ErrorKind;
use crate::utils::{ascii_lower, check_proxy_url, header_name_ok, header_value_ok, lower_byte, parse_absolute_url, proxy_url_ok};

verus! {

/// Where and how to reach a proxy: its URL, optional basic credentials and
/// optional custom headers (only a single proxy-authorization header is allowed).
pub struct NativeProxyConfig {
    pub url: String,
    pub basic_auth: Option<(String, String)>,
    pub headers: Option<Vec<(Vec<u8>, Vec<u8>)>>,
}

/// The checked parts of a proxy configuration, ready to hand to the transport.
pub struct ProxyParts {
    pub url: reqwest::Url,
    pub auth_header: Option<http::HeaderValue>,
}

pub open spec fn proxy_authorization() -> Seq<u8> {
    "proxy-authorization".spec_bytes()
}

/// A single header is acceptable for a proxy when it is a well-formed
/// proxy-authorization header.
pub open spec fn proxy_header_ok(name: Seq<u8>, value: Seq<u8>) -> bool {
    header_name_ok(name) && ascii_lower(name) == proxy_authorization() && header_value_ok(value)
}

pub open spec fn proxy_headers_ok(h: Seq<(Vec<u8>, Vec<u8>)>) -> bool {
    h.len() == 0 || (h.len() == 1 && proxy_header_ok(h[0].0@, h[0].1@))
}

fn lowered_equals(name: &Vec<u8>, target: &[u8]) -> (r: bool)
    ensures
        r == (ascii_lower(name@) == target@),
{
    if name.len() != target.len() {
        assert(ascii_lower(name@).len() != target@.len());
        return false;
    }
    let mut i: usize = 0;
    while i < name.len()
        invariant
            i <= name@.len(),
            name@.len() == target@.len(),
            forall|j: int| 0 <= j < i ==> lower_byte(name@[j]) == target@[j],
        decreases name@.len() - i,
    {
        let b = name[i];
        let lb: u8 = if 65 <= b && b <= 90 { b + 32 } else { b };
        if lb != target[i] {
            assert(ascii_lower(name@)[i as int] != target@[i as int]);
            return false;
        }
        i = i + 1;
    }
    assert(ascii_lower(name@) =~= target@);
    true
}

/// Checks the custom headers of a proxy: none, or exactly one well-formed
/// proxy-authorization header, whose value is returned.
pub fn check_proxy_headers(headers: &Vec<(Vec<u8>, Vec<u8>)>) -> (r: Result<Option<http::HeaderValue>, ErrorKind>)
    ensures
        r is Ok <==> proxy_headers_ok(headers@),
        r is Ok ==> (r->Ok_0 is Some <==> headers@.len() == 1),
        r is Err ==> r == Err::<Option<http::HeaderValue>, ErrorKind>(ErrorKind::BadHeader),
{
    if headers.len() > 1 {
        return Err(ErrorKind::BadHeader);
    }
    if headers.len() == 0 {
        return Ok(None);
    }
    let name = &headers[0].0;
    let value = &headers[0].1;
    if http::HeaderName::from_bytes(name.as_slice()).is_err() {
        return Err(ErrorKind::BadHeader);
    }
    if !lowered_equals(name, "proxy-authorization".as_bytes()) {
        return Err(ErrorKind::BadHeader);
    }
    match http::HeaderValue::from_bytes(value.as_slice()) {
        Ok(v) => Ok(Some(v)),
        Err(_) => Err(ErrorKind::BadHeader),
    }
}

impl NativeProxyConfig {
    pub fn new(url: String, basic_auth: Option<(String, String)>, headers: Option<Vec<(Vec<u8>, Vec<u8>)>>) -> (r: Self)
        ensures
            r.url == url,
            r.basic_auth == basic_auth,
            r.headers == headers,
    {
        NativeProxyConfig { url, basic_auth, headers }
    }

    /// Checks the configuration: a URL that parses, names a host and has a
    /// proxy scheme (see `check_proxy_url`), then the custom headers.
    pub fn validate(&self) -> (r: Result<ProxyParts, ErrorKind>)
        ensures
            !proxy_url_ok(self.url@) ==> r == Err::<ProxyParts, ErrorKind>(ErrorKind::BadUrl),
            proxy_url_ok(self.url@) && (self.headers matches Some(h) && !proxy_headers_ok(h@))
                ==> r == Err::<ProxyParts, ErrorKind>(ErrorKind::BadHeader),
            proxy_url_ok(self.url@) && !(self.headers matches Some(h) && !proxy_headers_ok(h@)) ==> r is Ok,
            r is Ok ==> (match self.headers {
                Some(h) => r->Ok_0.auth_header is Some <==> h@.len() == 1,
                None => r->Ok_0.auth_header is None,
            }),
    {
        let parsed = match parse_absolute_url(self.url.as_str()) {
            Some(p) => p,
            None => return Err(ErrorKind::BadUrl),
        };
        if let Err(e) = check_proxy_url(parsed.has_host, parsed.scheme.as_str()) {
            return Err(e);
        }
        let url = parsed.url;
        let auth_header = match &self.headers {
            Some(h) => match check_proxy_headers(h) {
                Ok(v) => v,
                Err(e) => return Err(e),
            },
            None => None,
        };
        Ok(ProxyParts { url, auth_header })
    }
}

} // verus!
