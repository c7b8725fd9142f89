use vstd::prelude::*;
use vstd::utf8::encode_utf8;
use std::sync::Arc;
use crate::async_response::{NativeAsyncResponse, StreamModel, StreamState};
use crate::errors::{send_error, send_kind, ErrorKind, FailureClass};
use crate::proxy_config::NativeProxyConfig;
use crate::utils::{
    ascii_lower, check_request_url, headers_ok, is_token, name_bytes, parse_absolute_url, parse_headers, parse_method,
    request_url_ok, value_bytes, version_text, HttpVersion,
};

verus! {

/// reqwest's HTTP client, carried as an opaque transport handle.
#[verifier::external_type_specification]
#[verifier::external_body]
pub struct ExClient(reqwest::Client);

/// tokio's counting semaphore, the admission limit on in-flight requests.
#[verifier::external_type_specification]
#[verifier::external_body]
pub struct ExSemaphore(tokio::sync::Semaphore);

/// The most permits the admission semaphore can be created with.
pub const MAX_PERMITS: usize = usize::MAX >> 3;

/// Relies on tokio::sync::Semaphore::new: a semaphore with the given number of
/// permits; it panics above `Semaphore::MAX_PERMITS` (`usize::MAX >> 3`).
pub assume_specification[ tokio::sync::Semaphore::new ](permits: usize) -> tokio::sync::Semaphore
    requires
        permits <= MAX_PERMITS,
;

/// Checks the construction options that the client itself decides on: at
/// least one protocol version, and a connection cap between 1 and the semaphore's
/// limit when one is given.
pub fn validate_client_options(http1: bool, http2: bool, max_connections: Option<usize>) -> (r: Result<(), ErrorKind>)
    ensures
        r is Ok <==> (http1 || http2) && (match max_connections {
            Some(n) => 1 <= n <= MAX_PERMITS,
            None => true,
        }),
        r is Err ==> r->Err_0 == ErrorKind::InvalidConfig,
{
    if !http1 && !http2 {
        return Err(ErrorKind::InvalidConfig);
    }
    match max_connections {
        Some(n) => {
            if n == 0 || n > MAX_PERMITS {
                Err(ErrorKind::InvalidConfig)
            } else {
                Ok(())
            }
        },
        None => Ok(()),
    }
}

/// How waiting for admission ended.
#[derive(Clone, Copy, Debug, PartialEq, Eq, Structural)]
pub enum AdmissionOutcome {
    /// The client has no connection cap: nothing was acquired.
    Unlimited,
    /// A permit was acquired.
    Admitted,
    /// The connect deadline passed first: nothing was acquired.
    TimedOut,
    /// The semaphore was closed: nothing was acquired.
    SemaphoreClosed,
}

/// Turns the end of admission into the request's next step: `Ok(held)` says
/// whether the request now owns a permit.
pub fn limit_connections(outcome: AdmissionOutcome) -> (r: Result<bool, ErrorKind>)
    ensures
        r == (match outcome {
            AdmissionOutcome::Unlimited => Ok::<bool, ErrorKind>(false),
            AdmissionOutcome::Admitted => Ok(true),
            AdmissionOutcome::TimedOut => Err(ErrorKind::PoolTimeout),
            AdmissionOutcome::SemaphoreClosed => Err(ErrorKind::AdmissionFailed),
        }),
{
    match outcome {
        AdmissionOutcome::Unlimited => Ok(false),
        AdmissionOutcome::Admitted => Ok(true),
        AdmissionOutcome::TimedOut => Err(ErrorKind::PoolTimeout),
        AdmissionOutcome::SemaphoreClosed => Err(ErrorKind::AdmissionFailed),
    }
}

/// What the transport answered to a dispatched request.
pub enum DispatchOutcome {
    Responded { status: u16, headers: Vec<(Vec<u8>, Vec<u8>)>, version: Option<HttpVersion> },
    Failed(FailureClass),
}

/// Wraps the transport's answer: a response that takes over the permit, or a
/// typed error, in which case no response owns the permit and it is given
/// back at once.
pub fn finish_dispatch(permit_held: bool, outcome: DispatchOutcome) -> (r: Result<NativeAsyncResponse, ErrorKind>)
    ensures
        match outcome {
            DispatchOutcome::Failed(c) => r == Err::<NativeAsyncResponse, ErrorKind>(send_kind(c)),
            DispatchOutcome::Responded { status, headers, version } => match version {
                None => r == Err::<NativeAsyncResponse, ErrorKind>(ErrorKind::UnknownVersion),
                Some(v) => r is Ok && r->Ok_0.spec_status() == status && r->Ok_0.spec_headers() == headers@
                    && r->Ok_0.spec_version() == version_text(v)
                    && r->Ok_0.model() == (StreamModel { state: StreamState::Open, permit_held }),
            },
        },
{
    match outcome {
        DispatchOutcome::Failed(c) => Err(send_error(c)),
        DispatchOutcome::Responded { status, headers, version } => NativeAsyncResponse::new(status, headers, version, permit_held),
    }
}

/// A request that passed validation, ready for admission and dispatch.
pub struct PreparedRequest {
    pub method: http::Method,
    pub url: reqwest::Url,
    pub headers: Vec<(http::HeaderName, http::HeaderValue)>,
    pub timeout: Option<core::time::Duration>,
}

pub open spec fn opt_headers_ok(headers: Option<Vec<(Vec<u8>, Vec<u8>)>>) -> bool {
    match headers {
        Some(h) => headers_ok(h@),
        None => true,
    }
}

/// A client: the transport handle (gone once closed), the admission semaphore when
/// connections are capped, the connect deadline and the proxy it was built with.
pub struct NativeAsyncClient {
    client: Option<reqwest::Client>,
    request_semaphore: Option<Arc<tokio::sync::Semaphore>>,
    max_connections: Option<usize>,
    connect_timeout: Option<core::time::Duration>,
    proxy: Option<NativeProxyConfig>,
}

impl NativeAsyncClient {
    pub closed spec fn is_open(&self) -> bool {
        self.client is Some
    }

    pub closed spec fn spec_max_connections(&self) -> Option<usize> {
        self.max_connections
    }

    pub closed spec fn spec_connect_timeout(&self) -> Option<core::time::Duration> {
        self.connect_timeout
    }

    pub closed spec fn spec_proxy(&self) -> Option<NativeProxyConfig> {
        self.proxy
    }

    pub closed spec fn well_formed(&self) -> bool {
        (self.request_semaphore is Some <==> self.max_connections is Some)
            && (self.max_connections matches Some(n) ==> 1 <= n <= MAX_PERMITS)
    }

    /// Takes a built transport and the admission settings. A connection cap
    /// of zero, or above the semaphore's limit, is a configuration error.
    pub fn new(client: reqwest::Client, max_connections: Option<usize>, connect_timeout: Option<core::time::Duration>, proxy: Option<NativeProxyConfig>) -> (r: Result<Self, ErrorKind>)
        ensures
            r is Ok <==> (match max_connections {
                Some(n) => 1 <= n <= MAX_PERMITS,
                None => true,
            }),
            r is Err ==> r->Err_0 == ErrorKind::InvalidConfig,
            r is Ok ==> r->Ok_0.is_open() && r->Ok_0.well_formed() && r->Ok_0.spec_max_connections() == max_connections
                && r->Ok_0.spec_connect_timeout() == connect_timeout && r->Ok_0.spec_proxy() == proxy,
    {
        let request_semaphore = match max_connections {
            Some(n) => {
                if n == 0 || n > MAX_PERMITS {
                    return Err(ErrorKind::InvalidConfig);
                }
                Some(Arc::new(tokio::sync::Semaphore::new(n)))
            },
            None => None,
        };
        Ok(NativeAsyncClient { client: Some(client), request_semaphore, max_connections, connect_timeout, proxy })
    }

    pub fn is_closed(&self) -> (r: bool)
        ensures
            r == !self.is_open(),
    {
        self.client.is_none()
    }

    /// Drops the transport handle; closing again changes nothing.
    pub fn close(&mut self)
        ensures
            !final(self).is_open(),
            final(self).spec_max_connections() == old(self).spec_max_connections(),
            final(self).spec_connect_timeout() == old(self).spec_connect_timeout(),
            final(self).spec_proxy() == old(self).spec_proxy(),
            old(self).well_formed() ==> final(self).well_formed(),
    {
        self.client = None;
    }

    /// The transport handle, or an error once the client is closed.
    pub fn transport(&self) -> (r: Result<&reqwest::Client, ErrorKind>)
        ensures
            r is Ok <==> self.is_open(),
            r is Err ==> r->Err_0 == ErrorKind::ClientClosed,
    {
        match &self.client {
            Some(c) => Ok(c),
            None => Err(ErrorKind::ClientClosed),
        }
    }

    /// The admission semaphore, present exactly when connections are capped.
    pub fn request_semaphore(&self) -> (r: &Option<Arc<tokio::sync::Semaphore>>)
        ensures
            self.well_formed() ==> (r is Some <==> self.spec_max_connections() is Some),
    {
        &self.request_semaphore
    }

    /// The deadline for waiting on admission, if any.
    pub fn connect_timeout(&self) -> (r: Option<core::time::Duration>)
        ensures
            r == self.spec_connect_timeout(),
    {
        self.connect_timeout
    }

    pub fn proxy(&self) -> (r: &Option<NativeProxyConfig>)
        ensures
            *r == self.spec_proxy(),
    {
        &self.proxy
    }

    /// Validates a request before anything is acquired or sent, in order: the
    /// client is open, the method, the URL (it parses, names a host and has
    /// an http or https scheme), then each header. The first failure is the
    /// error; the headers keep their order, names lower-cased, values as given.
    pub fn prepare_request(&self, method: String, url: String, headers: Option<Vec<(Vec<u8>, Vec<u8>)>>, timeout: Option<core::time::Duration>) -> (r: Result<PreparedRequest, ErrorKind>)
        ensures
            !self.is_open() ==> r == Err::<PreparedRequest, ErrorKind>(ErrorKind::ClientClosed),
            self.is_open() && !is_token(encode_utf8(method@)) ==> r == Err::<PreparedRequest, ErrorKind>(ErrorKind::BadMethod),
            self.is_open() && is_token(encode_utf8(method@)) && !request_url_ok(url@)
                ==> r == Err::<PreparedRequest, ErrorKind>(ErrorKind::BadUrl),
            self.is_open() && is_token(encode_utf8(method@)) && request_url_ok(url@) && !opt_headers_ok(headers)
                ==> r == Err::<PreparedRequest, ErrorKind>(ErrorKind::BadHeader),
            self.is_open() && is_token(encode_utf8(method@)) && request_url_ok(url@) && opt_headers_ok(headers) ==> r is Ok,
            r matches Ok(p) ==> p.timeout == timeout && match headers {
                Some(h) => p.headers@.len() == h@.len() && forall|i: int| 0 <= i < h@.len()
                    ==> name_bytes((#[trigger] p.headers@[i]).0) == ascii_lower(h@[i].0@) && value_bytes(p.headers@[i].1) == h@[i].1@,
                None => p.headers@.len() == 0,
            },
    {
        if self.client.is_none() {
            return Err(ErrorKind::ClientClosed);
        }
        let method = match parse_method(method) {
            Ok(m) => m,
            Err(e) => return Err(e),
        };
        let parsed = match parse_absolute_url(url.as_str()) {
            Some(p) => p,
            None => return Err(ErrorKind::BadUrl),
        };
        if let Err(e) = check_request_url(parsed.has_host, parsed.scheme.as_str()) {
            return Err(e);
        }
        let url = parsed.url;
        let headers = match headers {
            Some(h) => match parse_headers(&h) {
                Ok(parsed) => parsed,
                Err(e) => return Err(e),
            },
            None => Vec::new(),
        };
        Ok(PreparedRequest { method, url, headers, timeout })
    }
}

} // verus!
