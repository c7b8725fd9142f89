use vstd::prelude::*;

verus! {

/// The kinds of failure the client reports to its host.
#[derive(Clone, Copy, Debug, PartialEq, Eq, Structural)]
pub enum ErrorKind {
    BadMethod,
    BadUrl,
    BadHeader,
    PoolTimeout,
    SendConnection,
    SendTimeout,
    SendUnknown,
    ReadConnection,
    ReadTimeout,
    ReadUnknown,
    ClientClosed,
    ResponseClosed,
    InvalidConfig,
    AdmissionFailed,
    UnknownVersion,
}

/// How a transport failure is classified, the same way at dispatch and at read time.
#[derive(Clone, Copy, Debug, PartialEq, Eq, Structural)]
pub enum FailureClass {
    Connection,
    Timeout,
    Unknown,
}

pub open spec fn class_of(is_connect: bool, is_timeout: bool) -> FailureClass {
    if is_connect {
        FailureClass::Connection
    } else if is_timeout {
        FailureClass::Timeout
    } else {
        FailureClass::Unknown
    }
}

pub open spec fn send_kind(c: FailureClass) -> ErrorKind {
    match c {
        FailureClass::Connection => ErrorKind::SendConnection,
        FailureClass::Timeout => ErrorKind::SendTimeout,
        FailureClass::Unknown => ErrorKind::SendUnknown,
    }
}

pub open spec fn read_kind(c: FailureClass) -> ErrorKind {
    match c {
        FailureClass::Connection => ErrorKind::ReadConnection,
        FailureClass::Timeout => ErrorKind::ReadTimeout,
        FailureClass::Unknown => ErrorKind::ReadUnknown,
    }
}

/// A connection failure wins over a timeout; anything else is unknown.
pub fn classify_failure(is_connect: bool, is_timeout: bool) -> (r: FailureClass)
    ensures
        r == class_of(is_connect, is_timeout),
{
    if is_connect {
        FailureClass::Connection
    } else if is_timeout {
        FailureClass::Timeout
    } else {
        FailureClass::Unknown
    }
}

/// The error reported when dispatching a request failed.
pub fn send_error(c: FailureClass) -> (r: ErrorKind)
    ensures
        r == send_kind(c),
{
    match c {
        FailureClass::Connection => ErrorKind::SendConnection,
        FailureClass::Timeout => ErrorKind::SendTimeout,
        FailureClass::Unknown => ErrorKind::SendUnknown,
    }
}

/// The error reported when pulling a body chunk failed.
pub fn read_error(c: FailureClass) -> (r: ErrorKind)
    ensures
        r == read_kind(c),
{
    match c {
        FailureClass::Connection => ErrorKind::ReadConnection,
        FailureClass::Timeout => ErrorKind::ReadTimeout,
        FailureClass::Unknown => ErrorKind::ReadUnknown,
    }
}

/// Whether a transport error arose while connecting (`Error::is_connect`).
pub uninterp spec fn connect_of(e: reqwest::Error) -> bool;

/// Whether a transport error was a timeout (`Error::is_timeout`).
pub uninterp spec fn timeout_of(e: reqwest::Error) -> bool;

/// Relies on reqwest::Error::is_connect: whether the failure arose while
/// connecting; it walks the error's own source chain only.
pub assume_specification[ reqwest::Error::is_connect ](e: &reqwest::Error) -> (r: bool)
    ensures
        r == connect_of(*e),
;

/// Relies on reqwest::Error::is_timeout: whether the failure was a timeout;
/// it walks the error's own source chain only.
pub assume_specification[ reqwest::Error::is_timeout ](e: &reqwest::Error) -> (r: bool)
    ensures
        r == timeout_of(*e),
;

/// reqwest's error type, read only through its classification predicates.
#[verifier::external_type_specification]
#[verifier::external_body]
pub struct ExReqwestError(reqwest::Error);

/// Classifies a failure reported by the transport.
pub fn transport_failure(e: &reqwest::Error) -> (r: FailureClass)
    ensures
        r == class_of(connect_of(*e), timeout_of(*e)),
{
    classify_failure(e.is_connect(), e.is_timeout())
}

/// Classifies a dispatch failure of the transport.
pub fn map_send_error(e: &reqwest::Error) -> (r: ErrorKind)
    ensures
        r == send_kind(class_of(connect_of(*e), timeout_of(*e))),
{
    send_error(transport_failure(e))
}

/// Classifies a body-read failure of the transport.
pub fn map_read_error(e: &reqwest::Error) -> (r: ErrorKind)
    ensures
        r == read_kind(class_of(connect_of(*e), timeout_of(*e))),
{
    read_error(transport_failure(e))
}

} // verus!
