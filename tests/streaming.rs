use reqwest_native::async_client::{finish_dispatch, limit_connections, AdmissionOutcome, DispatchOutcome};
use reqwest_native::async_response::{NativeAsyncResponse, NextStep, PullOutcome, StreamState};
use reqwest_native::errors::{ErrorKind, FailureClass};
use reqwest_native::extensions::{BytesExt, ExtensionPrimitive, ExtensionValue, Extensions};
use reqwest_native::trace::{check_tracer, HookCall, ResponseTraceInfo, TraceAction, TracePhase, TraceSession};
use reqwest_native::utils::HttpVersion;

fn sample_headers() -> Vec<(Vec<u8>, Vec<u8>)> {
    vec![
        (b"set-cookie".to_vec(), b"a=1".to_vec()),
        (b"Content-Type".to_vec(), b"text/html".to_vec()),
        (b"set-cookie".to_vec(), b"b=2".to_vec()),
    ]
}

fn open_response(permit: bool) -> NativeAsyncResponse {
    NativeAsyncResponse::new(200, sample_headers(), Some(HttpVersion::Http11), permit).ok().unwrap()
}

fn int_of(v: Option<&ExtensionValue>) -> i64 {
    match v {
        Some(ExtensionValue::I64(n)) => *n,
        _ => panic!("expected an integer"),
    }
}

#[test]
fn response_reads_back_its_triple() {
    let r = NativeAsyncResponse::new(404, sample_headers(), Some(HttpVersion::Http2), true).ok().unwrap();
    assert_eq!(r.status(), 404);
    assert_eq!(r.headers(), &sample_headers());
    assert_eq!(r.http_version(), "HTTP/2");
    assert!(r.holds_permit());
    assert_eq!(r.state(), StreamState::Open);
}

#[test]
fn response_version_labels() {
    assert_eq!(NativeAsyncResponse::http_version_str(HttpVersion::Http09), "HTTP/0.9");
    assert_eq!(NativeAsyncResponse::http_version_str(HttpVersion::Http10), "HTTP/1.0");
    assert_eq!(NativeAsyncResponse::http_version_str(HttpVersion::Http11), "HTTP/1.1");
    assert_eq!(NativeAsyncResponse::http_version_str(HttpVersion::Http3), "HTTP/3");
}

#[test]
fn unknown_version_is_an_error() {
    let r = NativeAsyncResponse::new(200, Vec::new(), None, true);
    assert_eq!(r.err().unwrap(), ErrorKind::UnknownVersion);
}

#[test]
fn chunks_then_end_then_end_again() {
    let mut r = open_response(true);
    assert_eq!(r.next_step(), NextStep::Pull);
    assert_eq!(r.finish_pull(PullOutcome::Chunk(b"hello".to_vec())), Ok(Some(b"hello".to_vec())));
    assert!(r.holds_permit());
    assert_eq!(r.finish_pull(PullOutcome::End), Ok(None));
    assert!(!r.holds_permit());
    assert_eq!(r.state(), StreamState::Exhausted);
    for _ in 0..3 {
        assert_eq!(r.next_step(), NextStep::EndOfStream);
        assert_eq!(r.answer_without_pull(), Ok(None));
    }
    assert!(!r.close());
    assert_eq!(r.next_step(), NextStep::Closed);
    assert_eq!(r.answer_without_pull(), Err(ErrorKind::ResponseClosed));
}

#[test]
fn close_gives_the_permit_back_once() {
    let mut r = open_response(true);
    assert!(r.close());
    assert!(!r.close());
    assert!(!r.holds_permit());
    assert_eq!(r.next_step(), NextStep::Closed);
    assert_eq!(r.answer_without_pull(), Err(ErrorKind::ResponseClosed));
}

#[test]
fn read_failure_keeps_the_permit_until_close() {
    let mut r = open_response(true);
    assert_eq!(r.finish_pull(PullOutcome::Failed(FailureClass::Timeout)), Err(ErrorKind::ReadTimeout));
    assert!(r.holds_permit());
    assert_eq!(r.finish_pull(PullOutcome::Failed(FailureClass::Connection)), Err(ErrorKind::ReadConnection));
    assert_eq!(r.finish_pull(PullOutcome::Failed(FailureClass::Unknown)), Err(ErrorKind::ReadUnknown));
    assert!(r.close());
}

#[test]
fn response_without_permit_never_releases() {
    let mut r = open_response(false);
    assert_eq!(r.finish_pull(PullOutcome::End), Ok(None));
    assert!(!r.close());
}

#[test]
fn admission_outcomes() {
    assert_eq!(limit_connections(AdmissionOutcome::Unlimited), Ok(false));
    assert_eq!(limit_connections(AdmissionOutcome::Admitted), Ok(true));
    assert_eq!(limit_connections(AdmissionOutcome::TimedOut), Err(ErrorKind::PoolTimeout));
    assert_eq!(limit_connections(AdmissionOutcome::SemaphoreClosed), Err(ErrorKind::AdmissionFailed));
}

#[test]
fn dispatch_failure_is_classified() {
    let r = finish_dispatch(true, DispatchOutcome::Failed(FailureClass::Connection));
    assert_eq!(r.err().unwrap(), ErrorKind::SendConnection);
    let r = finish_dispatch(true, DispatchOutcome::Failed(FailureClass::Timeout));
    assert_eq!(r.err().unwrap(), ErrorKind::SendTimeout);
    let r = finish_dispatch(false, DispatchOutcome::Failed(FailureClass::Unknown));
    assert_eq!(r.err().unwrap(), ErrorKind::SendUnknown);
}

#[test]
fn dispatch_success_hands_the_permit_to_the_response() {
    let out = DispatchOutcome::Responded { status: 201, headers: sample_headers(), version: Some(HttpVersion::Http10) };
    let r = finish_dispatch(true, out).ok().unwrap();
    assert_eq!(r.status(), 201);
    assert_eq!(r.http_version(), "HTTP/1.0");
    assert!(r.holds_permit());
    let out = DispatchOutcome::Responded { status: 200, headers: Vec::new(), version: None };
    assert_eq!(finish_dispatch(true, out).err().unwrap(), ErrorKind::UnknownVersion);
}

#[test]
fn extensions_insert_overwrite_and_merge() {
    let mut e = Extensions::new();
    assert_eq!(e.len(), 0);
    e.insert("a".to_string(), ExtensionValue::I64(1));
    e.insert("s".to_string(), ExtensionValue::Str("x".to_string()));
    e.insert("a".to_string(), ExtensionValue::I64(5));
    assert_eq!(e.len(), 2);
    assert_eq!(int_of(e.get("a")), 5);
    assert!(e.contains_key("s"));
    assert!(!e.contains_key("z"));
    assert!(e.get("z").is_none());
    assert_eq!(e.entries()[0].0, "a");
    let mut top = Extensions::new();
    top.insert("a".to_string(), ExtensionValue::I64(9));
    top.insert("l".to_string(), ExtensionValue::List(vec![ExtensionPrimitive::Bool(true), ExtensionPrimitive::F64(1.5f64.to_bits())]));
    e.merge_from(top);
    assert_eq!(e.len(), 3);
    assert_eq!(int_of(e.get("a")), 9);
    match e.get("l") {
        Some(ExtensionValue::List(items)) => {
            assert_eq!(items.len(), 2);
            match &items[1] {
                ExtensionPrimitive::F64(bits) => assert_eq!(f64::from_bits(*bits), 1.5),
                _ => panic!("expected a float"),
            }
        }
        _ => panic!("expected a list"),
    }
}

fn run_traced(dispatch_ok: bool, end_overwrites_a: bool) -> (TraceSession, Extensions) {
    let mut s = TraceSession::new(true, Extensions::new());
    assert_eq!(s.begin(), TraceAction::RunStartHook);
    assert_eq!(s.phase(), TracePhase::StartHookRunning);
    let mut after_start = Extensions::new();
    after_start.insert("a".to_string(), ExtensionValue::I64(1));
    assert_eq!(s.start_hook_returned(Some(after_start)), TraceAction::Dispatch);
    assert_eq!(s.dispatch_finished(dispatch_ok), TraceAction::RunEndHook);
    let mut after_end = Extensions::new();
    after_end.insert("a".to_string(), ExtensionValue::I64(if end_overwrites_a { 3 } else { 1 }));
    after_end.insert("b".to_string(), ExtensionValue::I64(2));
    assert_eq!(s.end_hook_returned(Some(after_end)), TraceAction::Finish);
    assert_eq!(s.phase(), TracePhase::Done);
    let snapshot = {
        let mut c = Extensions::new();
        c.insert("a".to_string(), ExtensionValue::I64(int_of(s.extensions().get("a"))));
        c.insert("b".to_string(), ExtensionValue::I64(int_of(s.extensions().get("b"))));
        c
    };
    (s, snapshot)
}

#[test]
fn traced_success_calls_start_dispatch_end() {
    let (s, _) = run_traced(true, false);
    assert_eq!(s.log(), &vec![HookCall::Start, HookCall::Dispatch, HookCall::EndWithResponse]);
}

#[test]
fn traced_failure_gives_end_hook_the_error() {
    let (s, _) = run_traced(false, false);
    assert_eq!(s.log(), &vec![HookCall::Start, HookCall::Dispatch, HookCall::EndWithError]);
}

#[test]
fn untraced_request_only_dispatches() {
    let mut s = TraceSession::new(false, Extensions::new());
    assert_eq!(s.begin(), TraceAction::Dispatch);
    assert_eq!(s.dispatch_finished(true), TraceAction::Finish);
    assert_eq!(s.log(), &vec![HookCall::Dispatch]);
    assert_eq!(s.extensions().len(), 0);
}

#[test]
fn failing_start_hook_aborts_before_dispatch() {
    let mut s = TraceSession::new(true, Extensions::new());
    s.begin();
    assert_eq!(s.start_hook_returned(None), TraceAction::AbortWithHookError);
    assert_eq!(s.phase(), TracePhase::Done);
    assert_eq!(s.log(), &vec![HookCall::Start]);
}

#[test]
fn failing_end_hook_fails_the_request() {
    let mut s = TraceSession::new(true, Extensions::new());
    s.begin();
    s.start_hook_returned(Some(Extensions::new()));
    s.dispatch_finished(true);
    assert_eq!(s.end_hook_returned(None), TraceAction::AbortWithHookError);
    assert_eq!(s.log().len(), 3);
}

#[test]
fn hook_data_reaches_the_response_store() {
    let (s, _) = run_traced(true, false);
    let store = s.into_response_extensions(None, HttpVersion::Http11);
    assert_eq!(int_of(store.get("a")), 1);
    assert_eq!(int_of(store.get("b")), 2);
    match store.get("http_version") {
        Some(ExtensionValue::Bytes(BytesExt { bytes })) => assert_eq!(bytes.as_slice(), b"HTTP/1.1"),
        _ => panic!("expected the version bytes"),
    }
    assert_eq!(store.len(), 3);
}

#[test]
fn end_hook_overwrite_wins() {
    let (s, snapshot) = run_traced(true, true);
    assert_eq!(int_of(snapshot.get("a")), 3);
    let mut existing = Extensions::new();
    existing.insert("a".to_string(), ExtensionValue::I64(100));
    existing.insert("kept".to_string(), ExtensionValue::Bool(true));
    let store = s.into_response_extensions(Some(existing), HttpVersion::Http2);
    assert_eq!(int_of(store.get("a")), 3);
    assert_eq!(int_of(store.get("b")), 2);
    assert!(matches!(store.get("kept"), Some(ExtensionValue::Bool(true))));
    match store.get("http_version") {
        Some(ExtensionValue::Bytes(BytesExt { bytes })) => assert_eq!(bytes.as_slice(), b"HTTP/2"),
        _ => panic!("expected the version bytes"),
    }
}

#[test]
fn tracer_needs_both_hooks() {
    assert!(check_tracer(true, true).is_ok());
    assert_eq!(check_tracer(true, false).unwrap_err(), ErrorKind::InvalidConfig);
    assert_eq!(check_tracer(false, true).unwrap_err(), ErrorKind::InvalidConfig);
}

#[test]
fn response_trace_info_uses_version_label() {
    let info = ResponseTraceInfo::new(200, sample_headers(), HttpVersion::Http2);
    assert_eq!(info.status_code, 200);
    assert_eq!(info.version, "HTTP/2");
    assert_eq!(info.headers.len(), 3);
}

#[test]
fn chunks_come_out_in_order_then_end() {
    let mut r = open_response(true);
    let body: Vec<Vec<u8>> = vec![b"ab".to_vec(), Vec::new(), b"cde".to_vec(), b"f".to_vec()];
    let mut seen = Vec::new();
    for chunk in body.iter() {
        assert_eq!(r.next_step(), NextStep::Pull);
        seen.push(r.finish_pull(PullOutcome::Chunk(chunk.clone())).unwrap().unwrap());
    }
    assert_eq!(r.finish_pull(PullOutcome::End), Ok(None));
    assert_eq!(seen, body);
    assert_eq!(seen.concat(), b"abcdef".to_vec());
    assert_eq!(r.next_step(), NextStep::EndOfStream);
}

#[test]
fn nested_maps_keep_distinct_keys() {
    let mut e = Extensions::new();
    e.insert(
        "d".to_string(),
        ExtensionValue::Dict(vec![("k".to_string(), ExtensionPrimitive::U64(7)), ("j".to_string(), ExtensionPrimitive::Str("v".to_string()))]),
    );
    match e.get("d") {
        Some(ExtensionValue::Dict(d)) => assert_eq!(d.len(), 2),
        _ => panic!("expected a map"),
    }
}
