use vstd::prelude::*;
use vstd::string::StringSliceAdditionalSpecFns;
use crate::errors::ErrorKind;
use crate::extensions::{BytesExt, ExtensionValue, Extensions};
use crate::utils::{http_version_str, version_text, HttpVersion};

verus! {

/// What a trace observer learns of the request.
pub struct RequestTraceInfo {
    pub method: String,
    pub url: String,
}

/// What a trace observer learns of a response.
pub struct ResponseTraceInfo {
    pub status_code: u16,
    pub headers: Vec<(Vec<u8>, Vec<u8>)>,
    pub version: String,
}

/// What a trace observer learns of a failed dispatch.
pub struct ResponseErrorTraceData {
    pub error_message: String,
}

impl ResponseTraceInfo {
    pub fn new(status_code: u16, headers: Vec<(Vec<u8>, Vec<u8>)>, version: HttpVersion) -> (r: Self)
        ensures
            r.status_code == status_code,
            r.headers == headers,
            r.version@ == version_text(version),
    {
        ResponseTraceInfo { status_code, headers, version: http_version_str(version) }
    }
}

/// An observer must offer both hooks; a missing one is a configuration error.
pub fn check_tracer(has_start_hook: bool, has_end_hook: bool) -> (r: Result<(), ErrorKind>)
    ensures
        r is Ok <==> has_start_hook && has_end_hook,
        r is Err ==> r->Err_0 == ErrorKind::InvalidConfig,
{
    if !has_start_hook || !has_end_hook {
        Err(ErrorKind::InvalidConfig)
    } else {
        Ok(())
    }
}

/// Where a traced request stands.
#[derive(Clone, Copy, Debug, PartialEq, Eq, Structural)]
pub enum TracePhase {
    Idle,
    StartHookRunning,
    Dispatching,
    EndHookRunning,
    Done,
}

/// A call made while a request is traced, in the order it is made.
#[derive(Clone, Copy, Debug, PartialEq, Eq, Structural)]
pub enum HookCall {
    Start,
    Dispatch,
    /// The end hook, given the response descriptor.
    EndWithResponse,
    /// The end hook, given the error descriptor.
    EndWithError,
}

/// What happens to a traced request: it begins, a hook or the dispatch
/// returns, successfully or not.
#[derive(Clone, Copy, Debug, PartialEq, Eq, Structural)]
pub enum TraceEvent {
    Begin,
    StartHookReturned(bool),
    DispatchFinished(bool),
    EndHookReturned(bool),
}

/// What the caller must do next.
#[derive(Clone, Copy, Debug, PartialEq, Eq, Structural)]
pub enum TraceAction {
    RunStartHook,
    Dispatch,
    RunEndHook,
    /// A hook failed: the request fails with the hook's error.
    AbortWithHookError,
    Finish,
}

pub struct TraceModel {
    pub phase: TracePhase,
    pub traced: bool,
    pub log: Seq<HookCall>,
    pub hook_failed: bool,
}

pub open spec fn end_call(dispatch_ok: bool) -> HookCall {
    if dispatch_ok {
        HookCall::EndWithResponse
    } else {
        HookCall::EndWithError
    }
}

pub open spec fn trace_step(m: TraceModel, e: TraceEvent) -> TraceModel {
    match (m.phase, e) {
        (TracePhase::Idle, TraceEvent::Begin) => {
            if m.traced {
                TraceModel { phase: TracePhase::StartHookRunning, log: m.log.push(HookCall::Start), ..m }
            } else {
                TraceModel { phase: TracePhase::Dispatching, ..m }
            }
        },
        (TracePhase::StartHookRunning, TraceEvent::StartHookReturned(ok)) => {
            if ok {
                TraceModel { phase: TracePhase::Dispatching, ..m }
            } else {
                TraceModel { phase: TracePhase::Done, hook_failed: true, ..m }
            }
        },
        (TracePhase::Dispatching, TraceEvent::DispatchFinished(ok)) => {
            if m.traced {
                TraceModel {
                    phase: TracePhase::EndHookRunning,
                    log: m.log.push(HookCall::Dispatch).push(end_call(ok)),
                    ..m
                }
            } else {
                TraceModel { phase: TracePhase::Done, log: m.log.push(HookCall::Dispatch), ..m }
            }
        },
        (TracePhase::EndHookRunning, TraceEvent::EndHookReturned(ok)) => {
            TraceModel { phase: TracePhase::Done, hook_failed: !ok, ..m }
        },
        _ => m,
    }
}

pub open spec fn trace_run(m: TraceModel, es: Seq<TraceEvent>) -> TraceModel
    decreases es.len(),
{
    if es.len() == 0 {
        m
    } else {
        trace_run(trace_step(m, es[0]), es.drop_first())
    }
}

pub open spec fn initial_trace(traced: bool) -> TraceModel {
    TraceModel { phase: TracePhase::Idle, traced, log: Seq::empty(), hook_failed: false }
}

/// The calls a traced request makes, in order, stop at some prefix of
/// start, dispatch, end.
pub open spec fn trace_log_ok(m: TraceModel) -> bool {
    if m.traced {
        match m.phase {
            TracePhase::Idle => m.log == Seq::<HookCall>::empty(),
            TracePhase::StartHookRunning | TracePhase::Dispatching => m.log == seq![HookCall::Start],
            TracePhase::EndHookRunning => m.log.len() == 3 && m.log[0] == HookCall::Start
                && m.log[1] == HookCall::Dispatch && (m.log[2] == HookCall::EndWithResponse || m.log[2] == HookCall::EndWithError),
            TracePhase::Done => m.log == seq![HookCall::Start] || (m.log.len() == 3 && m.log[0] == HookCall::Start
                && m.log[1] == HookCall::Dispatch && (m.log[2] == HookCall::EndWithResponse || m.log[2] == HookCall::EndWithError)),
        }
    } else {
        match m.phase {
            TracePhase::Done => m.log == seq![HookCall::Dispatch],
            TracePhase::Idle | TracePhase::Dispatching => m.log == Seq::<HookCall>::empty(),
            _ => false,
        }
    }
}

/// Whatever happens to a request, the start hook comes before the dispatch,
/// and the end hook, when it runs, comes right after the dispatch.
pub proof fn lemma_trace_order(m: TraceModel, es: Seq<TraceEvent>)
    requires
        trace_log_ok(m),
    ensures
        trace_log_ok(trace_run(m, es)),
    decreases es.len(),
{
    if es.len() > 0 {
        let n = trace_step(m, es[0]);
        assert(trace_log_ok(n)) by {
            if m.traced && m.phase == TracePhase::Dispatching {
                if let TraceEvent::DispatchFinished(ok) = es[0] {
                    assert(n.log =~= seq![HookCall::Start, HookCall::Dispatch, end_call(ok)]);
                }
            }
            if !m.traced && m.phase == TracePhase::Dispatching {
                if let TraceEvent::DispatchFinished(ok) = es[0] {
                    assert(n.log =~= seq![HookCall::Dispatch]);
                }
            }
            if m.traced && m.phase == TracePhase::Idle && es[0] == TraceEvent::Begin {
                assert(n.log =~= seq![HookCall::Start]);
            }
        }
        lemma_trace_order(n, es.drop_first());
    }
}

/// A traced request whose hooks succeed calls exactly start, dispatch, end;
/// the end hook gets the response descriptor when the dispatch succeeded and
/// the error descriptor when it failed.
pub proof fn lemma_trace_sequence(dispatch_ok: bool)
    ensures
        trace_run(initial_trace(true), seq![
            TraceEvent::Begin,
            TraceEvent::StartHookReturned(true),
            TraceEvent::DispatchFinished(dispatch_ok),
            TraceEvent::EndHookReturned(true),
        ]).log == seq![HookCall::Start, HookCall::Dispatch, end_call(dispatch_ok)],
{
    let es = seq![
        TraceEvent::Begin,
        TraceEvent::StartHookReturned(true),
        TraceEvent::DispatchFinished(dispatch_ok),
        TraceEvent::EndHookReturned(true),
    ];
    let m0 = initial_trace(true);
    let m1 = trace_step(m0, TraceEvent::Begin);
    let m2 = trace_step(m1, TraceEvent::StartHookReturned(true));
    let m3 = trace_step(m2, TraceEvent::DispatchFinished(dispatch_ok));
    let m4 = trace_step(m3, TraceEvent::EndHookReturned(true));
    let es1 = es.drop_first();
    let es2 = es1.drop_first();
    let es3 = es2.drop_first();
    let es4 = es3.drop_first();
    assert(es1 =~= seq![TraceEvent::StartHookReturned(true), TraceEvent::DispatchFinished(dispatch_ok), TraceEvent::EndHookReturned(true)]);
    assert(es2 =~= seq![TraceEvent::DispatchFinished(dispatch_ok), TraceEvent::EndHookReturned(true)]);
    assert(es3 =~= seq![TraceEvent::EndHookReturned(true)]);
    assert(es4 =~= Seq::<TraceEvent>::empty());
    assert(trace_run(m4, es4) == m4);
    assert(trace_run(m3, es3) == m4);
    assert(trace_run(m2, es2) == m4);
    assert(trace_run(m1, es1) == m4);
    assert(trace_run(m0, es) == m4);
    assert(m4.log =~= seq![HookCall::Start, HookCall::Dispatch, end_call(dispatch_ok)]);
}

/// Extension data set by the hooks reaches the response: a hook that sets
/// entries leaves the map it was given with those entries written over it.
/// Every entry the end hook set is in the response's store with its value,
/// and every entry the start hook set that the end hook left alone keeps the
/// start hook's value.
pub proof fn lemma_extension_merge(
    existing: Map<Seq<char>, ExtensionValue>,
    version_value: ExtensionValue,
    start_set: Map<Seq<char>, ExtensionValue>,
    end_set: Map<Seq<char>, ExtensionValue>,
)
    ensures
        ({
            let after_start = Map::<Seq<char>, ExtensionValue>::empty().union_prefer_right(start_set);
            let after_end = after_start.union_prefer_right(end_set);
            let store = response_store(existing, version_value, after_end);
            &&& forall|k: Seq<char>| #[trigger] end_set.contains_key(k) ==> store.contains_key(k) && store[k] == end_set[k]
            &&& forall|k: Seq<char>| #[trigger] start_set.contains_key(k) && !end_set.contains_key(k)
                ==> store.contains_key(k) && store[k] == start_set[k]
        }),
{
}

/// The trace of one request: its phase, the calls made so far, and the
/// extension data that the hooks read and rewrite.
pub struct TraceSession {
    phase: TracePhase,
    traced: bool,
    log: Vec<HookCall>,
    hook_failed: bool,
    extensions: Extensions,
}

impl TraceSession {
    pub closed spec fn model(&self) -> TraceModel {
        TraceModel { phase: self.phase, traced: self.traced, log: self.log@, hook_failed: self.hook_failed }
    }

    pub closed spec fn spec_extensions(&self) -> Map<Seq<char>, ExtensionValue> {
        self.extensions.view()
    }

    pub closed spec fn well_formed(&self) -> bool {
        self.extensions.well_formed()
    }

    /// A session for a request that starts with the given extension data;
    /// without an observer it only dispatches.
    pub fn new(traced: bool, extensions: Extensions) -> (r: Self)
        requires
            extensions.well_formed(),
        ensures
            r.model() == initial_trace(traced),
            r.spec_extensions() == extensions.view(),
            r.well_formed(),
    {
        let log: Vec<HookCall> = Vec::new();
        let r = TraceSession { phase: TracePhase::Idle, traced, log, hook_failed: false, extensions };
        assert(r.model().log =~= Seq::<HookCall>::empty());
        r
    }

    pub fn phase(&self) -> (r: TracePhase)
        ensures
            r == self.model().phase,
    {
        self.phase
    }

    /// The calls made so far.
    pub fn log(&self) -> (r: &Vec<HookCall>)
        ensures
            r@ == self.model().log,
    {
        &self.log
    }

    /// The current extension data, to hand to a hook.
    pub fn extensions(&self) -> (r: &Extensions)
        ensures
            r.view() == self.spec_extensions(),
            self.well_formed() ==> r.well_formed(),
    {
        &self.extensions
    }

    /// Starts the request: run the start hook when traced, else dispatch.
    pub fn begin(&mut self) -> (r: TraceAction)
        requires
            old(self).model().phase == TracePhase::Idle,
        ensures
            final(self).model() == trace_step(old(self).model(), TraceEvent::Begin),
            final(self).spec_extensions() == old(self).spec_extensions(),
            final(self).well_formed() == old(self).well_formed(),
            r == (if old(self).model().traced { TraceAction::RunStartHook } else { TraceAction::Dispatch }),
    {
        if self.traced {
            self.log.push(HookCall::Start);
            self.phase = TracePhase::StartHookRunning;
            TraceAction::RunStartHook
        } else {
            self.phase = TracePhase::Dispatching;
            TraceAction::Dispatch
        }
    }

    /// The start hook returned the extension data as it left them, or failed.
    pub fn start_hook_returned(&mut self, result: Option<Extensions>) -> (r: TraceAction)
        requires
            old(self).model().phase == TracePhase::StartHookRunning,
            result matches Some(e) ==> e.well_formed(),
            old(self).well_formed(),
        ensures
            final(self).model() == trace_step(old(self).model(), TraceEvent::StartHookReturned(result is Some)),
            final(self).well_formed(),
            result matches Some(e) ==> final(self).spec_extensions() == e.view(),
            result is None ==> final(self).spec_extensions() == old(self).spec_extensions(),
            r == (if result is Some { TraceAction::Dispatch } else { TraceAction::AbortWithHookError }),
    {
        match result {
            Some(e) => {
                self.extensions = e;
                self.phase = TracePhase::Dispatching;
                TraceAction::Dispatch
            },
            None => {
                self.phase = TracePhase::Done;
                self.hook_failed = true;
                TraceAction::AbortWithHookError
            },
        }
    }

    /// The dispatch finished; the end hook runs whatever its outcome.
    pub fn dispatch_finished(&mut self, ok: bool) -> (r: TraceAction)
        requires
            old(self).model().phase == TracePhase::Dispatching,
        ensures
            final(self).model() == trace_step(old(self).model(), TraceEvent::DispatchFinished(ok)),
            final(self).spec_extensions() == old(self).spec_extensions(),
            final(self).well_formed() == old(self).well_formed(),
            r == (if old(self).model().traced { TraceAction::RunEndHook } else { TraceAction::Finish }),
    {
        self.log.push(HookCall::Dispatch);
        if self.traced {
            if ok {
                self.log.push(HookCall::EndWithResponse);
            } else {
                self.log.push(HookCall::EndWithError);
            }
            self.phase = TracePhase::EndHookRunning;
            TraceAction::RunEndHook
        } else {
            self.phase = TracePhase::Done;
            TraceAction::Finish
        }
    }

    /// The end hook returned the extension data as it left them, or failed.
    pub fn end_hook_returned(&mut self, result: Option<Extensions>) -> (r: TraceAction)
        requires
            old(self).model().phase == TracePhase::EndHookRunning,
            result matches Some(e) ==> e.well_formed(),
            old(self).well_formed(),
        ensures
            final(self).model() == trace_step(old(self).model(), TraceEvent::EndHookReturned(result is Some)),
            final(self).well_formed(),
            result matches Some(e) ==> final(self).spec_extensions() == e.view(),
            result is None ==> final(self).spec_extensions() == old(self).spec_extensions(),
            r == (if result is Some { TraceAction::Finish } else { TraceAction::AbortWithHookError }),
    {
        match result {
            Some(e) => {
                self.extensions = e;
                self.phase = TracePhase::Done;
                self.hook_failed = false;
                TraceAction::Finish
            },
            None => {
                self.phase = TracePhase::Done;
                self.hook_failed = true;
                TraceAction::AbortWithHookError
            },
        }
    }

    /// The extension store of a successful response: what it already held,
    /// the protocol version under "http_version", then the request's data
    /// written over both.
    pub fn into_response_extensions(self, existing: Option<Extensions>, version: HttpVersion) -> (r: Extensions)
        requires
            self.well_formed(),
            existing matches Some(e) ==> e.well_formed(),
        ensures
            r.well_formed(),
            exists|v: ExtensionValue| version_entry(v, version) && r.view() == response_store(
                match existing {
                    Some(e) => e.view(),
                    None => Map::empty(),
                },
                v,
                self.spec_extensions(),
            ),
    {
        let mut store = match existing {
            Some(e) => e,
            None => Extensions::new(),
        };
        let label = http_version_str(version);
        let bytes = copy_bytes(label.as_str().as_bytes());
        let entry = ExtensionValue::Bytes(BytesExt { bytes });
        let ghost entry_view = entry;
        let ghost base = store.view();
        store.insert("http_version".to_owned(), entry);
        store.merge_from(self.extensions);
        assert(version_entry(entry_view, version));
        assert(store.view() == response_store(base, entry_view, self.spec_extensions()));
        store
    }
}

/// The bytes of a version's label.
pub open spec fn version_bytes(v: HttpVersion) -> Seq<u8> {
    vstd::utf8::encode_utf8(version_text(v))
}

/// The value recorded under "http_version": the bytes of the version's label.
pub open spec fn version_entry(v: ExtensionValue, version: HttpVersion) -> bool {
    v is Bytes && v->Bytes_0.bytes@ == version_bytes(version)
}

/// A response's extension store: what it held, the version entry, then the
/// request's data written over both.
pub open spec fn response_store(
    existing: Map<Seq<char>, ExtensionValue>,
    version_value: ExtensionValue,
    request: Map<Seq<char>, ExtensionValue>,
) -> Map<Seq<char>, ExtensionValue> {
    existing.insert("http_version"@, version_value).union_prefer_right(request)
}

fn copy_bytes(s: &[u8]) -> (r: Vec<u8>)
    ensures
        r@ == s@,
{
    let mut out: Vec<u8> = Vec::new();
    let mut i: usize = 0;
    while i < s.len()
        invariant
            i <= s@.len(),
            out@ == s@.subrange(0, i as int),
        decreases s@.len() - i,
    {
        out.push(s[i]);
        i = i + 1;
    }
    out
}

} // verus!
