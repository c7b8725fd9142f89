use vstd::prelude::*;
use crate::errors::{read_error, read_kind, ErrorKind, FailureClass};
use crate::utils::{version_text, HttpVersion};

verus! {

/// Where the body cursor of a response stands.
#[derive(Clone, Copy, Debug, PartialEq, Eq, Structural)]
pub enum StreamState {
    Open,
    Exhausted,
    Closed,
}

/// What one pull from the transport's body cursor produced.
pub enum PullOutcome {
    Chunk(Vec<u8>),
    End,
    Failed(FailureClass),
}

/// The shape of a pull outcome, without its data.
#[derive(Clone, Copy, Debug, PartialEq, Eq, Structural)]
pub enum PullKind {
    Chunk,
    End,
    Failed,
}

/// What happens to a response: a request for the next chunk, whose pull
/// (if one is made) produced the given kind of outcome, or a close.
#[derive(Clone, Copy, Debug, PartialEq, Eq, Structural)]
pub enum StreamEvent {
    Next(PullKind),
    Close,
}

/// What a request for the next chunk must do.
#[derive(Clone, Copy, Debug, PartialEq, Eq, Structural)]
pub enum NextStep {
    Pull,
    EndOfStream,
    Closed,
}

/// What the host observes from a request for the next chunk.
#[derive(Clone, Copy, Debug, PartialEq, Eq, Structural)]
pub enum Observation {
    Chunk,
    EndOfStream,
    Failure,
    Closed,
}

/// The stream's state and whether it still owns its admission permit.
pub struct StreamModel {
    pub state: StreamState,
    pub permit_held: bool,
}

pub open spec fn pull_kind(o: PullOutcome) -> PullKind {
    match o {
        PullOutcome::Chunk(_) => PullKind::Chunk,
        PullOutcome::End => PullKind::End,
        PullOutcome::Failed(_) => PullKind::Failed,
    }
}

pub open spec fn step(m: StreamModel, e: StreamEvent) -> StreamModel {
    match e {
        StreamEvent::Close => StreamModel { state: StreamState::Closed, permit_held: false },
        StreamEvent::Next(k) => {
            if m.state == StreamState::Open && k == PullKind::End {
                StreamModel { state: StreamState::Exhausted, permit_held: false }
            } else {
                m
            }
        },
    }
}

pub open spec fn observe(m: StreamModel, e: StreamEvent) -> Observation {
    match e {
        StreamEvent::Close => Observation::Closed,
        StreamEvent::Next(k) => match m.state {
            StreamState::Closed => Observation::Closed,
            StreamState::Exhausted => Observation::EndOfStream,
            StreamState::Open => match k {
                PullKind::Chunk => Observation::Chunk,
                PullKind::End => Observation::EndOfStream,
                PullKind::Failed => Observation::Failure,
            },
        },
    }
}

/// Whether this event gives the permit back.
pub open spec fn releases_permit(m: StreamModel, e: StreamEvent) -> bool {
    m.permit_held && !step(m, e).permit_held
}

pub open spec fn run(m: StreamModel, es: Seq<StreamEvent>) -> StreamModel
    decreases es.len(),
{
    if es.len() == 0 {
        m
    } else {
        run(step(m, es[0]), es.drop_first())
    }
}

/// How many times a run of events gives the permit back.
pub open spec fn release_count(m: StreamModel, es: Seq<StreamEvent>) -> nat
    decreases es.len(),
{
    if es.len() == 0 {
        0
    } else {
        (if releases_permit(m, es[0]) { 1nat } else { 0nat }) + release_count(step(m, es[0]), es.drop_first())
    }
}

/// A permit is given back at most once, and never without being held.
pub proof fn lemma_release_at_most_once(m: StreamModel, es: Seq<StreamEvent>)
    ensures
        release_count(m, es) <= (if m.permit_held { 1nat } else { 0nat }),
    decreases es.len(),
{
    if es.len() > 0 {
        lemma_release_at_most_once(step(m, es[0]), es.drop_first());
    }
}

/// A held permit is given back exactly once by any run that closes the response.
pub proof fn lemma_close_releases_once(m: StreamModel, es: Seq<StreamEvent>)
    requires
        m.permit_held,
        es.contains(StreamEvent::Close),
    ensures
        release_count(m, es) == 1,
    decreases es.len(),
{
    lemma_release_at_most_once(m, es);
    if releases_permit(m, es[0]) {
    } else {
        let i = choose|i: int| 0 <= i < es.len() && es[i] == StreamEvent::Close;
        assert(i != 0);
        assert(es.drop_first()[i - 1] == StreamEvent::Close);
        lemma_close_releases_once(step(m, es[0]), es.drop_first());
    }
}

/// A held permit is given back exactly once by any run in which the open
/// stream reports its end first.
pub proof fn lemma_exhaustion_releases_once(m: StreamModel, es: Seq<StreamEvent>)
    requires
        m.permit_held,
        m.state == StreamState::Open,
        es.len() > 0,
        es[0] == StreamEvent::Next(PullKind::End),
    ensures
        release_count(m, es) == 1,
{
    lemma_release_at_most_once(step(m, es[0]), es.drop_first());
}

/// Once the stream has ended or been closed it never becomes open again.
pub proof fn lemma_terminal_stays(m: StreamModel, es: Seq<StreamEvent>)
    requires
        m.state != StreamState::Open,
    ensures
        run(m, es).state != StreamState::Open,
    decreases es.len(),
{
    if es.len() > 0 {
        lemma_terminal_stays(step(m, es[0]), es.drop_first());
    }
}

/// A run of `n` chunk pulls followed by the end of the body.
pub open spec fn chunks_then_end(n: nat) -> Seq<StreamEvent> {
    Seq::new(n, |i: int| StreamEvent::Next(PullKind::Chunk)).push(StreamEvent::Next(PullKind::End))
}

proof fn lemma_run_chunks(m: StreamModel, k: nat)
    requires
        m.state == StreamState::Open,
    ensures
        run(m, Seq::new(k, |i: int| StreamEvent::Next(PullKind::Chunk))) == m,
    decreases k,
{
    let s = Seq::new(k, |i: int| StreamEvent::Next(PullKind::Chunk));
    if k > 0 {
        assert(s.drop_first() =~= Seq::new((k - 1) as nat, |i: int| StreamEvent::Next(PullKind::Chunk)));
        lemma_run_chunks(m, (k - 1) as nat);
    }
}

proof fn lemma_run_concat(m: StreamModel, a: Seq<StreamEvent>, b: Seq<StreamEvent>)
    ensures
        run(m, a + b) == run(run(m, a), b),
    decreases a.len(),
{
    if a.len() > 0 {
        assert((a + b).drop_first() =~= a.drop_first() + b);
        lemma_run_concat(step(m, a[0]), a.drop_first(), b);
    } else {
        assert(a + b =~= b);
    }
}

/// Chunks come out in the order they are pulled, each once, and then the end
/// of the stream: on an open stream, each of `n` pulls that yields a chunk is
/// observed as that chunk, the pull that reports the end is observed as the
/// end, and the stream is then exhausted.
pub proof fn lemma_chunks_in_order(m: StreamModel, n: nat)
    requires
        m.state == StreamState::Open,
    ensures
        forall|i: int| 0 <= i < n ==> #[trigger] observe(run(m, chunks_then_end(n).take(i)), chunks_then_end(n)[i]) == Observation::Chunk,
        observe(run(m, chunks_then_end(n).take(n as int)), chunks_then_end(n)[n as int]) == Observation::EndOfStream,
        run(m, chunks_then_end(n)).state == StreamState::Exhausted,
{
    let es = chunks_then_end(n);
    let chunks = Seq::new(n, |i: int| StreamEvent::Next(PullKind::Chunk));
    assert forall|i: int| 0 <= i < n implies #[trigger] observe(run(m, es.take(i)), es[i]) == Observation::Chunk by {
        assert(es.take(i) =~= Seq::new(i as nat, |j: int| StreamEvent::Next(PullKind::Chunk)));
        lemma_run_chunks(m, i as nat);
    }
    assert(es.take(n as int) =~= chunks);
    lemma_run_chunks(m, n);
    assert(es =~= chunks + seq![StreamEvent::Next(PullKind::End)]);
    lemma_run_concat(m, chunks, seq![StreamEvent::Next(PullKind::End)]);
    let tail = seq![StreamEvent::Next(PullKind::End)];
    assert(tail.drop_first() =~= Seq::<StreamEvent>::empty());
    assert(run(m, chunks) == m);
    assert(run(m, tail) == run(step(m, tail[0]), tail.drop_first()));
    assert(run(m, es) == run(m, tail));
}

/// Iteration is single pass: after the end of the stream has been seen, every
/// later request observes the end again, or that the response was closed,
/// and never a chunk.
pub proof fn lemma_end_is_final(m: StreamModel, es: Seq<StreamEvent>, i: int)
    requires
        m.state == StreamState::Exhausted,
        0 <= i < es.len(),
    ensures
        observe(run(m, es.take(i)), es[i]) == Observation::EndOfStream
            || observe(run(m, es.take(i)), es[i]) == Observation::Closed,
{
    lemma_terminal_stays(m, es.take(i));
}

/// A response: its status, headers and version, and the state of its body
/// stream together with the admission permit it owns.
pub struct NativeAsyncResponse {
    status: u16,
    headers: Vec<(Vec<u8>, Vec<u8>)>,
    http_version: String,
    state: StreamState,
    permit_held: bool,
}

impl NativeAsyncResponse {
    /// The label of a protocol version, as the host sees it.
    pub fn http_version_str(v: HttpVersion) -> (r: String)
        ensures
            r@ == version_text(v),
    {
        crate::utils::http_version_str(v)
    }

    pub closed spec fn model(&self) -> StreamModel {
        StreamModel { state: self.state, permit_held: self.permit_held }
    }

    pub closed spec fn spec_status(&self) -> u16 {
        self.status
    }

    pub closed spec fn spec_headers(&self) -> Seq<(Vec<u8>, Vec<u8>)> {
        self.headers@
    }

    pub closed spec fn spec_version(&self) -> Seq<char> {
        self.http_version@
    }

    /// Builds a response from what the transport reported; an unknown
    /// protocol version is an error. The stream starts open, owning the
    /// permit if one was given.
    pub fn new(status: u16, headers: Vec<(Vec<u8>, Vec<u8>)>, version: Option<HttpVersion>, permit_held: bool) -> (r: Result<Self, ErrorKind>)
        ensures
            r is Err <==> version is None,
            r is Err ==> r->Err_0 == ErrorKind::UnknownVersion,
            r is Ok ==> r->Ok_0.spec_status() == status && r->Ok_0.spec_headers() == headers@
                && r->Ok_0.spec_version() == version_text(version->Some_0)
                && r->Ok_0.model() == (StreamModel { state: StreamState::Open, permit_held }),
    {
        match version {
            Some(v) => Ok(NativeAsyncResponse {
                status,
                headers,
                http_version: NativeAsyncResponse::http_version_str(v),
                state: StreamState::Open,
                permit_held,
            }),
            None => Err(ErrorKind::UnknownVersion),
        }
    }

    pub fn status(&self) -> (r: u16)
        ensures
            r == self.spec_status(),
    {
        self.status
    }

    pub fn headers(&self) -> (r: &Vec<(Vec<u8>, Vec<u8>)>)
        ensures
            r@ == self.spec_headers(),
    {
        &self.headers
    }

    pub fn http_version(&self) -> (r: &String)
        ensures
            r@ == self.spec_version(),
    {
        &self.http_version
    }

    pub fn state(&self) -> (r: StreamState)
        ensures
            r == self.model().state,
    {
        self.state
    }

    /// Whether the response still owns its admission permit.
    pub fn holds_permit(&self) -> (r: bool)
        ensures
            r == self.model().permit_held,
    {
        self.permit_held
    }

    /// Decides what a request for the next chunk does: pull from the body
    /// cursor only while the stream is open.
    pub fn next_step(&self) -> (r: NextStep)
        ensures
            r == NextStep::Pull <==> self.model().state == StreamState::Open,
            r == NextStep::EndOfStream <==> self.model().state == StreamState::Exhausted,
            r == NextStep::Closed <==> self.model().state == StreamState::Closed,
    {
        match self.state {
            StreamState::Open => NextStep::Pull,
            StreamState::Exhausted => NextStep::EndOfStream,
            StreamState::Closed => NextStep::Closed,
        }
    }

    /// Answers a request for the next chunk that made no pull: the end of the
    /// stream again, or an error once closed.
    pub fn answer_without_pull(&self) -> (r: Result<Option<Vec<u8>>, ErrorKind>)
        requires
            self.model().state != StreamState::Open,
        ensures
            self.model().state == StreamState::Exhausted ==> r == Ok::<Option<Vec<u8>>, ErrorKind>(None),
            self.model().state == StreamState::Closed ==> r == Err::<Option<Vec<u8>>, ErrorKind>(ErrorKind::ResponseClosed),
    {
        match self.state {
            StreamState::Closed => Err(ErrorKind::ResponseClosed),
            _ => Ok(None),
        }
    }

    /// Records the outcome of one pull from the open body cursor and returns
    /// what the host receives: a chunk, the end of the stream (which gives the
    /// permit back), or a read error (the permit stays until close).
    pub fn finish_pull(&mut self, outcome: PullOutcome) -> (r: Result<Option<Vec<u8>>, ErrorKind>)
        requires
            old(self).model().state == StreamState::Open,
        ensures
            final(self).model() == step(old(self).model(), StreamEvent::Next(pull_kind(outcome))),
            final(self).spec_status() == old(self).spec_status(),
            final(self).spec_headers() == old(self).spec_headers(),
            final(self).spec_version() == old(self).spec_version(),
            r == (match outcome {
                PullOutcome::Chunk(b) => Ok::<Option<Vec<u8>>, ErrorKind>(Some(b)),
                PullOutcome::End => Ok(None),
                PullOutcome::Failed(c) => Err(read_kind(c)),
            }),
    {
        match outcome {
            PullOutcome::Chunk(b) => Ok(Some(b)),
            PullOutcome::End => {
                self.state = StreamState::Exhausted;
                self.permit_held = false;
                Ok(None)
            },
            PullOutcome::Failed(c) => Err(read_error(c)),
        }
    }

    /// Closes the response; repeating it changes nothing. Returns whether this
    /// call gave the permit back.
    pub fn close(&mut self) -> (r: bool)
        ensures
            final(self).model() == step(old(self).model(), StreamEvent::Close),
            r == releases_permit(old(self).model(), StreamEvent::Close),
            final(self).spec_status() == old(self).spec_status(),
            final(self).spec_headers() == old(self).spec_headers(),
            final(self).spec_version() == old(self).spec_version(),
    {
        let released = self.permit_held;
        self.permit_held = false;
        self.state = StreamState::Closed;
        released
    }
}

} // verus!
