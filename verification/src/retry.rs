//! Retrying of invocations that failed in a way that makes a retry safe.
//!
//! A failure is safe to retry when it proves that the request never reached a
//! worker. The state machine here makes one attempt after another, never two
//! at a time, until one of them answers, fails for good, or the limit is
//! reached.

use vstd::prelude::*;
use vstd::bytes::spec_u64_to_le_bytes;
use vstd::string::*;
use crate::dispatch::{
    fresh_dispatch, plain_reply, replies, reply_view, AppReadDispatch, BackendErrorView,
    DispatchView, FrameView, Reply, ResponseMetaView,
};
use crate::error::{Error, ErrorView};
use crate::message::{RequestMeta, RequestMetaView, Response, ResponseView};
use crate::route::{copy_method, AppRequest, AppRequestView, Invocation};
use crate::wire::{
    headers_view, random_u64, timeout_header, timeout_header_name, BackendHeader,
    BackendHeaderView,
};

verus! {

/// Number of attempts made for a request unless another limit is set.
pub const DEFAULT_RETRY_LIMIT: u32 = 3;

/// Method that opens a call and carries its event.
pub const METHOD_OPEN: u64 = 0;

/// Method that carries a piece of the request.
pub const METHOD_CHUNK: u64 = 0;

/// Method that closes the stream of the request.
pub const METHOD_CLOSE: u64 = 2;

/// What the pool says of the service it picked for an attempt.
#[derive(Clone, Copy, Debug)]
pub struct Settings {
    /// Time the backend is given for the request, in milliseconds.
    pub timeout: Option<u64>,
    /// Whether the backend asks for verbose tracing.
    pub verbose: bool,
}

/// Body of the response to a request whose attempts were all turned away.
pub open spec fn retry_limit_text() -> Seq<char> {
    "Retry limit exceeded: queue is full"@
}

/// The headers that every attempt starts from: the forwarded headers, then
/// the trace, the span of the attempt, and the trace once more as the parent.
pub open spec fn base_headers(forwarded: Seq<BackendHeaderView>, trace: u64, span: u64) -> Seq<
    BackendHeaderView,
> {
    forwarded + seq![
        BackendHeaderView::TraceId(trace),
        BackendHeaderView::SpanId(span),
        BackendHeaderView::ParentId(trace),
    ]
}

/// The headers that are added when an attempt is dispatched: the trace bit
/// where the latch is set, then the timeout where the pool gives one.
pub open spec fn dispatch_headers(latched: bool, timeout: Option<u64>) -> Seq<BackendHeaderView> {
    let bit = if latched {
        seq![BackendHeaderView::TraceBit(true)]
    } else {
        Seq::empty()
    };
    match timeout {
        Some(millis) => bit.push(
            BackendHeaderView::Raw {
                name: timeout_header_name(),
                value: spec_u64_to_le_bytes(millis),
            },
        ),
        None => bit,
    }
}

/// Whether an attempt sees verbose tracing asked for: by the backend, or by a
/// local sampling decision.
pub open spec fn observes_verbose(verbose: bool, sampled: Option<bool>) -> bool {
    verbose || sampled == Some(true)
}

/// The verbose latch after an attempt has been dispatched. The first attempt
/// sets it where it sees verbose tracing asked for; nothing ever clears it and
/// no later attempt sets it.
pub open spec fn latch_after(
    latched: bool,
    number: u32,
    verbose: bool,
    sampled: Option<bool>,
) -> bool {
    latched || (number == 1 && observes_verbose(verbose, sampled))
}

/// State of the retry machine, as a mathematical value.
pub struct RetryView {
    /// Number of the attempt that is under way, counted from one.
    pub attempts: u32,
    /// Number of attempts that may be made.
    pub limit: u32,
    /// The request that every attempt sends.
    pub request: AppRequestView,
    /// The headers forwarded from the HTTP request.
    pub headers: Seq<BackendHeaderView>,
    /// The verbose latch.
    pub verbose: bool,
}

impl RetryView {
    /// What holds of every retry machine: it has made at least one attempt,
    /// and no more than its limit allows where the limit allows any.
    pub open spec fn well_formed(self) -> bool {
        1 <= self.attempts && (self.limit == 0 || self.attempts <= self.limit)
    }
}

/// One attempt before it is dispatched, as a mathematical value.
pub struct AttemptView {
    pub number: u32,
    pub span: u64,
    pub sampled: Option<bool>,
    pub headers: Seq<BackendHeaderView>,
}

/// What is sent to the backend for one attempt, as a mathematical value.
pub struct CallView {
    /// Method of the frame that opens the call.
    pub open: u64,
    /// The only argument of the opening frame.
    pub event: Seq<char>,
    /// Headers of the opening frame.
    pub headers: Seq<BackendHeaderView>,
    /// Method of the frame that carries the request.
    pub chunk: u64,
    /// The request meta, sent in serialised form as the only argument of the
    /// second frame.
    pub frame: RequestMetaView,
    /// Method of the last frame, which has no arguments.
    pub close: u64,
    /// The dispatcher that takes the response.
    pub reader: DispatchView,
}

/// How the attempt under way stands.
pub enum Outcome {
    /// The attempt has given its reply.
    Ready(Reply),
    /// The attempt has not finished.
    NotReady,
    /// The attempt failed without a reply.
    Failed(Error),
}

/// Mathematical value of an [`Outcome`].
pub enum OutcomeView {
    Ready(Option<(ResponseView, u64)>),
    NotReady,
    Failed(ErrorView),
}

impl View for Outcome {
    type V = OutcomeView;

    open spec fn view(&self) -> OutcomeView {
        match self {
            Outcome::Ready(reply) => OutcomeView::Ready(reply_view(*reply)),
            Outcome::NotReady => OutcomeView::NotReady,
            Outcome::Failed(error) => OutcomeView::Failed(error@),
        }
    }
}

/// Where a request stands after its retry machine has been polled, as a
/// mathematical value.
pub enum ProgressView {
    /// The attempt under way goes on.
    Running(RetryView),
    /// The attempt under way was turned away; the next one is to be made.
    Retry(RetryView),
    /// The request is answered with this response and this many body bytes.
    Completed(ResponseView, u64),
    /// The request has failed.
    Failed(ErrorView),
}

/// The step of the retry machine.
///
/// A reply completes the request. An attempt that was turned away is followed
/// by another while the limit allows; once it does not, the request completes
/// with a 500 response that says so. A failure fails the request. An attempt
/// that has not finished changes nothing.
pub open spec fn advance(state: RetryView, outcome: OutcomeView) -> ProgressView {
    match outcome {
        OutcomeView::Ready(Some((response, size))) => ProgressView::Completed(response, size),
        OutcomeView::Ready(None) => if state.attempts < state.limit {
            ProgressView::Retry(RetryView { attempts: (state.attempts + 1) as u32, ..state })
        } else {
            let exhausted = plain_reply(500, state.request.trace, retry_limit_text())->0;
            ProgressView::Completed(exhausted.0, exhausted.1)
        },
        OutcomeView::NotReady => ProgressView::Running(state),
        OutcomeView::Failed(error) => ProgressView::Failed(error),
    }
}

/// Retries the invocation of an application while its failures are safe to
/// retry.
pub struct AppWithSafeRetry {
    attempts: u32,
    limit: u32,
    request: AppRequest,
    headers: Vec<BackendHeader>,
    verbose: bool,
}

impl View for AppWithSafeRetry {
    type V = RetryView;

    closed spec fn view(&self) -> RetryView {
        RetryView {
            attempts: self.attempts,
            limit: self.limit,
            request: self.request@,
            headers: headers_view(self.headers@),
            verbose: self.verbose,
        }
    }
}

/// One attempt, made and not yet dispatched.
pub struct Attempt {
    number: u32,
    span: u64,
    sampled: Option<bool>,
    headers: Vec<BackendHeader>,
}

impl View for Attempt {
    type V = AttemptView;

    closed spec fn view(&self) -> AttemptView {
        AttemptView {
            number: self.number,
            span: self.span,
            sampled: self.sampled,
            headers: headers_view(self.headers@),
        }
    }
}

/// What is sent to the backend for one attempt.
pub struct Call<'a> {
    pub open: u64,
    pub event: &'a String,
    pub headers: Vec<BackendHeader>,
    pub chunk: u64,
    pub frame: &'a RequestMeta,
    pub close: u64,
    pub reader: AppReadDispatch,
}

impl<'a> View for Call<'a> {
    type V = CallView;

    open spec fn view(&self) -> CallView {
        CallView {
            open: self.open,
            event: self.event@,
            headers: headers_view(self.headers@),
            chunk: self.chunk,
            frame: self.frame@,
            close: self.close,
            reader: self.reader@,
        }
    }
}

/// Where a request stands after its retry machine has been polled.
pub enum Progress {
    /// The attempt under way goes on.
    Running(AppWithSafeRetry),
    /// The attempt under way was turned away; the next one is to be made.
    Retry(AppWithSafeRetry),
    /// The request is answered with this response and this many body bytes.
    Completed(Response, u64),
    /// The request has failed.
    Failed(Error),
}

impl View for Progress {
    type V = ProgressView;

    open spec fn view(&self) -> ProgressView {
        match self {
            Progress::Running(machine) => ProgressView::Running(machine@),
            Progress::Retry(machine) => ProgressView::Retry(machine@),
            Progress::Completed(response, size) => ProgressView::Completed(response@, *size),
            Progress::Failed(error) => ProgressView::Failed(error@),
        }
    }
}

/// A copy of a backend header.
pub fn copy_header(header: &BackendHeader) -> (copy: BackendHeader)
    ensures
        copy@ == header@,
{
    match header {
        BackendHeader::TraceId(v) => BackendHeader::TraceId(*v),
        BackendHeader::SpanId(v) => BackendHeader::SpanId(*v),
        BackendHeader::ParentId(v) => BackendHeader::ParentId(*v),
        BackendHeader::TraceBit(v) => BackendHeader::TraceBit(*v),
        BackendHeader::Raw { name, value } => BackendHeader::Raw {
            name: name.clone(),
            value: value.clone(),
        },
    }
}

/// A copy of a list of backend headers.
pub fn copy_headers(headers: &Vec<BackendHeader>) -> (copy: Vec<BackendHeader>)
    ensures
        headers_view(copy@) == headers_view(headers@),
{
    let mut copy: Vec<BackendHeader> = Vec::new();
    let mut i: usize = 0;
    while i < headers.len()
        invariant
            0 <= i <= headers.len(),
            headers_view(copy@) =~= headers_view(headers@).take(i as int),
        decreases headers.len() - i,
    {
        let ghost before = headers_view(copy@);
        let header = copy_header(&headers[i]);
        copy.push(header);
        proof {
            assert(headers_view(copy@) =~= before.push(header@));
            assert(headers_view(headers@).take(i + 1) =~= headers_view(headers@).take(
                i as int,
            ).push(headers@[i as int]@));
        }
        i += 1;
    }
    assert(headers_view(headers@).take(headers.len() as int) =~= headers_view(headers@));
    copy
}

impl AppWithSafeRetry {
    /// A retry machine for `request`, which may make `limit` attempts and
    /// forwards `headers` with each of them. Its first attempt is under way
    /// and its verbose latch is not set.
    pub fn new(request: AppRequest, headers: Vec<BackendHeader>, limit: u32) -> (machine:
        AppWithSafeRetry)
        ensures
            machine@ == (RetryView {
                attempts: 1,
                limit,
                request: request@,
                headers: headers_view(headers@),
                verbose: false,
            }),
            machine@.well_formed(),
    {
        AppWithSafeRetry { attempts: 1, limit, request, headers, verbose: false }
    }

    /// Starts the invocation of a routed request once its body has been read:
    /// the body is put in place and the default number of attempts allowed.
    pub fn begin(invocation: Invocation, body: Vec<u8>) -> (machine: AppWithSafeRetry)
        ensures
            machine@ == (RetryView {
                attempts: 1,
                limit: DEFAULT_RETRY_LIMIT,
                request: AppRequestView {
                    frame: RequestMetaView { body: body@, ..invocation.request@.frame },
                    ..invocation.request@
                },
                headers: headers_view(invocation.headers@),
                verbose: false,
            }),
            machine@.well_formed(),
    {
        let Invocation { request: mut request, headers } = invocation;
        request.set_body(body);
        Self::new(request, headers, DEFAULT_RETRY_LIMIT)
    }

    /// The request that every attempt sends.
    pub fn request(&self) -> (request: &AppRequest)
        ensures
            request@ == self@.request,
    {
        &self.request
    }

    /// Number of the attempt that is under way, counted from one.
    pub fn attempts(&self) -> (attempts: u32)
        ensures
            attempts == self@.attempts,
    {
        self.attempts
    }

    /// Adds the tracing identifiers of an attempt to the forwarded headers.
    pub fn make_headers(headers: Vec<BackendHeader>, trace: u64, span: u64) -> (all: Vec<
        BackendHeader,
    >)
        ensures
            headers_view(all@) == base_headers(headers_view(headers@), trace, span),
    {
        let mut all = headers;
        let ghost forwarded = headers_view(all@);
        all.push(BackendHeader::TraceId(trace));
        all.push(BackendHeader::SpanId(span));
        all.push(BackendHeader::ParentId(trace));
        assert(headers_view(all@) =~= base_headers(forwarded, trace, span));
        all
    }

    /// Makes the attempt that is under way, with `span` as its span and
    /// `sampled` as the local sampling decision, if one was taken.
    pub fn make_future_with(&self, sampled: Option<bool>, span: u64) -> (attempt: Attempt)
        ensures
            attempt@ == (AttemptView {
                number: self@.attempts,
                span,
                sampled,
                headers: base_headers(self@.headers, self@.request.trace, span),
            }),
    {
        let headers = Self::make_headers(copy_headers(&self.headers), self.request.trace, span);
        Attempt { number: self.attempts, span, sampled, headers }
    }

    /// Makes the attempt that is under way, with a random span.
    pub fn make_future(&self, sampled: Option<bool>) -> (attempt: Attempt)
        ensures
            attempt@ == (AttemptView {
                number: self@.attempts,
                span: attempt@.span,
                sampled,
                headers: base_headers(self@.headers, self@.request.trace, attempt@.span),
            }),
    {
        self.make_future_with(sampled, random_u64())
    }

    /// Dispatches an attempt on the service that the pool picked, whose
    /// settings are `settings`, and says what is to be sent.
    ///
    /// The first attempt sets the verbose latch where it sees verbose tracing
    /// asked for. An attempt dispatched with the latch set carries the trace
    /// bit; one for which the pool gives a timeout carries that too. The
    /// response is to be read with the dispatcher that comes with the call.
    pub fn dispatch<'a>(&'a mut self, attempt: Attempt, settings: Settings) -> (call: Call<'a>)
        ensures
            final(self)@ == (RetryView {
                verbose: latch_after(
                    old(self)@.verbose,
                    attempt@.number,
                    settings.verbose,
                    attempt@.sampled,
                ),
                ..old(self)@
            }),
            call@ == (CallView {
                open: METHOD_OPEN,
                event: old(self)@.request.event,
                headers: attempt@.headers + dispatch_headers(
                    final(self)@.verbose,
                    settings.timeout,
                ),
                chunk: METHOD_CHUNK,
                frame: old(self)@.request.frame,
                close: METHOD_CLOSE,
                reader: fresh_dispatch(
                    old(self)@.request.frame.method is Head,
                    old(self)@.request.trace,
                ),
            }),
    {
        let Attempt { number, span: _, sampled, headers: mut headers } = attempt;
        let manual = match sampled {
            Some(true) => true,
            _ => false,
        };
        if (settings.verbose || manual) && number == 1 {
            self.verbose = true;
        }
        let ghost base = headers_view(headers@);
        if self.verbose {
            headers.push(BackendHeader::TraceBit(true));
        }
        match settings.timeout {
            Some(millis) => {
                headers.push(timeout_header(millis));
            },
            None => {},
        }
        assert(headers_view(headers@) =~= base + dispatch_headers(self.verbose, settings.timeout));
        Call {
            open: METHOD_OPEN,
            event: &self.request.event,
            headers,
            chunk: METHOD_CHUNK,
            frame: &self.request.frame,
            close: METHOD_CLOSE,
            reader: AppReadDispatch::new(
                copy_method(&self.request.frame.method),
                self.request.trace,
            ),
        }
    }

    /// Takes the state of the attempt under way and says where the request
    /// stands.
    pub fn poll(self, outcome: Outcome) -> (progress: Progress)
        ensures
            progress@ == advance(self@, outcome@),
    {
        match outcome {
            Outcome::Ready(Some((response, size))) => Progress::Completed(response, size),
            Outcome::Ready(None) => {
                if self.attempts < self.limit {
                    let AppWithSafeRetry { attempts, limit, request, headers, verbose } = self;
                    Progress::Retry(
                        AppWithSafeRetry { attempts: attempts + 1, limit, request, headers, verbose },
                    )
                } else {
                    let response = Response::plain(
                        500,
                        Some(self.request.trace),
                        "Retry limit exceeded: queue is full",
                    );
                    let size = response.body.len() as u64;
                    Progress::Completed(response, size)
                }
            },
            Outcome::NotReady => Progress::Running(self),
            Outcome::Failed(error) => Progress::Failed(error),
        }
    }
}

/// The retry machine after it has been polled with `outcomes`, one after the
/// other, or `None` where the request was completed or failed on the way.
pub open spec fn state_after(state: RetryView, outcomes: Seq<OutcomeView>) -> Option<RetryView>
    decreases outcomes.len(),
{
    if outcomes.len() == 0 {
        Some(state)
    } else {
        match advance(state, outcomes[0]) {
            ProgressView::Running(next) => state_after(next, outcomes.drop_first()),
            ProgressView::Retry(next) => state_after(next, outcomes.drop_first()),
            ProgressView::Completed(_, _) => None,
            ProgressView::Failed(_) => None,
        }
    }
}

/// However a request fares, the number of attempts made for it never exceeds
/// the limit, and every attempt is made for the same request with the same
/// forwarded headers. The verbose latch is never cleared by polling.
pub proof fn attempts_stay_within_limit(state: RetryView, outcomes: Seq<OutcomeView>)
    requires
        state.well_formed(),
        state.limit >= 1,
    ensures
        state_after(state, outcomes) matches Some(later) ==> {
            &&& later.well_formed()
            &&& state.attempts <= later.attempts <= later.limit
            &&& later.limit == state.limit
            &&& later.request == state.request
            &&& later.headers == state.headers
            &&& later.verbose == state.verbose
        },
    decreases outcomes.len(),
{
    if outcomes.len() != 0 {
        match advance(state, outcomes[0]) {
            ProgressView::Running(next) => attempts_stay_within_limit(next, outcomes.drop_first()),
            ProgressView::Retry(next) => attempts_stay_within_limit(next, outcomes.drop_first()),
            _ => {},
        }
    }
}

/// Two attempts for the same request carry the same trace and the same
/// parent, which is the trace; only their spans are their own.
pub proof fn attempts_share_trace(
    forwarded: Seq<BackendHeaderView>,
    trace: u64,
    first_span: u64,
    second_span: u64,
)
    ensures
        ({
            let first = base_headers(forwarded, trace, first_span);
            let second = base_headers(forwarded, trace, second_span);
            let n = forwarded.len() as int;
            &&& first.len() == n + 3 && second.len() == n + 3
            &&& first.subrange(0, n) == forwarded && second.subrange(0, n) == forwarded
            &&& first[n] == BackendHeaderView::TraceId(trace) && second[n] == first[n]
            &&& first[n + 1] == BackendHeaderView::SpanId(first_span)
            &&& second[n + 1] == BackendHeaderView::SpanId(second_span)
            &&& first[n + 2] == BackendHeaderView::ParentId(trace) && second[n + 2] == first[n + 2]
        }),
{
    let first = base_headers(forwarded, trace, first_span);
    let second = base_headers(forwarded, trace, second_span);
    let n = forwarded.len() as int;
    assert(first.subrange(0, n) =~= forwarded);
    assert(second.subrange(0, n) =~= forwarded);
}

/// Whatever the backend sends in answer to an attempt, the response that
/// comes of it carries the trace that the attempt was sent under.
pub proof fn responses_carry_request_trace(
    forwarded: Seq<BackendHeaderView>,
    request: AppRequestView,
    span: u64,
    frames: Seq<FrameView>,
    decode: spec_fn(Seq<u8>) -> Result<ResponseMetaView, Seq<char>>,
    lost: BackendErrorView,
)
    ensures
        base_headers(forwarded, request.trace, span).contains(
            BackendHeaderView::TraceId(request.trace),
        ),
        forall|i: int|
            #![trigger replies(fresh_dispatch(request.frame.method is Head, request.trace), frames, decode, lost)[i]]
            0 <= i < replies(
                fresh_dispatch(request.frame.method is Head, request.trace),
                frames,
                decode,
                lost,
            ).len() ==> (replies(
                fresh_dispatch(request.frame.method is Head, request.trace),
                frames,
                decode,
                lost,
            )[i] matches Some((response, _)) ==> response.request_id == Some(request.trace)),
{
    let headers = base_headers(forwarded, request.trace, span);
    assert(headers[forwarded.len() as int] == BackendHeaderView::TraceId(request.trace));
    crate::dispatch::replies_carry_trace(
        fresh_dispatch(request.frame.method is Head, request.trace),
        frames,
        decode,
        lost,
    );
}

/// A request that is turned away at every attempt is answered after exactly
/// as many attempts as the limit allows, with a 500 response that carries the
/// trace.
pub proof fn exhaustion_ends_at_limit(state: RetryView)
    requires
        state.well_formed(),
        state.limit >= 1,
    ensures
        advance(state, OutcomeView::Ready(None)) is Completed <==> state.attempts == state.limit,
        advance(state, OutcomeView::Ready(None)) matches ProgressView::Completed(response, size)
            ==> response.status == 500 && response.request_id == Some(state.request.trace)
            && response.body == crate::message::text_bytes(retry_limit_text()) && size
            == response.body.len() as u64,
{
}

/// What one attempt meets when it is dispatched.
pub struct Seen {
    /// Whether the backend asks for verbose tracing.
    pub verbose: bool,
    /// The local sampling decision, if one was taken.
    pub sampled: Option<bool>,
    /// The timeout that the pool gives.
    pub timeout: Option<u64>,
    /// The span of the attempt.
    pub span: u64,
}

/// The verbose latch once the first `count` attempts have been dispatched, in
/// order, each meeting what `seen` says of it.
pub open spec fn latch_at(seen: Seq<Seen>, count: int) -> bool
    decreases count,
{
    if count <= 0 {
        false
    } else {
        latch_after(
            latch_at(seen, count - 1),
            count as u32,
            seen[count - 1].verbose,
            seen[count - 1].sampled,
        )
    }
}

/// The headers that attempt `number`, counted from one, is sent with.
pub open spec fn sent_headers(
    forwarded: Seq<BackendHeaderView>,
    trace: u64,
    seen: Seq<Seen>,
    number: int,
) -> Seq<BackendHeaderView> {
    base_headers(forwarded, trace, seen[number - 1].span) + dispatch_headers(
        latch_at(seen, number),
        seen[number - 1].timeout,
    )
}

/// Whether a trace bit is among `headers`.
pub open spec fn carries_trace_bit(headers: Seq<BackendHeaderView>) -> bool {
    exists|i: int| 0 <= i < headers.len() && #[trigger] headers[i] is TraceBit
}

/// The latch is decided by the first attempt alone.
pub proof fn latch_follows_first_attempt(seen: Seq<Seen>, count: int)
    requires
        1 <= count <= u32::MAX,
    ensures
        latch_at(seen, count) == observes_verbose(seen[0].verbose, seen[0].sampled),
    decreases count,
{
    if count > 1 {
        latch_follows_first_attempt(seen, count - 1);
    } else {
        assert(latch_at(seen, 0) == false);
    }
}

/// If the first attempt saw verbose tracing asked for, by the backend or by
/// its own sampling decision, every attempt of the request carries the trace
/// bit, set; if it did not, no attempt carries a trace bit, whatever later
/// attempts see.
pub proof fn trace_bit_follows_first_attempt(
    forwarded: Seq<BackendHeaderView>,
    trace: u64,
    seen: Seq<Seen>,
    number: int,
)
    requires
        1 <= number <= seen.len(),
        seen.len() <= u32::MAX,
        forall|i: int| 0 <= i < forwarded.len() ==> #[trigger] forwarded[i] is Raw,
    ensures
        carries_trace_bit(sent_headers(forwarded, trace, seen, number)) == observes_verbose(
            seen[0].verbose,
            seen[0].sampled,
        ),
        observes_verbose(seen[0].verbose, seen[0].sampled) ==> sent_headers(
            forwarded,
            trace,
            seen,
            number,
        ).contains(BackendHeaderView::TraceBit(true)),
{
    latch_follows_first_attempt(seen, number);
    let headers = sent_headers(forwarded, trace, seen, number);
    let n = forwarded.len() as int;
    if observes_verbose(seen[0].verbose, seen[0].sampled) {
        assert(headers[n + 3] == BackendHeaderView::TraceBit(true));
    } else {
        assert forall|i: int| 0 <= i < headers.len() implies !(#[trigger] headers[i] is TraceBit) by {
            if i < n {
                assert(headers[i] == forwarded[i]);
            }
        }
    }
}

} // verus!
