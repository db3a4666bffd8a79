//! The response dispatcher: consumes the frames of one backend call and
//! rebuilds the HTTP response from them.
//!
//! A dispatcher is used up by the reply it gives. Every step takes it by value
//! and hands back either the dispatcher, to go on with, or the reply; there is
//! no way to obtain a second reply from the same call.

use vstd::prelude::*;
use vstd::string::*;
use crate::message::{
    bytes_of, names_match, pairs_view, same_name, strings_view, text_bytes, Method, Response,
    ResponseMeta, ResponseView,
};

verus! {

/// Category of the backend error that says the request never reached a worker.
pub const CATEGORY_QUEUE: u32 = 0x52ff;

/// Code, within [`CATEGORY_QUEUE`], of "queue is full".
pub const CODE_QUEUE_FULL: u32 = 1;

/// Category of backend errors that the gateway side produced.
pub const CATEGORY_GATEWAY: u32 = 0x54ff;

/// Category of errors raised by the pool about the connection itself.
pub const CATEGORY_POOL: u32 = 10;

/// Code, within [`CATEGORY_POOL`], of "service is not available".
pub const CODE_UNAVAILABLE: u32 = 1;

/// A failure reported for a backend call.
#[derive(Clone, Debug, PartialEq, Eq)]
pub enum BackendError {
    /// An error raised by the service, with its category and code.
    Service { category: u32, code: u32, message: String },
    /// Any other failure (I/O, protocol, ...).
    Other { message: String },
}

/// Mathematical value of a [`BackendError`].
pub enum BackendErrorView {
    Service { category: u32, code: u32, message: Seq<char> },
    Other { message: Seq<char> },
}

impl View for BackendError {
    type V = BackendErrorView;

    open spec fn view(&self) -> BackendErrorView {
        match self {
            BackendError::Service { category, code, message } => BackendErrorView::Service {
                category: *category,
                code: *code,
                message: message@,
            },
            BackendError::Other { message } => BackendErrorView::Other { message: message@ },
        }
    }
}

impl BackendErrorView {
    /// The text of the error.
    pub open spec fn message(self) -> Seq<char> {
        match self {
            BackendErrorView::Service { message, .. } => message,
            BackendErrorView::Other { message } => message,
        }
    }

    /// Whether the error is the service error with the given category and code.
    pub open spec fn is_service(self, category: u32, code: u32) -> bool {
        self matches BackendErrorView::Service { category: c, code: k, .. } && c == category && k
            == code
    }

    /// Whether the error is a service error of the given category.
    pub open spec fn in_category(self, category: u32) -> bool {
        self matches BackendErrorView::Service { category: c, .. } && c == category
    }
}

/// Whether a failure proves that the request was rejected before it reached a
/// worker, so that sending it again is safe: only "queue is full" does.
pub open spec fn safe_to_retry(error: BackendErrorView) -> bool {
    error.is_service(CATEGORY_QUEUE, CODE_QUEUE_FULL)
}

impl BackendError {
    /// The text of the error.
    pub fn message(&self) -> (text: &String)
        ensures
            text@ == self@.message(),
    {
        match self {
            BackendError::Service { message, .. } => message,
            BackendError::Other { message } => message,
        }
    }

    /// Whether this is the service error with the given category and code.
    pub fn is_service(&self, category: u32, code: u32) -> (yes: bool)
        ensures
            yes == self@.is_service(category, code),
    {
        match self {
            BackendError::Service { category: c, code: k, .. } => *c == category && *k == code,
            BackendError::Other { .. } => false,
        }
    }

    /// Whether this is a service error of the given category.
    pub fn in_category(&self, category: u32) -> (yes: bool)
        ensures
            yes == self@.in_category(category),
    {
        match self {
            BackendError::Service { category: c, .. } => *c == category,
            BackendError::Other { .. } => false,
        }
    }

    /// Whether the request may be sent again after this failure.
    pub fn is_safe_to_retry(&self) -> (yes: bool)
        ensures
            yes == safe_to_retry(self@),
    {
        self.is_service(CATEGORY_QUEUE, CODE_QUEUE_FULL)
    }
}

/// One frame of a backend response stream.
#[derive(Clone, Debug, PartialEq, Eq)]
pub enum Frame {
    /// A data frame. The first one of a stream holds the response meta, the
    /// others are pieces of the body.
    Chunk(Vec<u8>),
    /// The stream has ended.
    Close,
    /// The backend reported an error.
    Error(BackendError),
}

/// Mathematical value of a [`Frame`].
pub enum FrameView {
    Chunk(Seq<u8>),
    Close,
    Error(BackendErrorView),
}

impl View for Frame {
    type V = FrameView;

    open spec fn view(&self) -> FrameView {
        match self {
            Frame::Chunk(bytes) => FrameView::Chunk(bytes@),
            Frame::Close => FrameView::Close,
            Frame::Error(error) => FrameView::Error(error@),
        }
    }
}

/// Mathematical value of a [`ResponseMeta`].
pub struct ResponseMetaView {
    pub code: u32,
    pub headers: Seq<(Seq<char>, Seq<char>)>,
}

impl View for ResponseMeta {
    type V = ResponseMetaView;

    open spec fn view(&self) -> ResponseMetaView {
        ResponseMetaView { code: self.code, headers: pairs_view(self.headers@) }
    }
}

/// What decoding the first data frame gave: the meta, or the decoder's
/// message.
pub open spec fn decoded_view(decoded: Result<ResponseMeta, String>) -> Result<
    ResponseMetaView,
    Seq<char>,
> {
    match decoded {
        Ok(meta) => Ok(meta@),
        Err(message) => Err(message@),
    }
}

/// What a call answers with: a response and the number of body bytes sent, or
/// `None` where the attempt failed in a way that makes a retry safe.
pub type Reply = Option<(Response, u64)>;

/// Mathematical value of a [`Reply`].
pub open spec fn reply_view(reply: Reply) -> Option<(ResponseView, u64)> {
    match reply {
        Some((response, size)) => Some((response@, size)),
        None => None,
    }
}

/// The HTTP status that a backend status code stands for: the code itself
/// where it is a valid status (100 to 599), else 500.
pub open spec fn status_of(code: u32) -> u16 {
    if 100 <= code <= 599 {
        code as u16
    } else {
        500
    }
}

/// Validation of a status code by `hyper`.
///
/// Trusted: `hyper::StatusCode::try_from` fails for numbers below 100 or above
/// 599 and otherwise gives the status whose number, read back with `as_u16`,
/// is the one put in.
#[verifier::external_body]
fn checked_status(code: u16) -> (status: Option<u16>)
    ensures
        status == (if 100 <= code <= 599 {
            Some(code)
        } else {
            None
        }),
{
    hyper::StatusCode::try_from(code).ok().map(|status| status.as_u16())
}

/// Maps the status code of a response meta to an HTTP status.
pub fn status_from_code(code: u32) -> (status: u16)
    ensures
        status == status_of(code),
{
    if code > 0xffff {
        500
    } else {
        match checked_status(code as u16) {
            Some(status) => status,
            None => 500,
        }
    }
}

/// The length that the lines of a `Content-Length` header declare together,
/// as `hyper` reads them, or `None` where they declare none.
pub uninterp spec fn declared_length(lines: Seq<Seq<char>>) -> Option<u64>;

/// Reads the lines of a `Content-Length` header with `hyper`'s parser.
///
/// Trusted: the result of `hyper::header::ContentLength::parse_header` on
/// these lines, which depends on the lines alone.
#[verifier::external_body]
fn parse_content_length(lines: &Vec<String>) -> (length: Option<u64>)
    ensures
        length == declared_length(strings_view(lines@)),
{
    let raw: Vec<Vec<u8>> = lines.iter().map(|line| line.clone().into_bytes()).collect();
    let raw = hyper::header::Raw::from(raw);
    <hyper::header::ContentLength as hyper::header::Header>::parse_header(&raw).ok().map(
        |length| length.0,
    )
}

/// The values of all headers named `name`, in order.
pub open spec fn values_named(headers: Seq<(Seq<char>, Seq<char>)>, name: Seq<char>) -> Seq<
    Seq<char>,
>
    decreases headers.len(),
{
    if headers.len() == 0 {
        Seq::empty()
    } else if same_name(headers.last().0, name) {
        values_named(headers.drop_last(), name).push(headers.last().1)
    } else {
        values_named(headers.drop_last(), name)
    }
}

/// Name of the header that declares the length of a body.
pub open spec fn content_length_name() -> Seq<char> {
    "Content-Length"@
}

/// The body length that the headers of a response declare: what `hyper` reads
/// from its `Content-Length` lines, or `None` where it has no such header.
pub open spec fn content_length(headers: Seq<(Seq<char>, Seq<char>)>) -> Option<u64> {
    let lines = values_named(headers, content_length_name());
    if lines.len() == 0 {
        None
    } else {
        declared_length(lines)
    }
}

/// Collects the values of all headers named `name`.
pub fn collect_named(headers: &Vec<(String, String)>, name: &str) -> (values: Vec<String>)
    ensures
        strings_view(values@) == values_named(pairs_view(headers@), name@),
{
    let mut values: Vec<String> = Vec::new();
    let mut i: usize = 0;
    assert(pairs_view(headers@).take(0) == Seq::<(Seq<char>, Seq<char>)>::empty());
    assert(strings_view(values@) == Seq::<Seq<char>>::empty());
    while i < headers.len()
        invariant
            0 <= i <= headers.len(),
            strings_view(values@) == values_named(pairs_view(headers@).take(i as int), name@),
        decreases headers.len() - i,
    {
        proof {
            let all = pairs_view(headers@);
            assert(all.take(i + 1).drop_last() == all.take(i as int));
            assert(all.take(i + 1).last() == (headers@[i as int].0@, headers@[i as int].1@));
        }
        if names_match(headers[i].0.as_str(), name) {
            let ghost before = strings_view(values@);
            let value = headers[i].1.clone();
            values.push(value);
            assert(strings_view(values@) == before.push(headers@[i as int].1@));
        }
        i += 1;
    }
    proof {
        assert(pairs_view(headers@).take(headers.len() as int) == pairs_view(headers@));
    }
    values
}

/// Reads the body length that the headers of a response declare.
pub fn read_content_length(headers: &Vec<(String, String)>) -> (length: Option<u64>)
    ensures
        length == content_length(pairs_view(headers@)),
{
    let lines = collect_named(headers, "Content-Length");
    if lines.len() == 0 {
        None
    } else {
        parse_content_length(&lines)
    }
}

/// Whether a response goes out with its buffered body. It does not where the
/// request was a HEAD, the status is 204 or 304, nothing was buffered, or the
/// response declares a length of zero.
pub open spec fn sends_body(head: bool, status: u16, buffered: nat, declared: Option<u64>) -> bool {
    &&& !head
    &&& status != 204
    &&& status != 304
    &&& buffered != 0
    &&& declared != Some(0u64)
}

/// The body that is sent for a finished stream.
pub open spec fn sent_body(head: bool, status: u16, buffered: Seq<u8>, declared: Option<u64>) -> Seq<
    u8,
> {
    if sends_body(head, status, buffered.len(), declared) {
        buffered
    } else {
        Seq::empty()
    }
}

/// Decides whether the buffered body is sent.
pub fn body_is_sent(head: bool, status: u16, buffered: usize, declared: Option<u64>) -> (sent: bool)
    ensures
        sent == sends_body(head, status, buffered as nat, declared),
{
    if head || status == 204 || status == 304 || buffered == 0 {
        false
    } else {
        match declared {
            Some(length) => length > 0,
            None => true,
        }
    }
}

/// Body of the reply to a stream that closes before any meta frame.
pub open spec fn close_without_meta() -> Seq<char> {
    "received `close` event without prior meta info"@
}

/// Name of the header that marks an error as produced on the gateway side.
pub open spec fn error_generated_by_name() -> Seq<char> {
    "X-Error-Generated-By"@
}

/// Value of the header that marks an error as produced on the gateway side.
pub open spec fn error_generated_by_value() -> Seq<char> {
    "vicodyn"@
}

/// The reply that carries nothing but a status, the trace and a message.
pub open spec fn plain_reply(status: u16, trace: u64, message: Seq<char>) -> Option<
    (ResponseView, u64),
> {
    tagged_reply(status, trace, Seq::empty(), message)
}

/// The reply that carries a status, the trace, some headers and a message.
pub open spec fn tagged_reply(
    status: u16,
    trace: u64,
    headers: Seq<(Seq<char>, Seq<char>)>,
    message: Seq<char>,
) -> Option<(ResponseView, u64)> {
    Some(
        (
            ResponseView {
                status,
                request_id: Some(trace),
                headers,
                body: text_bytes(message),
            },
            text_bytes(message).len() as u64,
        ),
    )
}

/// State of a dispatcher, as a mathematical value.
pub struct DispatchView {
    /// Whether the request was a HEAD.
    pub head: bool,
    /// Trace of the request.
    pub trace: u64,
    /// The response built so far.
    pub response: ResponseView,
    /// The body buffered so far; `None` until the meta frame has been taken.
    pub body: Option<Seq<u8>>,
}

/// Outcome of one step of a dispatcher, as a mathematical value.
pub enum StepView {
    /// The call goes on; the dispatcher waits for the next frame.
    Continue(DispatchView),
    /// The frame is the first data frame: it has to be decoded as a response
    /// meta before the call can go on.
    Decode(DispatchView, Seq<u8>),
    /// The call is over and this is its reply.
    Reply(Option<(ResponseView, u64)>),
}

/// The reply to a stream that has ended.
pub open spec fn reply_on_close(state: DispatchView) -> Option<(ResponseView, u64)> {
    match state.body {
        None => plain_reply(500, state.trace, close_without_meta()),
        Some(buffered) => {
            let body = sent_body(
                state.head,
                state.response.status,
                buffered,
                content_length(state.response.headers),
            );
            Some((ResponseView { body, ..state.response }, body.len() as u64))
        },
    }
}

/// The reply to an error frame.
pub open spec fn reply_on_error(state: DispatchView, error: BackendErrorView) -> Option<
    (ResponseView, u64),
> {
    if safe_to_retry(error) {
        None
    } else if error.in_category(CATEGORY_GATEWAY) {
        tagged_reply(
            500,
            state.trace,
            seq![(error_generated_by_name(), error_generated_by_value())],
            error.message(),
        )
    } else {
        plain_reply(500, state.trace, error.message())
    }
}

/// The reply of a call that is given up before its stream has ended: 503
/// where the pool says that the service is not available, else 500.
pub open spec fn reply_on_discard(state: DispatchView, error: BackendErrorView) -> Option<
    (ResponseView, u64),
> {
    let status: u16 = if error.is_service(CATEGORY_POOL, CODE_UNAVAILABLE) {
        503
    } else {
        500
    };
    plain_reply(status, state.trace, error.message())
}

/// What a dispatcher does with a frame.
pub open spec fn step(state: DispatchView, frame: FrameView) -> StepView {
    match frame {
        FrameView::Chunk(bytes) => match state.body {
            None => StepView::Decode(state, bytes),
            Some(buffered) => StepView::Continue(
                DispatchView { body: Some(buffered + bytes), ..state },
            ),
        },
        FrameView::Close => StepView::Reply(reply_on_close(state)),
        FrameView::Error(error) => StepView::Reply(reply_on_error(state, error)),
    }
}

/// What a dispatcher does once its first data frame has been decoded.
pub open spec fn step_decoded(state: DispatchView, decoded: Result<ResponseMetaView, Seq<char>>) -> StepView {
    match decoded {
        Err(message) => StepView::Reply(plain_reply(500, state.trace, message)),
        Ok(meta) => StepView::Continue(
            DispatchView {
                response: ResponseView {
                    status: status_of(meta.code),
                    request_id: Some(state.trace),
                    headers: state.response.headers + meta.headers,
                    body: state.response.body,
                },
                body: Some(Seq::empty()),
                ..state
            },
        ),
    }
}

/// The dispatcher of a call that has seen no frame yet.
pub open spec fn fresh_dispatch(head: bool, trace: u64) -> DispatchView {
    DispatchView {
        head,
        trace,
        response: ResponseView {
            status: 200,
            request_id: None,
            headers: Seq::empty(),
            body: Seq::empty(),
        },
        body: None,
    }
}

/// Consumer of the frames of one backend call.
pub struct AppReadDispatch {
    method: Method,
    trace: u64,
    response: Response,
    body: Option<Vec<u8>>,
}

/// A dispatcher that holds its first data frame and waits for it to be
/// decoded.
pub struct MetaDecode {
    dispatch: AppReadDispatch,
    bytes: Vec<u8>,
}

/// Outcome of one step of a dispatcher.
pub enum Step {
    /// The call goes on with this dispatcher.
    Continue(AppReadDispatch),
    /// The first data frame has to be decoded as a response meta; the call
    /// goes on with [`MetaDecode::resume`].
    Decode(MetaDecode),
    /// The call is over and this is its reply.
    Reply(Reply),
}

impl View for AppReadDispatch {
    type V = DispatchView;

    closed spec fn view(&self) -> DispatchView {
        DispatchView {
            head: self.method is Head,
            trace: self.trace,
            response: self.response@,
            body: match self.body {
                Some(buffered) => Some(buffered@),
                None => None,
            },
        }
    }
}

impl MetaDecode {
    /// The dispatcher that waits.
    pub closed spec fn dispatch(&self) -> DispatchView {
        self.dispatch@
    }

    /// The frame to decode.
    pub closed spec fn frame(&self) -> Seq<u8> {
        self.bytes@
    }
}

impl View for Step {
    type V = StepView;

    open spec fn view(&self) -> StepView {
        match self {
            Step::Continue(dispatch) => StepView::Continue(dispatch@),
            Step::Decode(pending) => StepView::Decode(pending.dispatch(), pending.frame()),
            Step::Reply(reply) => StepView::Reply(reply_view(*reply)),
        }
    }
}

/// An empty list of headers.
fn no_headers() -> (headers: Vec<(String, String)>)
    ensures
        pairs_view(headers@) == Seq::<(Seq<char>, Seq<char>)>::empty(),
{
    let headers: Vec<(String, String)> = Vec::new();
    assert(pairs_view(headers@) =~= Seq::<(Seq<char>, Seq<char>)>::empty());
    headers
}

/// Builds the reply that carries a status, the trace, some headers and a
/// message.
fn make_reply(status: u16, trace: u64, headers: Vec<(String, String)>, message: &str) -> (reply:
    Reply)
    ensures
        reply_view(reply) == tagged_reply(status, trace, pairs_view(headers@), message@),
{
    let body = bytes_of(message);
    let size = body.len() as u64;
    Some((Response { status, request_id: Some(trace), headers, body }, size))
}

impl AppReadDispatch {
    /// A dispatcher for the response to a request made with `method` under
    /// `trace`. It has seen no frame yet.
    pub fn new(method: Method, trace: u64) -> (dispatch: AppReadDispatch)
        ensures
            dispatch@ == fresh_dispatch(method is Head, trace),
    {
        AppReadDispatch { method, trace, response: Response::new(), body: None }
    }

    /// Takes the next frame of the stream.
    ///
    /// The first data frame is handed back for decoding; later data frames
    /// are appended to the buffered body. A close frame ends the call with the
    /// response built so far, whose body is left out where the method, the
    /// status or the headers forbid one. An error frame ends the call with a
    /// 500 response, or with no response at all where a retry is safe.
    pub fn process(self, frame: Frame) -> (next: Step)
        ensures
            next@ == step(self@, frame@),
    {
        match frame {
            Frame::Chunk(bytes) => {
                let AppReadDispatch { method, trace, response, body } = self;
                match body {
                    None => Step::Decode(
                        MetaDecode {
                            dispatch: AppReadDispatch { method, trace, response, body: None },
                            bytes,
                        },
                    ),
                    Some(mut buffered) => {
                        let mut bytes = bytes;
                        buffered.append(&mut bytes);
                        Step::Continue(
                            AppReadDispatch { method, trace, response, body: Some(buffered) },
                        )
                    },
                }
            },
            Frame::Close => Step::Reply(self.close()),
            Frame::Error(error) => Step::Reply(self.fail(&error)),
        }
    }

    /// Ends the call on a close frame.
    fn close(self) -> (reply: Reply)
        ensures
            reply_view(reply) == reply_on_close(self@),
    {
        let AppReadDispatch { method, trace, response, body } = self;
        match body {
            None => make_reply(
                500,
                trace,
                no_headers(),
                "received `close` event without prior meta info",
            ),
            Some(buffered) => {
                let declared = read_content_length(&response.headers);
                let Response { status, request_id, headers, body: _ } = response;
                if body_is_sent(method.is_head(), status, buffered.len(), declared) {
                    let size = buffered.len() as u64;
                    Some((Response { status, request_id, headers, body: buffered }, size))
                } else {
                    Some((Response { status, request_id, headers, body: Vec::new() }, 0))
                }
            },
        }
    }

    /// Ends the call on an error frame.
    fn fail(self, error: &BackendError) -> (reply: Reply)
        ensures
            reply_view(reply) == reply_on_error(self@, error@),
    {
        if error.is_safe_to_retry() {
            None
        } else if error.in_category(CATEGORY_GATEWAY) {
            let mut headers: Vec<(String, String)> = Vec::new();
            headers.push(("X-Error-Generated-By".to_owned(), "vicodyn".to_owned()));
            assert(pairs_view(headers@) =~= seq![
                (error_generated_by_name(), error_generated_by_value()),
            ]);
            make_reply(500, self.trace, headers, error.message().as_str())
        } else {
            make_reply(500, self.trace, no_headers(), error.message().as_str())
        }
    }

    /// Gives the call up: the connection was lost or the dispatcher was
    /// dropped by the pool before the stream ended.
    pub fn discard(self, error: &BackendError) -> (reply: Reply)
        ensures
            reply_view(reply) == reply_on_discard(self@, error@),
    {
        let status: u16 = if error.is_service(CATEGORY_POOL, CODE_UNAVAILABLE) {
            503
        } else {
            500
        };
        make_reply(status, self.trace, no_headers(), error.message().as_str())
    }
}

impl MetaDecode {
    /// The bytes of the first data frame, to be decoded as a response meta.
    pub fn bytes(&self) -> (bytes: &Vec<u8>)
        ensures
            bytes@ == self.frame(),
    {
        &self.bytes
    }

    /// Goes on with what decoding gave. A meta sets the status of the
    /// response, tags it with the trace and appends the backend's headers in
    /// order, duplicates included. A decoding failure ends the call with a 500
    /// response that carries the decoder's message.
    pub fn resume(self, decoded: Result<ResponseMeta, String>) -> (next: Step)
        ensures
            next@ == step_decoded(self.dispatch(), decoded_view(decoded)),
    {
        let MetaDecode { dispatch, bytes: _ } = self;
        let AppReadDispatch { method, trace, response, body: _ } = dispatch;
        match decoded {
            Err(message) => Step::Reply(make_reply(500, trace, no_headers(), message.as_str())),
            Ok(meta) => {
                let ResponseMeta { code, headers: mut extra } = meta;
                let Response { status: _, request_id: _, headers: mut headers, body } = response;
                let ghost before = pairs_view(headers@);
                let ghost added = pairs_view(extra@);
                headers.append(&mut extra);
                assert(pairs_view(headers@) =~= before + added);
                Step::Continue(
                    AppReadDispatch {
                        method,
                        trace,
                        response: Response {
                            status: status_from_code(code),
                            request_id: Some(trace),
                            headers,
                            body,
                        },
                        body: Some(Vec::new()),
                    },
                )
            },
        }
    }
}

impl DispatchView {
    /// What holds of every dispatcher: once it has taken the meta frame, the
    /// response it builds is tagged with the trace of the request.
    pub open spec fn tagged(self) -> bool {
        self.body is Some ==> self.response.request_id == Some(self.trace)
    }
}

/// A frame taken to its end: a first data frame is decoded with `decode` on
/// the spot.
pub open spec fn deliver(
    state: DispatchView,
    frame: FrameView,
    decode: spec_fn(Seq<u8>) -> Result<ResponseMetaView, Seq<char>>,
) -> StepView {
    match step(state, frame) {
        StepView::Decode(waiting, bytes) => step_decoded(waiting, decode(bytes)),
        other => other,
    }
}

/// The replies that one call fires, in order. Frames are delivered until one
/// of them ends the call; what follows it reaches nobody. A call whose frames
/// run out before that is given up with `lost`.
pub open spec fn replies(
    state: DispatchView,
    frames: Seq<FrameView>,
    decode: spec_fn(Seq<u8>) -> Result<ResponseMetaView, Seq<char>>,
    lost: BackendErrorView,
) -> Seq<Option<(ResponseView, u64)>>
    decreases frames.len(),
{
    if frames.len() == 0 {
        seq![reply_on_discard(state, lost)]
    } else {
        match deliver(state, frames[0], decode) {
            StepView::Continue(next) => replies(next, frames.drop_first(), decode, lost),
            StepView::Decode(_, _) => Seq::empty(),
            StepView::Reply(reply) => seq![reply],
        }
    }
}

/// A fresh dispatcher is tagged, and every step keeps a tagged dispatcher
/// tagged. No step changes the trace or the method that the dispatcher was
/// made for, and a frame taken to its end never asks for decoding again.
pub proof fn steps_keep_tag(
    state: DispatchView,
    frame: FrameView,
    decode: spec_fn(Seq<u8>) -> Result<ResponseMetaView, Seq<char>>,
)
    ensures
        fresh_dispatch(state.head, state.trace).tagged(),
        deliver(state, frame, decode) matches StepView::Continue(next) ==> next.trace
            == state.trace && next.head == state.head && (state.tagged() ==> next.tagged()),
        !(deliver(state, frame, decode) is Decode),
{
}

/// Every response that a call answers with carries the trace of the request as
/// its request id, however the call ends.
pub proof fn replies_carry_trace(
    state: DispatchView,
    frames: Seq<FrameView>,
    decode: spec_fn(Seq<u8>) -> Result<ResponseMetaView, Seq<char>>,
    lost: BackendErrorView,
)
    requires
        state.tagged(),
    ensures
        forall|i: int|
            0 <= i < replies(state, frames, decode, lost).len() ==> (#[trigger] replies(
                state,
                frames,
                decode,
                lost,
            )[i] matches Some((response, _)) ==> response.request_id == Some(state.trace)),
    decreases frames.len(),
{
    if frames.len() != 0 {
        steps_keep_tag(state, frames[0], decode);
        match deliver(state, frames[0], decode) {
            StepView::Continue(next) => {
                replies_carry_trace(next, frames.drop_first(), decode, lost);
            },
            _ => {},
        }
    }
}

/// A call fires its reply exactly once: never twice, and never not at all,
/// whatever frames arrive and whether or not the stream ends.
pub proof fn reply_fires_once(
    state: DispatchView,
    frames: Seq<FrameView>,
    decode: spec_fn(Seq<u8>) -> Result<ResponseMetaView, Seq<char>>,
    lost: BackendErrorView,
)
    ensures
        replies(state, frames, decode, lost).len() == 1,
    decreases frames.len(),
{
    if frames.len() != 0 {
        steps_keep_tag(state, frames[0], decode);
        match deliver(state, frames[0], decode) {
            StepView::Continue(next) => {
                reply_fires_once(next, frames.drop_first(), decode, lost);
            },
            _ => {},
        }
    }
}

/// Once the meta frame has been taken, the response to a HEAD request and
/// every response with status 204 or 304 goes out without a body, and the size
/// reported for it is zero, however much was buffered.
pub proof fn bodiless_responses_report_zero(state: DispatchView)
    requires
        state.body is Some,
        state.head || state.response.status == 204 || state.response.status == 304,
    ensures
        reply_on_close(state) matches Some((response, size)) && size == 0 && response.body.len()
            == 0 && response.status == state.response.status,
{
}

/// The size reported for a response is the length of the body it is sent
/// with.
pub proof fn reported_size_is_body_length(state: DispatchView)
    requires
        state.body matches Some(buffered) && buffered.len() <= u64::MAX,
    ensures
        reply_on_close(state) matches Some((response, size)) && size == response.body.len(),
{
}

} // verus!
