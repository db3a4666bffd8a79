use cocaine_http_proxy::dispatch::{AppReadDispatch, BackendError, Frame, Reply, Step};
use cocaine_http_proxy::error::Error;
use cocaine_http_proxy::message::{HeaderField, HttpVersion, Method, Request, Response, ResponseMeta};
use cocaine_http_proxy::retry::{
    copy_header, copy_headers, AppWithSafeRetry, Outcome, Progress, Settings,
    DEFAULT_RETRY_LIMIT, METHOD_CHUNK, METHOD_CLOSE, METHOD_OPEN,
};
use cocaine_http_proxy::route::{finish, AppRequest, AppRoute, Match, TraceHeader};
use cocaine_http_proxy::wire::BackendHeader;

fn app_request(trace: u64) -> AppRequest {
    let req = Request {
        method: Method::Get,
        uri: "/echo/say/hello?x=1".to_string(),
        version: HttpVersion::Http11,
        headers: vec![HeaderField { name: "Host".to_string(), lines: vec!["h".to_string()] }],
    };
    AppRequest::new("echo".to_string(), "say".to_string(), trace, &req, "/hello?x=1".to_string())
}

fn forwarded() -> Vec<BackendHeader> {
    vec![BackendHeader::Raw { name: "authorization".to_string(), value: b"t".to_vec() }]
}

fn quiet() -> Settings {
    Settings { timeout: None, verbose: false }
}

fn running(progress: Progress) -> AppWithSafeRetry {
    match progress {
        Progress::Running(machine) => machine,
        _ => panic!("the attempt must go on"),
    }
}

fn retried(progress: Progress) -> AppWithSafeRetry {
    match progress {
        Progress::Retry(machine) => machine,
        _ => panic!("another attempt must be made"),
    }
}

fn completed(progress: Progress) -> (Response, u64) {
    match progress {
        Progress::Completed(response, size) => (response, size),
        _ => panic!("the request must be completed"),
    }
}

fn has_trace_bit(headers: &[BackendHeader]) -> bool {
    headers.iter().any(|h| matches!(h, BackendHeader::TraceBit(_)))
}

#[test]
fn constants_of_the_wire() {
    assert_eq!(DEFAULT_RETRY_LIMIT, 3);
    assert_eq!(METHOD_OPEN, 0);
    assert_eq!(METHOD_CHUNK, 0);
    assert_eq!(METHOD_CLOSE, 2);
}

#[test]
fn tracing_headers_follow_the_forwarded_ones() {
    assert_eq!(
        AppWithSafeRetry::make_headers(forwarded(), 7, 9),
        vec![
            BackendHeader::Raw { name: "authorization".to_string(), value: b"t".to_vec() },
            BackendHeader::TraceId(7),
            BackendHeader::SpanId(9),
            BackendHeader::ParentId(7),
        ]
    );
    assert_eq!(
        AppWithSafeRetry::make_headers(Vec::new(), 1, 2),
        vec![BackendHeader::TraceId(1), BackendHeader::SpanId(2), BackendHeader::ParentId(1)]
    );
}

#[test]
fn headers_are_copied() {
    let headers = vec![
        BackendHeader::TraceId(1),
        BackendHeader::SpanId(2),
        BackendHeader::ParentId(3),
        BackendHeader::TraceBit(true),
        BackendHeader::TraceBit(false),
        BackendHeader::Raw { name: "n".to_string(), value: vec![0, 255] },
    ];
    assert_eq!(copy_headers(&headers), headers);
    assert_eq!(copy_headers(&Vec::new()), Vec::new());
    for header in &headers {
        assert_eq!(&copy_header(header), header);
    }
}

#[test]
fn first_call_on_the_wire() {
    let mut machine = AppWithSafeRetry::new(app_request(7), forwarded(), 3);
    assert_eq!(machine.attempts(), 1);
    assert_eq!(machine.request().trace, 7);
    let attempt = machine.make_future_with(None, 1001);
    let call = machine.dispatch(attempt, quiet());
    assert_eq!(call.open, 0);
    assert_eq!(call.event, "say");
    assert_eq!(call.chunk, 0);
    assert_eq!(call.close, 2);
    assert_eq!(call.frame.method, Method::Get);
    assert_eq!(call.frame.uri, "/hello?x=1");
    assert_eq!(call.frame.version, HttpVersion::Http11);
    assert_eq!(call.frame.headers, vec![("Host".to_string(), "h".to_string())]);
    assert!(call.frame.body.is_empty());
    assert_eq!(
        call.headers,
        vec![
            BackendHeader::Raw { name: "authorization".to_string(), value: b"t".to_vec() },
            BackendHeader::TraceId(7),
            BackendHeader::SpanId(1001),
            BackendHeader::ParentId(7),
        ]
    );
}

#[test]
fn timeout_and_trace_bit_come_last() {
    let mut machine = AppWithSafeRetry::new(app_request(7), Vec::new(), 3);
    let attempt = machine.make_future_with(None, 5);
    let call = machine.dispatch(attempt, Settings { timeout: Some(30_000), verbose: true });
    assert_eq!(
        call.headers,
        vec![
            BackendHeader::TraceId(7),
            BackendHeader::SpanId(5),
            BackendHeader::ParentId(7),
            BackendHeader::TraceBit(true),
            BackendHeader::Raw {
                name: "request_timeout".to_string(),
                value: vec![0x30, 0x75, 0, 0, 0, 0, 0, 0],
            },
        ]
    );
}

#[test]
fn safe_retry_eventual_success() {
    let trace = 0x1234;
    let mut machine = AppWithSafeRetry::new(app_request(trace), forwarded(), 3);
    let mut calls = 0;

    // First attempt: the queue is full.
    let attempt = machine.make_future_with(None, 1);
    let first_headers = machine.dispatch(attempt, quiet()).headers;
    calls += 1;
    let dispatch = AppReadDispatch::new(Method::Get, trace);
    let error = BackendError::Service { category: 0x52ff, code: 1, message: "full".to_string() };
    let reply = match dispatch.process(Frame::Error(error)) {
        Step::Reply(reply) => reply,
        _ => panic!("the call must be over"),
    };
    assert_eq!(reply, None);
    let mut machine = retried(machine.poll(Outcome::Ready(reply)));
    assert_eq!(machine.attempts(), 2);

    // Second attempt: 201 with an empty body.
    let attempt = machine.make_future_with(None, 2);
    let second_headers = machine.dispatch(attempt, quiet()).headers;
    calls += 1;
    let dispatch = AppReadDispatch::new(Method::Get, trace);
    let pending = match dispatch.process(Frame::Chunk(vec![0x92])) {
        Step::Decode(pending) => pending,
        _ => panic!("the first data frame must be handed back for decoding"),
    };
    let dispatch = match pending.resume(Ok(ResponseMeta { code: 201, headers: Vec::new() })) {
        Step::Continue(dispatch) => dispatch,
        _ => panic!("a decoded meta must let the call go on"),
    };
    let reply = match dispatch.process(Frame::Close) {
        Step::Reply(reply) => reply,
        _ => panic!("the call must be over"),
    };
    let (response, size) = completed(machine.poll(Outcome::Ready(reply)));

    assert_eq!(calls, 2);
    assert_eq!(response.status, 201);
    assert_eq!(size, 0);
    assert!(response.body.is_empty());
    assert_eq!(response.request_id, Some(trace));
    for headers in [&first_headers, &second_headers] {
        assert!(headers.contains(&BackendHeader::TraceId(trace)));
        assert!(headers.contains(&BackendHeader::ParentId(trace)));
    }
    assert!(first_headers.contains(&BackendHeader::SpanId(1)));
    assert!(second_headers.contains(&BackendHeader::SpanId(2)));
}

#[test]
fn retry_exhaustion() {
    let trace = 0xfeed;
    let mut machine = AppWithSafeRetry::new(app_request(trace), Vec::new(), 3);
    let mut attempts = 0;
    let (response, size) = loop {
        let attempt = machine.make_future(None);
        let call = machine.dispatch(attempt, quiet());
        assert!(call.headers.contains(&BackendHeader::TraceId(trace)));
        attempts += 1;
        assert_eq!(machine.attempts(), attempts);
        match machine.poll(Outcome::Ready(None)) {
            Progress::Retry(next) => machine = next,
            Progress::Completed(response, size) => break (response, size),
            _ => panic!("unexpected progress"),
        }
        assert!(attempts < 10);
    };
    assert_eq!(attempts, 3);
    assert_eq!(response.status, 500);
    assert_eq!(response.body, b"Retry limit exceeded: queue is full".to_vec());
    assert_eq!(size, 35);
    assert_eq!(response.request_id, Some(trace));
    assert!(response.headers.is_empty());
}

#[test]
fn attempts_never_exceed_the_limit() {
    for limit in 1u32..6 {
        let mut machine = AppWithSafeRetry::new(app_request(1), Vec::new(), limit);
        let mut made = 1;
        loop {
            assert!(machine.attempts() <= limit);
            assert_eq!(machine.attempts(), made);
            machine = running(machine.poll(Outcome::NotReady));
            match machine.poll(Outcome::Ready(None)) {
                Progress::Retry(next) => {
                    machine = next;
                    made += 1;
                }
                Progress::Completed(response, _) => {
                    assert_eq!(response.status, 500);
                    break;
                }
                _ => panic!("unexpected progress"),
            }
        }
        assert_eq!(made, limit);
    }
}

#[test]
fn limit_of_zero_still_makes_one_attempt() {
    let machine = AppWithSafeRetry::new(app_request(1), Vec::new(), 0);
    assert_eq!(machine.attempts(), 1);
    let (response, _) = completed(machine.poll(Outcome::Ready(None)));
    assert_eq!(response.status, 500);
}

#[test]
fn not_ready_changes_nothing() {
    let machine = AppWithSafeRetry::new(app_request(4), forwarded(), 2);
    let machine = running(machine.poll(Outcome::NotReady));
    assert_eq!(machine.attempts(), 1);
    assert_eq!(machine.request(), &app_request(4));
    let attempt = machine.make_future_with(None, 3);
    let mut machine = machine;
    let call = machine.dispatch(attempt, quiet());
    assert_eq!(call.headers.len(), 4);
}

#[test]
fn failure_fails_the_request() {
    let machine = AppWithSafeRetry::new(app_request(4), Vec::new(), 3);
    match machine.poll(Outcome::Failed(Error::Canceled)) {
        Progress::Failed(error) => assert_eq!(error, Error::Canceled),
        _ => panic!("the request must fail"),
    }
}

#[test]
fn reply_completes_the_request() {
    let machine = AppWithSafeRetry::new(app_request(4), Vec::new(), 3);
    let response = Response::plain(202, Some(4), "ok");
    let reply: Reply = Some((response.clone(), 2));
    let (out, size) = completed(machine.poll(Outcome::Ready(reply)));
    assert_eq!(out, response);
    assert_eq!(size, 2);
}

#[test]
fn verbose_first_attempt_latches_the_trace_bit() {
    let mut machine = AppWithSafeRetry::new(app_request(1), Vec::new(), 3);
    let attempt = machine.make_future_with(None, 1);
    let call = machine.dispatch(attempt, Settings { timeout: None, verbose: true });
    assert!(call.headers.contains(&BackendHeader::TraceBit(true)));
    for span in [2u64, 3] {
        machine = retried(machine.poll(Outcome::Ready(None)));
        let attempt = machine.make_future_with(None, span);
        // Later attempts see no verbose flag and carry the bit all the same.
        let call = machine.dispatch(attempt, quiet());
        assert!(call.headers.contains(&BackendHeader::TraceBit(true)));
    }
}

#[test]
fn quiet_first_attempt_never_sets_the_trace_bit() {
    let mut machine = AppWithSafeRetry::new(app_request(1), Vec::new(), 3);
    let attempt = machine.make_future_with(None, 1);
    let call = machine.dispatch(attempt, quiet());
    assert!(!has_trace_bit(&call.headers));
    for span in [2u64, 3] {
        machine = retried(machine.poll(Outcome::Ready(None)));
        // Neither the backend nor local sampling can set the latch any more.
        let attempt = machine.make_future_with(Some(true), span);
        let call = machine.dispatch(attempt, Settings { timeout: None, verbose: true });
        assert!(!has_trace_bit(&call.headers));
    }
}

#[test]
fn manual_sampling_on_the_first_attempt_latches() {
    let mut machine = AppWithSafeRetry::new(app_request(1), Vec::new(), 3);
    let attempt = machine.make_future_with(Some(true), 1);
    let call = machine.dispatch(attempt, quiet());
    assert!(call.headers.contains(&BackendHeader::TraceBit(true)));
    machine = retried(machine.poll(Outcome::Ready(None)));
    let attempt = machine.make_future_with(Some(false), 2);
    let call = machine.dispatch(attempt, quiet());
    assert!(call.headers.contains(&BackendHeader::TraceBit(true)));

    // A sample that says no leaves the decision to the backend.
    let mut machine = AppWithSafeRetry::new(app_request(1), Vec::new(), 3);
    let attempt = machine.make_future_with(Some(false), 1);
    let call = machine.dispatch(attempt, quiet());
    assert!(!has_trace_bit(&call.headers));
}

#[test]
fn random_spans_differ() {
    let mut machine = AppWithSafeRetry::new(app_request(1), Vec::new(), 3);
    let mut spans = Vec::new();
    for _ in 0..8 {
        let attempt = machine.make_future(None);
        let call = machine.dispatch(attempt, quiet());
        assert_eq!(call.headers[0], BackendHeader::TraceId(1));
        assert_eq!(call.headers[2], BackendHeader::ParentId(1));
        match call.headers[1] {
            BackendHeader::SpanId(span) => spans.push(span),
            _ => panic!("the span must stand second"),
        }
    }
    spans.sort();
    spans.dedup();
    assert!(spans.len() > 1);
}

#[test]
fn happy_path() {
    let route = AppRoute::new();
    let req = Request {
        method: Method::Get,
        uri: "/echo/say/hello?x=1".to_string(),
        version: HttpVersion::Http11,
        headers: vec![HeaderField { name: "Host".to_string(), lines: vec!["gw".to_string()] }],
    };
    let invocation = match route.process(req, TraceHeader::Valid(0x42)) {
        Match::Taken(Ok(invocation)) => invocation,
        _ => panic!("the request must be taken"),
    };
    let mut machine = AppWithSafeRetry::begin(invocation, Vec::new());
    let attempt = machine.make_future(None);
    let call = machine.dispatch(attempt, quiet());
    assert_eq!(call.open, 0);
    assert_eq!(call.event, "say");
    assert_eq!(call.frame.method, Method::Get);
    assert_eq!(call.frame.uri, "/hello?x=1");
    assert_eq!(call.frame.version, HttpVersion::Http11);
    assert_eq!(call.frame.headers, vec![("Host".to_string(), "gw".to_string())]);
    assert_eq!(call.frame.body, b"".to_vec());
    assert_eq!(call.close, 2);
    assert!(call.headers.contains(&BackendHeader::TraceId(0x42)));
    assert!(call.headers.contains(&BackendHeader::ParentId(0x42)));

    let dispatch = call.reader;
    let pending = match dispatch.process(Frame::Chunk(vec![0x92, 0xcc, 0xc8, 0x90])) {
        Step::Decode(pending) => pending,
        _ => panic!("the first data frame must be handed back for decoding"),
    };
    let meta = ResponseMeta {
        code: 200,
        headers: vec![("content-type".to_string(), "text/plain".to_string())],
    };
    let dispatch = match pending.resume(Ok(meta)) {
        Step::Continue(dispatch) => dispatch,
        _ => panic!("a decoded meta must let the call go on"),
    };
    let dispatch = match dispatch.process(Frame::Chunk(b"hi".to_vec())) {
        Step::Continue(dispatch) => dispatch,
        _ => panic!("a body chunk must let the call go on"),
    };
    let reply = match dispatch.process(Frame::Close) {
        Step::Reply(reply) => reply,
        _ => panic!("the call must be over"),
    };
    let (response, size) = completed(machine.poll(Outcome::Ready(reply)));
    let (response, record) = finish("echo", Ok((response, size)));

    assert_eq!(response.status, 200);
    assert_eq!(response.body, b"hi".to_vec());
    assert_eq!(response.request_id, Some(0x42));
    assert!(response.headers.contains(&("content-type".to_string(), "text/plain".to_string())));
    assert!(response.headers.contains(&("X-Powered-By".to_string(), "Cocaine".to_string())));
    assert!(response.headers.contains(&("X-Cocaine-App".to_string(), "echo".to_string())));
    assert_eq!(record.status, 200);
    assert_eq!(record.bytes_sent, 2);
    assert_eq!(record.error, None);
}

#[test]
fn begin_puts_the_body_in_place() {
    let route = AppRoute::new()
        .with_headers_mapping(vec![("Host".to_string(), "host".to_string())]);
    let req = Request {
        method: Method::Post,
        uri: "/s/e".to_string(),
        version: HttpVersion::Http10,
        headers: vec![HeaderField { name: "host".to_string(), lines: vec!["gw".to_string()] }],
    };
    let invocation = route.invoke("s".to_string(), "e".to_string(), &req, "/".to_string(), 6);
    let mut machine = AppWithSafeRetry::begin(invocation, b"body".to_vec());
    assert_eq!(machine.attempts(), 1);
    assert_eq!(machine.request().frame.body, b"body".to_vec());
    assert_eq!(machine.request().frame.uri, "/");
    assert_eq!(machine.request().trace, 6);
    let attempt = machine.make_future_with(None, 8);
    let call = machine.dispatch(attempt, quiet());
    assert_eq!(
        call.headers,
        vec![
            BackendHeader::Raw { name: "host".to_string(), value: b"gw".to_vec() },
            BackendHeader::TraceId(6),
            BackendHeader::SpanId(8),
            BackendHeader::ParentId(6),
        ]
    );
    // Three attempts are allowed.
    let machine = retried(machine.poll(Outcome::Ready(None)));
    let machine = retried(machine.poll(Outcome::Ready(None)));
    assert_eq!(machine.attempts(), 3);
    let (response, _) = completed(machine.poll(Outcome::Ready(None)));
    assert_eq!(response.status, 500);
}

#[test]
fn reader_of_a_head_request_drops_the_body() {
    let req = Request {
        method: Method::Head,
        uri: "/s/e".to_string(),
        version: HttpVersion::Http11,
        headers: Vec::new(),
    };
    let request = AppRequest::new("s".to_string(), "e".to_string(), 77, &req, "/".to_string());
    let mut machine = AppWithSafeRetry::new(request, Vec::new(), 3);
    let attempt = machine.make_future(None);
    let reader = machine.dispatch(attempt, quiet()).reader;
    let pending = match reader.process(Frame::Chunk(vec![0x92])) {
        Step::Decode(pending) => pending,
        _ => panic!("the first data frame must be handed back for decoding"),
    };
    let reader = match pending.resume(Ok(ResponseMeta { code: 200, headers: Vec::new() })) {
        Step::Continue(reader) => reader,
        _ => panic!("a decoded meta must let the call go on"),
    };
    let reader = match reader.process(Frame::Chunk(b"body".to_vec())) {
        Step::Continue(reader) => reader,
        _ => panic!("a body chunk must let the call go on"),
    };
    match reader.process(Frame::Close) {
        Step::Reply(Some((response, size))) => {
            assert_eq!(response.request_id, Some(77));
            assert!(response.body.is_empty());
            assert_eq!(size, 0);
        }
        _ => panic!("the call must be over"),
    }
}
