//! Routing of HTTP requests to backend applications.
//!
//! A request names its application and event either with the two routing
//! headers or with the first two segments of its path. What is left of the
//! path travels on to the application as the request URI.

use vstd::prelude::*;
use vstd::string::*;
use crate::error::{Error, ErrorView};
use crate::message::{
    bytes_of, fields_view, find_header, header_value, join_lines, joined, names_match, pairs_view,
    same_name, text_bytes, version_text, HeaderField, HeaderFieldView, Method, Request,
    RequestMeta, RequestMetaView, Response, ResponseView,
};
use crate::wire::{headers_view, random_u64, BackendHeader, BackendHeaderView};

verus! {

/// Name of the header that selects the application.
pub open spec fn service_header() -> Seq<char> {
    "X-Cocaine-Service"@
}

/// Name of the header that selects the event.
pub open spec fn event_header() -> Seq<char> {
    "X-Cocaine-Event"@
}

/// Name of the header that carries the trace unless another is configured.
pub open spec fn default_tracing_header() -> Seq<char> {
    "X-Request-Id"@
}

/// Whether a path segment ends at `c`. The application name ends at a slash,
/// the event name at a slash or at the start of the query.
pub open spec fn ends_segment(c: char, query: bool) -> bool {
    c == '/' || (query && c == '?')
}

/// Index of the first character at or after `from` that ends a segment, or
/// the length of `text` if there is none.
pub open spec fn segment_end(text: Seq<char>, from: int, query: bool) -> int
    decreases text.len() - from,
{
    if from >= text.len() {
        text.len() as int
    } else if ends_segment(text[from], query) {
        from
    } else {
        segment_end(text, from + 1, query)
    }
}

/// Splits a path of the form `/application/event` followed by anything on one
/// line into application, event and the rest. The application is what stands
/// between the leading slash and the next one; the event runs up to the next
/// slash or question mark. A path that does not start with a slash, has no
/// second slash, or whose rest holds a line feed does not match.
pub open spec fn split_path(uri: Seq<char>) -> Option<(Seq<char>, Seq<char>, Seq<char>)> {
    if uri.len() == 0 || uri[0] != '/' {
        None
    } else {
        let slash = segment_end(uri, 1, false);
        if slash >= uri.len() {
            None
        } else {
            let end = segment_end(uri, slash + 1, true);
            let rest = uri.subrange(end, uri.len() as int);
            if rest.contains('\n') {
                None
            } else {
                Some((uri.subrange(1, slash), uri.subrange(slash + 1, end), rest))
            }
        }
    }
}

/// The rest of a path as the application receives it: with a slash in front
/// unless it has one.
pub open spec fn normalized(rest: Seq<char>) -> Seq<char> {
    if rest.len() > 0 && rest[0] == '/' {
        rest
    } else {
        "/"@ + rest
    }
}

/// Where a request goes: application, event and the URI handed on.
pub type Target = (Seq<char>, Seq<char>, Seq<char>);

/// The routing decision for a request with the given headers and URI.
///
/// Both routing headers: they name the target and the URI is handed on as it
/// is. One of them: the request is refused. None: the path decides, and a path
/// that does not match leaves the request to other routes (`None`).
pub open spec fn route_of(fields: Seq<HeaderFieldView>, uri: Seq<char>) -> Option<
    Result<Target, ErrorView>,
> {
    match (header_value(fields, service_header()), header_value(fields, event_header())) {
        (Some(service), Some(event)) => Some(Ok((service, event, uri))),
        (Some(_), None) => Some(Err(ErrorView::IncompleteHeadersMatch)),
        (None, Some(_)) => Some(Err(ErrorView::IncompleteHeadersMatch)),
        (None, None) => match split_path(uri) {
            Some((service, event, rest)) => Some(Ok((service, event, normalized(rest)))),
            None => None,
        },
    }
}

/// Mathematical value of a routing decision.
pub open spec fn params_view(params: Option<Result<(String, String, String), Error>>) -> Option<
    Result<Target, ErrorView>,
> {
    match params {
        None => None,
        Some(Err(error)) => Some(Err(error@)),
        Some(Ok((service, event, uri))) => Some(Ok((service@, event@, uri@))),
    }
}

/// [`segment_end`] gives an index at or behind `from`, the character there
/// ends the segment, and none before it does.
pub proof fn segment_end_bounds(text: Seq<char>, from: int, query: bool)
    requires
        0 <= from <= text.len(),
    ensures
        from <= segment_end(text, from, query) <= text.len(),
        segment_end(text, from, query) < text.len() ==> ends_segment(
            text[segment_end(text, from, query)],
            query,
        ),
        forall|i: int|
            from <= i < segment_end(text, from, query) ==> !ends_segment(#[trigger] text[i], query),
    decreases text.len() - from,
{
    if from < text.len() && !ends_segment(text[from], query) {
        segment_end_bounds(text, from + 1, query);
    }
}

/// The first index at which a segment can end is the one that
/// [`segment_end`] gives.
pub proof fn segment_end_is(text: Seq<char>, from: int, query: bool, end: int)
    requires
        0 <= from <= end <= text.len(),
        end < text.len() ==> ends_segment(text[end], query),
        forall|i: int| from <= i < end ==> !ends_segment(#[trigger] text[i], query),
    ensures
        segment_end(text, from, query) == end,
    decreases end - from,
{
    if from < end {
        assert(!ends_segment(text[from], query));
        segment_end_is(text, from + 1, query, end);
    }
}

/// A path that matches is made of its parts and of nothing else: a slash, the
/// application, a slash, the event, the rest. The application holds no slash,
/// the event neither slash nor question mark, and the rest starts where the
/// event ends. The URI handed on is that rest in full behind a leading slash,
/// which is added only where the rest has none.
pub proof fn path_parts_rebuild_uri(uri: Seq<char>)
    requires
        split_path(uri) is Some,
    ensures
        ({
            let (service, event, rest) = split_path(uri)->0;
            &&& uri == seq!['/'] + service + seq!['/'] + event + rest
            &&& !service.contains('/')
            &&& !event.contains('/') && !event.contains('?')
            &&& rest.len() > 0 ==> rest[0] == '/' || rest[0] == '?'
            &&& !rest.contains('\n')
            &&& normalized(rest).len() > 0 && normalized(rest)[0] == '/'
            &&& normalized(rest) == rest || normalized(rest) == seq!['/'] + rest
            &&& normalized(rest).subrange(
                normalized(rest).len() - rest.len(),
                normalized(rest).len() as int,
            ) == rest
        }),
{
    reveal_strlit("/");
    let slash = segment_end(uri, 1, false);
    segment_end_bounds(uri, 1, false);
    let end = segment_end(uri, slash + 1, true);
    segment_end_bounds(uri, slash + 1, true);
    let (service, event, rest) = split_path(uri)->0;
    assert(uri =~= seq!['/'] + service + seq!['/'] + event + rest);
    assert("/"@ =~= seq!['/']);
    if service.contains('/') {
        let i = choose|i: int| 0 <= i < service.len() && service[i] == '/';
        assert(ends_segment(uri[i + 1], false));
    }
    if event.contains('/') {
        let i = choose|i: int| 0 <= i < event.len() && event[i] == '/';
        assert(ends_segment(uri[slash + 1 + i], true));
    }
    if event.contains('?') {
        let i = choose|i: int| 0 <= i < event.len() && event[i] == '?';
        assert(ends_segment(uri[slash + 1 + i], true));
    }
    if rest.len() > 0 {
        assert(rest[0] == uri[end]);
    }
    assert(normalized(rest).subrange(
        normalized(rest).len() - rest.len(),
        normalized(rest).len() as int,
    ) =~= rest);
}

/// The characters of `text`, one by one.
fn chars_of(text: &str) -> (chars: Vec<char>)
    ensures
        chars@ == text@,
{
    let mut chars: Vec<char> = Vec::new();
    for c in it: text.chars()
        invariant
            chars@ == it.seq().take(it.index()),
            it.seq() == text@,
    {
        chars.push(c);
    }
    chars
}

/// Finds where the segment that starts at `from` ends.
fn find_segment_end(chars: &Vec<char>, from: usize, query: bool) -> (end: usize)
    requires
        from <= chars.len(),
    ensures
        end == segment_end(chars@, from as int, query),
        from <= end <= chars.len(),
{
    let mut i: usize = from;
    while i < chars.len() && !(chars[i] == '/' || (query && chars[i] == '?'))
        invariant
            from <= i <= chars.len(),
            forall|j: int| from <= j < i ==> !ends_segment(#[trigger] chars@[j], query),
        decreases chars.len() - i,
    {
        i += 1;
    }
    proof {
        segment_end_is(chars@, from as int, query, i as int);
    }
    i
}

/// Whether a line feed occurs at or after `from`.
fn has_line_feed(chars: &Vec<char>, from: usize) -> (found: bool)
    requires
        from <= chars.len(),
    ensures
        found == chars@.subrange(from as int, chars.len() as int).contains('\n'),
{
    let ghost rest = chars@.subrange(from as int, chars.len() as int);
    let mut i: usize = from;
    while i < chars.len()
        invariant
            from <= i <= chars.len(),
            rest == chars@.subrange(from as int, chars.len() as int),
            forall|j: int| from <= j < i ==> chars@[j] != '\n',
        decreases chars.len() - i,
    {
        if chars[i] == '\n' {
            assert(rest[i - from] == '\n');
            return true;
        }
        i += 1;
    }
    assert forall|k: int| 0 <= k < rest.len() implies rest[k] != '\n' by {
        assert(rest[k] == chars@[from + k]);
    }
    false
}

/// Splits the path of a request into application, event and the rest.
pub fn split_uri(uri: &str) -> (parts: Option<(String, String, String)>)
    ensures
        parts is Some == split_path(uri@) is Some,
        parts matches Some((service, event, rest)) ==> (service@, event@, rest@) == split_path(
            uri@,
        )->0,
{
    let chars = chars_of(uri);
    let len = chars.len();
    if len == 0 || chars[0] != '/' {
        return None;
    }
    let slash = find_segment_end(&chars, 1, false);
    if slash >= len {
        return None;
    }
    let end = find_segment_end(&chars, slash + 1, true);
    if has_line_feed(&chars, end) {
        return None;
    }
    let service = uri.substring_char(1, slash).to_owned();
    let event = uri.substring_char(slash + 1, end).to_owned();
    let rest = uri.substring_char(end, len).to_owned();
    Some((service, event, rest))
}

/// Puts a slash in front of the rest of a path unless it has one.
pub fn normalize(rest: String) -> (uri: String)
    ensures
        uri@ == normalized(rest@),
{
    if !rest.as_str().is_empty() && rest.as_str().get_char(0) == '/' {
        rest
    } else {
        "/".to_owned().concat(rest.as_str())
    }
}

/// A request on its way to an application: where it goes, its trace, and the
/// meta frame that will be sent.
#[derive(Clone, Debug, PartialEq, Eq)]
pub struct AppRequest {
    pub service: String,
    pub event: String,
    pub trace: u64,
    pub frame: RequestMeta,
}

/// Mathematical value of an [`AppRequest`].
pub struct AppRequestView {
    pub service: Seq<char>,
    pub event: Seq<char>,
    pub trace: u64,
    pub frame: RequestMetaView,
}

impl View for AppRequest {
    type V = AppRequestView;

    open spec fn view(&self) -> AppRequestView {
        AppRequestView {
            service: self.service@,
            event: self.event@,
            trace: self.trace,
            frame: self.frame@,
        }
    }
}

/// The headers of a request as they stand in the meta frame: one pair for
/// each header, its lines joined into one value.
pub open spec fn meta_headers(fields: Seq<HeaderFieldView>) -> Seq<(Seq<char>, Seq<char>)> {
    fields.map_values(|f: HeaderFieldView| (f.name, joined(f.lines)))
}

/// A copy of `method`.
pub fn copy_method(method: &Method) -> (copy: Method)
    ensures
        copy == *method,
{
    match method {
        Method::Options => Method::Options,
        Method::Get => Method::Get,
        Method::Post => Method::Post,
        Method::Put => Method::Put,
        Method::Delete => Method::Delete,
        Method::Head => Method::Head,
        Method::Trace => Method::Trace,
        Method::Connect => Method::Connect,
        Method::Patch => Method::Patch,
        Method::Extension(name) => Method::Extension(name.clone()),
    }
}

impl AppRequest {
    /// The request to `service` for `event` under `trace` that stands for the
    /// HTTP request `req`, with `uri` as the URI handed on. The body is empty
    /// until it is set.
    pub fn new(service: String, event: String, trace: u64, req: &Request, uri: String) -> (request:
        AppRequest)
        ensures
            request@ == (AppRequestView {
                service: service@,
                event: event@,
                trace,
                frame: RequestMetaView {
                    method: req.method,
                    uri: uri@,
                    version: version_text(req.version),
                    headers: meta_headers(fields_view(req.headers@)),
                    body: Seq::empty(),
                },
            }),
    {
        let mut headers: Vec<(String, String)> = Vec::new();
        let mut i: usize = 0;
        while i < req.headers.len()
            invariant
                0 <= i <= req.headers.len(),
                pairs_view(headers@) =~= meta_headers(fields_view(req.headers@)).take(i as int),
            decreases req.headers.len() - i,
        {
            let field = &req.headers[i];
            let value = join_lines(&field.lines);
            let ghost before = pairs_view(headers@);
            let ghost all = meta_headers(fields_view(req.headers@));
            let name = field.name.clone();
            headers.push((name, value));
            proof {
                assert(fields_view(req.headers@)[i as int] == req.headers@[i as int]@);
                assert(all[i as int] == (name@, value@));
                assert(pairs_view(headers@) =~= before.push((name@, value@)));
                assert(all.take(i + 1) =~= all.take(i as int).push(all[i as int]));
            }
            i += 1;
        }
        assert(pairs_view(headers@) =~= meta_headers(fields_view(req.headers@)));
        let frame = RequestMeta {
            method: copy_method(&req.method),
            uri,
            version: req.version,
            headers,
            body: Vec::new(),
        };
        AppRequest { service, event, trace, frame }
    }

    /// Puts the body of the request in place.
    pub fn set_body(&mut self, body: Vec<u8>)
        ensures
            final(self)@ == (AppRequestView {
                frame: RequestMetaView { body: body@, ..old(self)@.frame },
                ..old(self)@
            }),
    {
        self.frame.body = body;
    }
}

/// The backend headers that a header mapping makes of the headers of a
/// request. Each entry of the mapping, in order, whose HTTP header the request
/// carries gives one header under the mapped name; its value is the bytes of
/// all lines of the HTTP header, joined in order. Headers that the mapping
/// does not name are dropped.
pub open spec fn mapped_headers(
    mapping: Seq<(Seq<char>, Seq<char>)>,
    fields: Seq<HeaderFieldView>,
) -> Seq<BackendHeaderView>
    decreases mapping.len(),
{
    if mapping.len() == 0 {
        Seq::empty()
    } else {
        let before = mapped_headers(mapping.drop_last(), fields);
        match header_value(fields, mapping.last().0) {
            Some(value) => before.push(
                BackendHeaderView::Raw { name: mapping.last().1, value: text_bytes(value) },
            ),
            None => before,
        }
    }
}

/// What the tracing header of a request held.
#[derive(Clone, Copy, Debug, PartialEq, Eq, Structural)]
pub enum TraceHeader {
    /// The request has no tracing header.
    Absent,
    /// The header is there and does not hold a trace.
    Invalid,
    /// The header holds this trace.
    Valid(u64),
}

/// The trace of a request: the one its tracing header holds, or `fresh` if
/// it has no such header. A header that holds no trace is an error that names
/// the header.
pub open spec fn trace_of(header: TraceHeader, name: Seq<char>, fresh: u64) -> Result<
    u64,
    ErrorView,
> {
    match header {
        TraceHeader::Absent => Ok(fresh),
        TraceHeader::Invalid => Err(ErrorView::InvalidRequestIdHeader(name)),
        TraceHeader::Valid(trace) => Ok(trace),
    }
}

/// Mathematical value of a trace or the error in its place.
pub open spec fn trace_view(trace: Result<u64, Error>) -> Result<u64, ErrorView> {
    match trace {
        Ok(trace) => Ok(trace),
        Err(error) => Err(error@),
    }
}

/// Who decides whether a request is traced verbosely.
#[derive(Clone, Debug, PartialEq, Eq)]
pub enum TracingPolicy {
    /// The backend decides.
    Auto,
    /// The gateway samples each attempt itself; holds the probability as the
    /// request wrote it.
    Manual(String),
}

/// Mathematical value of a [`TracingPolicy`].
pub enum TracingPolicyView {
    Auto,
    Manual(Seq<char>),
}

impl View for TracingPolicy {
    type V = TracingPolicyView;

    open spec fn view(&self) -> TracingPolicyView {
        match self {
            TracingPolicy::Auto => TracingPolicyView::Auto,
            TracingPolicy::Manual(probability) => TracingPolicyView::Manual(probability@),
        }
    }
}

/// What a tracing policy header starts with where it asks for manual
/// sampling.
pub open spec fn manual_prefix() -> Seq<char> {
    "manual:"@
}

/// The tracing policy that a request asks for with its policy header:
/// `manual:` followed by a probability asks for manual sampling, everything
/// else, no header at all included, leaves the decision to the backend.
pub open spec fn policy_of(value: Option<Seq<char>>) -> TracingPolicyView {
    match value {
        Some(text) => if manual_prefix().is_prefix_of(text) {
            TracingPolicyView::Manual(text.subrange(manual_prefix().len() as int, text.len() as int))
        } else {
            TracingPolicyView::Auto
        },
        None => TracingPolicyView::Auto,
    }
}

/// Whether `chars` starts with `prefix`.
fn starts_with(chars: &Vec<char>, prefix: &Vec<char>) -> (yes: bool)
    ensures
        yes == prefix@.is_prefix_of(chars@),
{
    if prefix.len() > chars.len() {
        return false;
    }
    let mut i: usize = 0;
    while i < prefix.len()
        invariant
            0 <= i <= prefix.len() <= chars.len(),
            forall|j: int| 0 <= j < i ==> chars@[j] == prefix@[j],
        decreases prefix.len() - i,
    {
        if chars[i] != prefix[i] {
            assert(chars@.subrange(0, prefix.len() as int)[i as int] != prefix@[i as int]);
            return false;
        }
        i += 1;
    }
    assert(chars@.subrange(0, prefix.len() as int) =~= prefix@);
    true
}

/// Reads the tracing policy header of a request, given its value if the
/// request has one.
pub fn tracing_policy(value: Option<&str>) -> (policy: TracingPolicy)
    ensures
        policy@ == policy_of(
            match value {
                Some(text) => Some(text@),
                None => None,
            },
        ),
{
    match value {
        None => TracingPolicy::Auto,
        Some(text) => {
            let chars = chars_of(text);
            let prefix = chars_of("manual:");
            if starts_with(&chars, &prefix) {
                TracingPolicy::Manual(text.substring_char(prefix.len(), chars.len()).to_owned())
            } else {
                TracingPolicy::Auto
            }
        },
    }
}

/// A request that has been routed and is ready for its first attempt, but for
/// its body.
#[derive(Clone, Debug, PartialEq, Eq)]
pub struct Invocation {
    /// The request as the backend will get it.
    pub request: AppRequest,
    /// The HTTP headers that the mapping forwards.
    pub headers: Vec<BackendHeader>,
}

/// Route to the applications behind the gateway.
pub struct AppRoute {
    headers: Vec<(String, String)>,
    tracing_header: String,
}

/// Mathematical value of an [`AppRoute`].
pub struct AppRouteView {
    /// The header mapping, as pairs of HTTP header name and backend header
    /// name.
    pub headers: Seq<(Seq<char>, Seq<char>)>,
    /// Name of the header that carries the trace.
    pub tracing_header: Seq<char>,
}

impl View for AppRoute {
    type V = AppRouteView;

    closed spec fn view(&self) -> AppRouteView {
        AppRouteView { headers: pairs_view(self.headers@), tracing_header: self.tracing_header@ }
    }
}

/// Outcome of offering a request to a route.
pub enum Match {
    /// The route took the request: the result is what to invoke, or the error
    /// to answer with.
    Taken(Result<Invocation, Error>),
    /// The route does not apply; the request goes back to the router.
    Passed(Request),
}

/// The request that is sent to the backend for the HTTP request `req`, routed
/// to `target` under `trace`. Its body is still empty.
pub open spec fn app_request(req: Request, target: Target, trace: u64) -> AppRequestView {
    AppRequestView {
        service: target.0,
        event: target.1,
        trace,
        frame: RequestMetaView {
            method: req.method,
            uri: target.2,
            version: version_text(req.version),
            headers: meta_headers(fields_view(req.headers@)),
            body: Seq::empty(),
        },
    }
}

/// Whether `outcome` is what `route` makes of the request `req`, whose
/// tracing header held `header`, with `fresh` at hand for a request without a
/// trace.
///
/// A request that names no target goes back as it came. One that names half a
/// target, or whose tracing header is invalid, is taken and answered with the
/// error. Every other request is taken and invoked at its target.
pub open spec fn routes_to(
    route: AppRouteView,
    req: Request,
    header: TraceHeader,
    fresh: u64,
    outcome: Match,
) -> bool {
    match route_of(fields_view(req.headers@), req.uri@) {
        None => outcome matches Match::Passed(back) && back == req,
        Some(Err(error)) => outcome matches Match::Taken(Err(e)) && e@ == error,
        Some(Ok(target)) => match trace_of(header, route.tracing_header, fresh) {
            Err(error) => outcome matches Match::Taken(Err(e)) && e@ == error,
            Ok(trace) => outcome matches Match::Taken(Ok(invocation)) && invocation.request@
                == app_request(req, target, trace) && headers_view(invocation.headers@)
                == mapped_headers(route.headers, fields_view(req.headers@)),
        },
    }
}

impl AppRoute {
    /// A route with the default tracing header and no header mapping.
    pub fn new() -> (route: AppRoute)
        ensures
            route@ == (AppRouteView {
                headers: Seq::empty(),
                tracing_header: default_tracing_header(),
            }),
    {
        let route = AppRoute { headers: Vec::new(), tracing_header: "X-Request-Id".to_owned() };
        assert(pairs_view(route.headers@) =~= Seq::empty());
        route
    }

    /// The same route, reading the trace from `header`.
    pub fn with_tracing_header(self, header: String) -> (route: AppRoute)
        ensures
            route@ == (AppRouteView { tracing_header: header@, ..self@ }),
    {
        AppRoute { headers: self.headers, tracing_header: header }
    }

    /// The same route with `headers` as its header mapping: pairs of an HTTP
    /// header name and the name it is forwarded under.
    pub fn with_headers_mapping(self, headers: Vec<(String, String)>) -> (route: AppRoute)
        ensures
            route@ == (AppRouteView { headers: pairs_view(headers@), ..self@ }),
    {
        AppRoute { headers, tracing_header: self.tracing_header }
    }

    /// Name of the header that carries the trace.
    pub fn tracing_header(&self) -> (name: &String)
        ensures
            name@ == self@.tracing_header,
    {
        &self.tracing_header
    }

    /// Extracts application, event and URI from a request.
    pub fn extract_parameters(&self, req: &Request) -> (params: Option<
        Result<(String, String, String), Error>,
    >)
        ensures
            params_view(params) == route_of(fields_view(req.headers@), req.uri@),
    {
        let service = find_header(&req.headers, "X-Cocaine-Service");
        let event = find_header(&req.headers, "X-Cocaine-Event");
        match (service, event) {
            (Some(service), Some(event)) => Some(Ok((service, event, req.uri.clone()))),
            (Some(_), None) => Some(Err(Error::IncompleteHeadersMatch)),
            (None, Some(_)) => Some(Err(Error::IncompleteHeadersMatch)),
            (None, None) => match split_uri(req.uri.as_str()) {
                Some((service, event, rest)) => Some(Ok((service, event, normalize(rest)))),
                None => None,
            },
        }
    }

    /// Rewrites the headers of a request into backend headers as the mapping
    /// says.
    pub fn map_headers(&self, headers: &Vec<HeaderField>) -> (mapped: Vec<BackendHeader>)
        ensures
            headers_view(mapped@) == mapped_headers(self@.headers, fields_view(headers@)),
    {
        let mut mapped: Vec<BackendHeader> = Vec::new();
        let mut i: usize = 0;
        assert(pairs_view(self.headers@).take(0) =~= Seq::empty());
        assert(headers_view(mapped@) =~= Seq::empty());
        while i < self.headers.len()
            invariant
                0 <= i <= self.headers.len(),
                headers_view(mapped@) == mapped_headers(
                    pairs_view(self.headers@).take(i as int),
                    fields_view(headers@),
                ),
            decreases self.headers.len() - i,
        {
            proof {
                let all = pairs_view(self.headers@);
                assert(all.take(i + 1).drop_last() =~= all.take(i as int));
                assert(all.take(i + 1).last() == (
                    self.headers@[i as int].0@,
                    self.headers@[i as int].1@,
                ));
            }
            match find_header(headers, self.headers[i].0.as_str()) {
                Some(value) => {
                    let ghost before = headers_view(mapped@);
                    let header = BackendHeader::Raw {
                        name: self.headers[i].1.clone(),
                        value: bytes_of(value.as_str()),
                    };
                    mapped.push(header);
                    assert(headers_view(mapped@) =~= before.push(header@));
                },
                None => {},
            }
            i += 1;
        }
        assert(pairs_view(self.headers@).take(self.headers.len() as int) =~= pairs_view(
            self.headers@,
        ));
        mapped
    }

    /// Settles the trace of a request, given a fresh identifier to use where
    /// the request brings none.
    pub fn trace_for(&self, header: TraceHeader, fresh: u64) -> (trace: Result<u64, Error>)
        ensures
            trace_view(trace) == trace_of(header, self@.tracing_header, fresh),
    {
        match header {
            TraceHeader::Absent => Ok(fresh),
            TraceHeader::Invalid => Err(Error::InvalidRequestIdHeader(self.tracing_header.clone())),
            TraceHeader::Valid(trace) => Ok(trace),
        }
    }

    /// Prepares the invocation of `event` of `service` for the request `req`
    /// whose trace is `trace`: the request as the backend will get it, with
    /// `uri` as its URI, and the headers that the mapping forwards.
    pub fn invoke(&self, service: String, event: String, req: &Request, uri: String, trace: u64) -> (invocation:
        Invocation)
        ensures
            invocation.request@ == (AppRequestView {
                service: service@,
                event: event@,
                trace,
                frame: RequestMetaView {
                    method: req.method,
                    uri: uri@,
                    version: version_text(req.version),
                    headers: meta_headers(fields_view(req.headers@)),
                    body: Seq::empty(),
                },
            }),
            headers_view(invocation.headers@) == mapped_headers(
                self@.headers,
                fields_view(req.headers@),
            ),
    {
        let headers = self.map_headers(&req.headers);
        let request = AppRequest::new(service, event, trace, req, uri);
        Invocation { request, headers }
    }

    /// Offers a request to the route, with `fresh` as the trace to use where
    /// the request brings none.
    pub fn process_with(&self, req: Request, header: TraceHeader, fresh: u64) -> (outcome: Match)
        ensures
            routes_to(self@, req, header, fresh, outcome),
    {
        match self.extract_parameters(&req) {
            None => Match::Passed(req),
            Some(Err(error)) => Match::Taken(Err(error)),
            Some(Ok((service, event, uri))) => match self.trace_for(header, fresh) {
                Err(error) => Match::Taken(Err(error)),
                Ok(trace) => Match::Taken(Ok(self.invoke(service, event, &req, uri, trace))),
            },
        }
    }

    /// Offers a request to the route. A request without a tracing header gets
    /// a random trace.
    pub fn process(&self, req: Request, header: TraceHeader) -> (outcome: Match)
        ensures
            exists|fresh: u64| routes_to(self@, req, header, fresh, outcome),
            !(header is Absent) ==> routes_to(self@, req, header, 0, outcome),
    {
        let fresh = match header {
            TraceHeader::Absent => random_u64(),
            _ => 0,
        };
        let outcome = self.process_with(req, header, fresh);
        assert(routes_to(self@, req, header, fresh, outcome));
        outcome
    }
}

/// Name of the header that names the gateway.
pub open spec fn powered_by_name() -> Seq<char> {
    "X-Powered-By"@
}

/// What the gateway calls itself.
pub open spec fn powered_by_value() -> Seq<char> {
    "Cocaine"@
}

/// Name of the header that names the application that answered.
pub open spec fn app_header_name() -> Seq<char> {
    "X-Cocaine-App"@
}

/// `headers` without those named `name`.
pub open spec fn without(headers: Seq<(Seq<char>, Seq<char>)>, name: Seq<char>) -> Seq<
    (Seq<char>, Seq<char>),
>
    decreases headers.len(),
{
    if headers.len() == 0 {
        Seq::empty()
    } else if same_name(headers.last().0, name) {
        without(headers.drop_last(), name)
    } else {
        without(headers.drop_last(), name).push(headers.last())
    }
}

/// `headers` with the header `name` set to `value`: whatever stood under that
/// name is gone, and the new header stands last.
pub open spec fn with_header(
    headers: Seq<(Seq<char>, Seq<char>)>,
    name: Seq<char>,
    value: Seq<char>,
) -> Seq<(Seq<char>, Seq<char>)> {
    without(headers, name).push((name, value))
}

/// A response as it leaves the route after a successful invocation of
/// `service`: tagged with the name of the gateway and of the application.
pub open spec fn annotated(response: ResponseView, service: Seq<char>) -> ResponseView {
    ResponseView {
        headers: with_header(
            with_header(response.headers, powered_by_name(), powered_by_value()),
            app_header_name(),
            service,
        ),
        ..response
    }
}

/// Sets a header, replacing what stood under its name.
pub fn set_header(headers: Vec<(String, String)>, name: &str, value: String) -> (all: Vec<
    (String, String),
>)
    ensures
        pairs_view(all@) == with_header(pairs_view(headers@), name@, value@),
{
    let mut all: Vec<(String, String)> = Vec::new();
    let mut rest = headers;
    let ghost given = pairs_view(rest@);
    let mut i: usize = 0;
    assert(given.take(0) =~= Seq::empty());
    assert(pairs_view(all@) =~= Seq::empty());
    while i < rest.len()
        invariant
            0 <= i <= rest.len(),
            given == pairs_view(rest@),
            pairs_view(all@) == without(given.take(i as int), name@),
        decreases rest.len() - i,
    {
        proof {
            assert(given.take(i + 1).drop_last() =~= given.take(i as int));
            assert(given.take(i + 1).last() == (rest@[i as int].0@, rest@[i as int].1@));
        }
        if !names_match(rest[i].0.as_str(), name) {
            let ghost before = pairs_view(all@);
            let kept = (rest[i].0.clone(), rest[i].1.clone());
            all.push(kept);
            assert(pairs_view(all@) =~= before.push((rest@[i as int].0@, rest@[i as int].1@)));
        }
        i += 1;
    }
    assert(given.take(rest.len() as int) =~= given);
    let ghost before = pairs_view(all@);
    let name = name.to_owned();
    all.push((name, value));
    assert(pairs_view(all@) =~= before.push((name@, value@)));
    all
}

/// Tags a response with the name of the gateway and of the application that
/// answered.
pub fn annotate(response: Response, service: &str) -> (tagged: Response)
    ensures
        tagged@ == annotated(response@, service@),
{
    let Response { status, request_id, headers, body } = response;
    let headers = set_header(headers, "X-Powered-By", "Cocaine".to_owned());
    let headers = set_header(headers, "X-Cocaine-App", service.to_owned());
    Response { status, request_id, headers, body }
}

/// One line of the access log: what a request was answered with.
#[derive(Clone, Debug, PartialEq, Eq)]
pub struct AccessRecord {
    pub status: u16,
    /// Number of body bytes sent.
    pub bytes_sent: u64,
    /// Text of the failure, for a request that failed.
    pub error: Option<String>,
}

/// Mathematical value of an [`AccessRecord`].
pub struct AccessRecordView {
    pub status: u16,
    pub bytes_sent: u64,
    pub error: Option<Seq<char>>,
}

impl View for AccessRecord {
    type V = AccessRecordView;

    open spec fn view(&self) -> AccessRecordView {
        AccessRecordView {
            status: self.status,
            bytes_sent: self.bytes_sent,
            error: match self.error {
                Some(text) => Some(text@),
                None => None,
            },
        }
    }
}

/// What goes to the access log for the result of an invocation: status and
/// size of the response, or status 500, size zero and the failure.
pub open spec fn access_record(result: Result<(ResponseView, u64), ErrorView>) -> AccessRecordView {
    match result {
        Ok((response, size)) => AccessRecordView {
            status: response.status,
            bytes_sent: size,
            error: None,
        },
        Err(error) => AccessRecordView { status: 500, bytes_sent: 0, error: Some(error.message()) },
    }
}

/// The response that the client gets for the result of an invocation of
/// `service`: the annotated response, or the failure shown as a response.
pub open spec fn final_response(
    result: Result<(ResponseView, u64), ErrorView>,
    service: Seq<char>,
) -> ResponseView {
    match result {
        Ok((response, _)) => annotated(response, service),
        Err(error) => error.response(),
    }
}

/// Mathematical value of the result of an invocation.
pub open spec fn result_view(result: Result<(Response, u64), Error>) -> Result<
    (ResponseView, u64),
    ErrorView,
> {
    match result {
        Ok((response, size)) => Ok((response@, size)),
        Err(error) => Err(error@),
    }
}

/// Ends the handling of a request routed to `service`: gives the response for
/// the client and the line for the access log. A failure never gets past this
/// point; it leaves as a response.
pub fn finish(service: &str, result: Result<(Response, u64), Error>) -> (out: (
    Response,
    AccessRecord,
))
    ensures
        out.0@ == final_response(result_view(result), service@),
        out.1@ == access_record(result_view(result)),
{
    match result {
        Ok((response, size)) => {
            let record = AccessRecord { status: response.status, bytes_sent: size, error: None };
            (annotate(response, service), record)
        },
        Err(error) => {
            let record = AccessRecord { status: 500, bytes_sent: 0, error: Some(error.message()) };
            (error.to_response(), record)
        },
    }
}

} // verus!
