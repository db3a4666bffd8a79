//! The HTTP side of the gateway as plain data.

use vstd::prelude::*;
use vstd::string::*;
use vstd::utf8::encode_utf8;

verus! {

/// The bytes that a piece of text occupies on the wire (its UTF-8 encoding).
pub open spec fn text_bytes(text: Seq<char>) -> Seq<u8> {
    encode_utf8(text)
}

/// Copies the bytes of `text` into a fresh buffer.
pub fn bytes_of(text: &str) -> (bytes: Vec<u8>)
    ensures
        bytes@ == text_bytes(text@),
{
    text.as_bytes_vec()
}

/// Request method.
#[derive(Clone, Debug, PartialEq, Eq)]
pub enum Method {
    Options,
    Get,
    Post,
    Put,
    Delete,
    Head,
    Trace,
    Connect,
    Patch,
    /// Any method outside the standard set, by its name.
    Extension(String),
}

impl Method {
    /// Name of the method as it is sent to the backend.
    pub open spec fn name(&self) -> Seq<char> {
        match self {
            Method::Options => "OPTIONS"@,
            Method::Get => "GET"@,
            Method::Post => "POST"@,
            Method::Put => "PUT"@,
            Method::Delete => "DELETE"@,
            Method::Head => "HEAD"@,
            Method::Trace => "TRACE"@,
            Method::Connect => "CONNECT"@,
            Method::Patch => "PATCH"@,
            Method::Extension(name) => name@,
        }
    }

    /// Whether the method forbids a response body.
    pub fn is_head(&self) -> (head: bool)
        ensures
            head == (self is Head),
    {
        match self {
            Method::Head => true,
            _ => false,
        }
    }
}

/// Renders the method for the meta frame: the upper-case name of a standard
/// method, or the name of an extension method as given.
pub fn serialize_method(method: &Method) -> (text: String)
    ensures
        text@ == method.name(),
{
    match method {
        Method::Options => "OPTIONS".to_owned(),
        Method::Get => "GET".to_owned(),
        Method::Post => "POST".to_owned(),
        Method::Put => "PUT".to_owned(),
        Method::Delete => "DELETE".to_owned(),
        Method::Head => "HEAD".to_owned(),
        Method::Trace => "TRACE".to_owned(),
        Method::Connect => "CONNECT".to_owned(),
        Method::Patch => "PATCH".to_owned(),
        Method::Extension(name) => name.clone(),
    }
}

/// Version of the HTTP protocol a request was made with.
#[derive(Clone, Copy, Debug, PartialEq, Eq, Structural)]
pub enum HttpVersion {
    Http09,
    Http10,
    Http11,
    H2,
    H2c,
}

/// The text that stands for `version` in a request meta frame.
pub open spec fn version_text(version: HttpVersion) -> Seq<char> {
    if version == HttpVersion::Http11 {
        "1.1"@
    } else {
        "1.0"@
    }
}

/// Renders the protocol version for the meta frame: `"1.1"` for HTTP/1.1 and
/// `"1.0"` for everything else.
pub fn serialize_version(version: &HttpVersion) -> (text: &'static str)
    ensures
        text@ == version_text(*version),
{
    match version {
        HttpVersion::Http11 => "1.1",
        _ => "1.0",
    }
}

/// The two versions that the backend tells apart are written `"1.0"` and
/// `"1.1"`, and the two texts differ: the version can be read back from its
/// text.
pub proof fn version_texts_differ()
    ensures
        version_text(HttpVersion::Http10) == "1.0"@,
        version_text(HttpVersion::Http11) == "1.1"@,
        version_text(HttpVersion::Http10) != version_text(HttpVersion::Http11),
        forall|version: HttpVersion|
            #[trigger] version_text(version) == version_text(HttpVersion::Http11) <==> version
                == HttpVersion::Http11,
{
    reveal_strlit("1.0");
    reveal_strlit("1.1");
    assert("1.0"@[2] != "1.1"@[2]);
}

/// One header of an HTTP request: its name and the raw lines received under
/// that name, in arrival order.
#[derive(Clone, Debug, PartialEq, Eq)]
pub struct HeaderField {
    pub name: String,
    pub lines: Vec<String>,
}

/// Mathematical value of a [`HeaderField`].
pub struct HeaderFieldView {
    pub name: Seq<char>,
    pub lines: Seq<Seq<char>>,
}

/// Values of a list of strings, in order.
pub open spec fn strings_view(strings: Seq<String>) -> Seq<Seq<char>> {
    strings.map_values(|s: String| s@)
}

/// Values of a list of name/value pairs, in order.
pub open spec fn pairs_view(pairs: Seq<(String, String)>) -> Seq<(Seq<char>, Seq<char>)> {
    pairs.map_values(|p: (String, String)| (p.0@, p.1@))
}

impl View for HeaderField {
    type V = HeaderFieldView;

    open spec fn view(&self) -> HeaderFieldView {
        HeaderFieldView { name: self.name@, lines: strings_view(self.lines@) }
    }
}

/// Values of a list of header fields, in order.
pub open spec fn fields_view(fields: Seq<HeaderField>) -> Seq<HeaderFieldView> {
    fields.map_values(|f: HeaderField| f@)
}

/// All of `lines` joined end to end, nothing in between.
pub open spec fn joined(lines: Seq<Seq<char>>) -> Seq<char>
    decreases lines.len(),
{
    if lines.len() == 0 {
        Seq::empty()
    } else {
        joined(lines.drop_last()) + lines.last()
    }
}

/// Lower-case form of an ASCII letter; every other character is left alone.
pub open spec fn ascii_lower(c: char) -> char {
    if 'A' <= c && c <= 'Z' {
        ((c as u8) + 32) as char
    } else {
        c
    }
}

/// `text` with its ASCII letters in lower case.
pub open spec fn ascii_lowercase(text: Seq<char>) -> Seq<char> {
    text.map_values(|c: char| ascii_lower(c))
}

/// Whether two header names denote the same header: they agree up to the case
/// of ASCII letters.
pub open spec fn same_name(a: Seq<char>, b: Seq<char>) -> bool {
    ascii_lowercase(a) == ascii_lowercase(b)
}

/// ASCII case-insensitive comparison of two header names.
///
/// Trusted: `str::eq_ignore_ascii_case` is documented to give the same answer
/// as comparing the `to_ascii_lowercase` forms of both strings, which map
/// `'A'..='Z'` to `'a'..='z'` and leave every other character unchanged.
#[verifier::external_body]
pub(crate) fn names_match(a: &str, b: &str) -> (same: bool)
    ensures
        same == same_name(a@, b@),
{
    a.eq_ignore_ascii_case(b)
}

/// Index of the first field named `name`, or the number of fields if there
/// is none.
pub open spec fn field_index(fields: Seq<HeaderFieldView>, name: Seq<char>) -> int
    decreases fields.len(),
{
    if fields.len() == 0 {
        0
    } else if same_name(fields[0].name, name) {
        0
    } else {
        1 + field_index(fields.drop_first(), name)
    }
}

/// The value of the header `name`: the lines of the first field carrying that
/// name joined together, or `None` where no field does.
pub open spec fn header_value(fields: Seq<HeaderFieldView>, name: Seq<char>) -> Option<Seq<char>> {
    let i = field_index(fields, name);
    if i < fields.len() {
        Some(joined(fields[i].lines))
    } else {
        None
    }
}

/// [`field_index`] gives an index within bounds, the field there has the
/// name asked for, and no field before it has.
pub proof fn field_index_bounds(fields: Seq<HeaderFieldView>, name: Seq<char>)
    ensures
        0 <= field_index(fields, name) <= fields.len(),
        field_index(fields, name) < fields.len() ==> same_name(
            fields[field_index(fields, name)].name,
            name,
        ),
        forall|j: int|
            0 <= j < field_index(fields, name) ==> !same_name((#[trigger] fields[j]).name, name),
    decreases fields.len(),
{
    if fields.len() == 0 {
    } else if same_name(fields[0].name, name) {
    } else {
        let rest = fields.drop_first();
        field_index_bounds(rest, name);
        assert forall|j: int| 0 <= j < field_index(fields, name) implies !same_name(
            (#[trigger] fields[j]).name,
            name,
        ) by {
            if j > 0 {
                assert(fields[j] == rest[j - 1]);
            }
        }
    }
}

/// The first index at which a name occurs is the index that [`field_index`]
/// gives.
pub proof fn field_index_is(fields: Seq<HeaderFieldView>, name: Seq<char>, i: int)
    requires
        0 <= i <= fields.len(),
        i < fields.len() ==> same_name(fields[i].name, name),
        forall|j: int| 0 <= j < i ==> !same_name((#[trigger] fields[j]).name, name),
    ensures
        field_index(fields, name) == i,
{
    field_index_bounds(fields, name);
    let k = field_index(fields, name);
    if k < i {
        assert(!same_name(fields[k].name, name));
    } else if k > i {
        assert(!same_name(fields[i].name, name));
    }
}

/// Joins the raw lines of one header into a single value.
pub fn join_lines(lines: &Vec<String>) -> (value: String)
    ensures
        value@ == joined(strings_view(lines@)),
{
    let mut value = String::new();
    let mut i: usize = 0;
    while i < lines.len()
        invariant
            0 <= i <= lines.len(),
            value@ == joined(strings_view(lines@).take(i as int)),
        decreases lines.len() - i,
    {
        proof {
            let all = strings_view(lines@);
            assert(all.take(i + 1).drop_last() == all.take(i as int));
            assert(all.take(i + 1).last() == lines@[i as int]@);
        }
        value.append(lines[i].as_str());
        i += 1;
    }
    proof {
        assert(strings_view(lines@).take(lines.len() as int) == strings_view(lines@));
    }
    value
}

/// Looks a header up by name, ignoring the case of ASCII letters, and returns
/// its lines joined together.
pub fn find_header(fields: &Vec<HeaderField>, name: &str) -> (value: Option<String>)
    ensures
        value is Some == header_value(fields_view(fields@), name@) is Some,
        value is Some ==> value->0@ == header_value(fields_view(fields@), name@)->0,
{
    let mut i: usize = 0;
    while i < fields.len()
        invariant
            0 <= i <= fields.len(),
            forall|j: int|
                0 <= j < i ==> !same_name((#[trigger] fields_view(fields@)[j]).name, name@),
        decreases fields.len() - i,
    {
        if names_match(fields[i].name.as_str(), name) {
            proof {
                field_index_is(fields_view(fields@), name@, i as int);
            }
            return Some(join_lines(&fields[i].lines));
        }
        i += 1;
    }
    proof {
        field_index_is(fields_view(fields@), name@, fields.len() as int);
    }
    None
}

/// An HTTP request as the gateway sees it before the body has arrived.
#[derive(Clone, Debug, PartialEq, Eq)]
pub struct Request {
    pub method: Method,
    pub uri: String,
    pub version: HttpVersion,
    pub headers: Vec<HeaderField>,
}

/// The meta frame of an HTTP request, sent to the backend as one payload.
///
/// Header values and the body travel as text-typed fields whatever bytes they
/// hold; whoever receives them treats them as bytes.
#[derive(Clone, Debug, PartialEq, Eq)]
pub struct RequestMeta {
    pub method: Method,
    pub uri: String,
    pub version: HttpVersion,
    pub headers: Vec<(String, String)>,
    /// Empty until the request body has been read.
    pub body: Vec<u8>,
}

/// Mathematical value of a [`RequestMeta`].
pub struct RequestMetaView {
    pub method: Method,
    pub uri: Seq<char>,
    pub version: Seq<char>,
    pub headers: Seq<(Seq<char>, Seq<char>)>,
    pub body: Seq<u8>,
}

impl View for RequestMeta {
    type V = RequestMetaView;

    open spec fn view(&self) -> RequestMetaView {
        RequestMetaView {
            method: self.method,
            uri: self.uri@,
            version: version_text(self.version),
            headers: pairs_view(self.headers@),
            body: self.body@,
        }
    }
}

/// The body of a request as it is placed in the meta frame: the bytes as they
/// are.
pub fn serialize_body(body: &Vec<u8>) -> (bytes: Vec<u8>)
    ensures
        bytes@ == body@,
{
    body.clone()
}

/// The first data frame of a backend response: status and headers.
#[derive(Clone, Debug, PartialEq, Eq)]
pub struct ResponseMeta {
    pub code: u32,
    pub headers: Vec<(String, String)>,
}

/// An HTTP response under construction or ready to be sent.
#[derive(Clone, Debug, PartialEq, Eq)]
pub struct Response {
    pub status: u16,
    /// The trace of the request, sent as the `X-Request-Id` header.
    pub request_id: Option<u64>,
    /// All other headers, in the order in which they are sent.
    pub headers: Vec<(String, String)>,
    pub body: Vec<u8>,
}

/// Mathematical value of a [`Response`].
pub struct ResponseView {
    pub status: u16,
    pub request_id: Option<u64>,
    pub headers: Seq<(Seq<char>, Seq<char>)>,
    pub body: Seq<u8>,
}

impl View for Response {
    type V = ResponseView;

    open spec fn view(&self) -> ResponseView {
        ResponseView {
            status: self.status,
            request_id: self.request_id,
            headers: pairs_view(self.headers@),
            body: self.body@,
        }
    }
}

impl Response {
    /// An empty `200` response.
    pub fn new() -> (response: Response)
        ensures
            response@ == (ResponseView {
                status: 200,
                request_id: None,
                headers: Seq::empty(),
                body: Seq::empty(),
            }),
    {
        let response = Response {
            status: 200,
            request_id: None,
            headers: Vec::new(),
            body: Vec::new(),
        };
        assert(pairs_view(response.headers@) == Seq::<(Seq<char>, Seq<char>)>::empty());
        response
    }

    /// A response that carries nothing but a status, the trace and a text body.
    pub fn plain(status: u16, request_id: Option<u64>, text: &str) -> (response: Response)
        ensures
            response@ == (ResponseView {
                status,
                request_id,
                headers: Seq::empty(),
                body: text_bytes(text@),
            }),
    {
        let response = Response {
            status,
            request_id,
            headers: Vec::new(),
            body: bytes_of(text),
        };
        assert(pairs_view(response.headers@) == Seq::<(Seq<char>, Seq<char>)>::empty());
        response
    }
}

} // verus!
