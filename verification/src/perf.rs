//! A route for measuring latency: whatever comes in is turned into one fixed
//! call to the geobase service, whose integer reply comes back as the body.

use vstd::prelude::*;
use vstd::string::*;
use crate::dispatch::content_length_name;
use crate::message::{bytes_of, pairs_view, text_bytes, Request, Response, ResponseView};
use crate::route::{
    powered_by_name, powered_by_value, set_header, with_header, AccessRecord, AccessRecordView,
};

verus! {

/// Name of the service that the route calls.
pub open spec fn perf_service() -> Seq<char> {
    "geobase"@
}

/// The only argument of the call.
pub open spec fn perf_argument() -> Seq<char> {
    "8.8.8.8"@
}

/// The decimal digits of `n`, as ASCII bytes, most significant first.
pub open spec fn digits(n: nat) -> Seq<u8>
    decreases n,
{
    if n < 10 {
        seq![(48 + n) as u8]
    } else {
        digits(n / 10).push((48 + n % 10) as u8)
    }
}

/// The decimal text of `v`, as ASCII bytes: a minus sign for a negative
/// number, then the digits of its magnitude.
pub open spec fn decimal(v: int) -> Seq<u8> {
    if v < 0 {
        seq![45u8] + digits((-v) as nat)
    } else {
        digits(v as nat)
    }
}

/// `s` read from its end.
pub open spec fn backwards(s: Seq<u8>) -> Seq<u8> {
    Seq::new(s.len(), |i: int| s[s.len() - 1 - i])
}

/// Appends the decimal digits of `n` to `out`.
pub fn push_digits(out: &mut Vec<u8>, n: u64)
    ensures
        final(out)@ == old(out)@ + digits(n as nat),
{
    let mut low: Vec<u8> = Vec::new();
    low.push(48 + (n % 10) as u8);
    let mut m: u64 = n / 10;
    assert(backwards(low@) =~= seq![(48 + n % 10) as u8]);
    while m > 0
        invariant
            low.len() >= 1,
            m > 0 ==> digits(n as nat) == digits(m as nat) + backwards(low@),
            m == 0 ==> digits(n as nat) == backwards(low@),
        decreases m,
    {
        let ghost before = low@;
        let digit: u8 = 48 + (m % 10) as u8;
        low.push(digit);
        proof {
            assert(backwards(low@) =~= seq![digit] + backwards(before));
            if m >= 10 {
                assert(digits(m as nat) == digits((m / 10) as nat).push(digit));
                assert(digits(n as nat) =~= digits((m / 10) as nat) + backwards(low@));
            } else {
                assert(digits(m as nat) =~= seq![digit]);
                assert(digits(n as nat) =~= backwards(low@));
            }
        }
        m = m / 10;
    }
    let ghost start = out@;
    let mut i: usize = low.len();
    while i > 0
        invariant
            0 <= i <= low.len(),
            out@ == start + backwards(low@).take(low.len() - i),
        decreases i,
    {
        i -= 1;
        out.push(low[i]);
        assert(out@ =~= start + backwards(low@).take(low.len() - i));
    }
    assert(backwards(low@).take(low.len() as int) =~= backwards(low@));
}

/// The decimal text of `v`.
pub fn render_integer(v: i64) -> (text: Vec<u8>)
    ensures
        text@ == decimal(v as int),
{
    let mut text: Vec<u8> = Vec::new();
    if v < 0 {
        text.push(45);
        let magnitude: u64 = ((-(v + 1)) as u64) + 1;
        push_digits(&mut text, magnitude);
    } else {
        push_digits(&mut text, v as u64);
    }
    text
}

/// The text of a byte string that holds ASCII only.
pub open spec fn ascii_text(bytes: Seq<u8>) -> Seq<char> {
    Seq::new(bytes.len(), |i: int| bytes[i] as char)
}

/// What the fixed call is made of.
pub struct PerfCall {
    /// Name of the service.
    pub service: String,
    /// Number of the method.
    pub method: u64,
    /// The arguments, in order.
    pub arguments: Vec<String>,
}

/// The route that turns every request into the fixed call.
pub struct PerfRoute {
    service: String,
    method: u64,
    argument: String,
}

impl PerfRoute {
    /// Name of the service that the route calls.
    pub closed spec fn service(&self) -> Seq<char> {
        self.service@
    }

    /// Number of the method that the route calls.
    pub closed spec fn method(&self) -> u64 {
        self.method
    }

    /// The only argument of the call.
    pub closed spec fn argument(&self) -> Seq<char> {
        self.argument@
    }

    /// The route to the geobase service: method `0` with the one argument
    /// `"8.8.8.8"`.
    pub fn new() -> (route: PerfRoute)
        ensures
            route.service() == perf_service(),
            route.method() == 0,
            route.argument() == perf_argument(),
    {
        PerfRoute { service: "geobase".to_owned(), method: 0, argument: "8.8.8.8".to_owned() }
    }

    /// Takes a request, whatever it is, and says what to call.
    pub fn process(&self, req: &Request) -> (call: PerfCall)
        ensures
            call.service@ == self.service(),
            call.method == self.method(),
            call.arguments@.len() == 1,
            call.arguments@[0]@ == self.argument(),
    {
        let mut arguments: Vec<String> = Vec::new();
        arguments.push(self.argument.clone());
        PerfCall { service: self.service.clone(), method: self.method, arguments }
    }

    /// Ends the handling of a request: names the gateway in the response and
    /// gives the line for the access log.
    pub fn finish(response: Response, bytes_sent: u64) -> (out: (Response, AccessRecord))
        ensures
            out.0@ == (ResponseView {
                headers: with_header(response@.headers, powered_by_name(), powered_by_value()),
                ..response@
            }),
            out.1@ == (AccessRecordView { status: response@.status, bytes_sent, error: None }),
    {
        let Response { status, request_id, headers, body } = response;
        let headers = set_header(headers, "X-Powered-By", "Cocaine".to_owned());
        (
            Response { status, request_id, headers, body },
            AccessRecord { status, bytes_sent, error: None },
        )
    }
}

/// The body that shows the integer `v`: its decimal text in square brackets.
pub open spec fn perf_body(v: int) -> Seq<u8> {
    seq![91u8] + decimal(v) + seq![93u8]
}

/// The response to the fixed call, given the body and whether the call
/// succeeded: 200 or 500, the body, and its length declared in a header.
pub open spec fn perf_response(ok: bool, body: Seq<u8>) -> ResponseView {
    ResponseView {
        status: if ok {
            200
        } else {
            500
        },
        request_id: None,
        headers: seq![(content_length_name(), ascii_text(digits(body.len())))],
        body,
    }
}

/// The text of one decimal digit.
fn digit_text(digit: u8) -> (text: &'static str)
    requires
        digit < 10,
    ensures
        text@ == seq![(48 + digit) as char],
{
    proof {
        reveal_strlit("0");
        reveal_strlit("1");
        reveal_strlit("2");
        reveal_strlit("3");
        reveal_strlit("4");
        reveal_strlit("5");
        reveal_strlit("6");
        reveal_strlit("7");
        reveal_strlit("8");
        reveal_strlit("9");
    }
    let text = match digit {
        0 => "0",
        1 => "1",
        2 => "2",
        3 => "3",
        4 => "4",
        5 => "5",
        6 => "6",
        7 => "7",
        8 => "8",
        _ => "9",
    };
    assert(text@ =~= seq![(48 + digit) as char]);
    text
}

/// The decimal digits of `n` as text.
pub fn digits_text(n: u64) -> (text: String)
    ensures
        text@ == ascii_text(digits(n as nat)),
{
    let mut bytes: Vec<u8> = Vec::new();
    push_digits(&mut bytes, n);
    proof {
        digits_are_ascii(n as nat);
        assert(bytes@ =~= digits(n as nat));
    }
    let mut text = String::new();
    let mut i: usize = 0;
    assert(text@ =~= ascii_text(bytes@.take(0)));
    while i < bytes.len()
        invariant
            0 <= i <= bytes.len(),
            forall|k: int| 0 <= k < bytes@.len() ==> 48 <= #[trigger] bytes@[k] <= 57,
            text@ == ascii_text(bytes@.take(i as int)),
        decreases bytes.len() - i,
    {
        let ghost before = text@;
        let digit = bytes[i] - 48;
        text.append(digit_text(digit));
        assert(text@ =~= ascii_text(bytes@.take(i + 1))) by {
            assert(bytes@.take(i + 1) =~= bytes@.take(i as int).push(bytes@[i as int]));
        }
        i += 1;
    }
    assert(bytes@.take(bytes.len() as int) =~= bytes@);
    text
}

/// Decimal digits are ASCII, and there is always at least one.
pub proof fn digits_are_ascii(n: nat)
    ensures
        digits(n).len() >= 1,
        forall|i: int| 0 <= i < digits(n).len() ==> 48 <= #[trigger] digits(n)[i] <= 57,
    decreases n,
{
    if n >= 10 {
        digits_are_ascii(n / 10);
    }
}

/// Consumer of the one frame that answers the fixed call.
pub struct SingleChunkReadDispatch {}

impl SingleChunkReadDispatch {
    /// A dispatcher that has seen nothing yet.
    pub fn new() -> SingleChunkReadDispatch {
        SingleChunkReadDispatch {  }
    }

    /// Takes the reply: the integer, or the text of the failure to decode
    /// one. Gives the response and the number of body bytes.
    pub fn process(self, reply: Result<i64, String>) -> (out: (Response, u64))
        ensures
            out.0@ == (match reply {
                Ok(v) => perf_response(true, perf_body(v as int)),
                Err(text) => perf_response(false, text_bytes(text@)),
            }),
            out.1 == out.0@.body.len(),
    {
        let (status, body): (u16, Vec<u8>) = match reply {
            Ok(v) => {
                let mut body: Vec<u8> = Vec::new();
                body.push(91);
                let mut number = render_integer(v);
                body.append(&mut number);
                body.push(93);
                assert(body@ =~= perf_body(v as int));
                (200, body)
            },
            Err(text) => (500, bytes_of(text.as_str())),
        };
        let size = body.len() as u64;
        let mut headers: Vec<(String, String)> = Vec::new();
        headers.push(("Content-Length".to_owned(), digits_text(size)));
        assert(pairs_view(headers@) =~= seq![
            (content_length_name(), ascii_text(digits(size as nat))),
        ]);
        (Response { status, request_id: None, headers, body }, size)
    }

    /// Gives the call up. The response is a 500 with the text of the failure
    /// as its body.
    pub fn discard(self, error: &str) -> (out: (Response, u64))
        ensures
            out.0@ == (ResponseView {
                status: 500,
                request_id: None,
                headers: Seq::empty(),
                body: text_bytes(error@),
            }),
            out.1 == out.0@.body.len(),
    {
        let response = Response::plain(500, None, error);
        let size = response.body.len() as u64;
        (response, size)
    }
}

} // verus!
