//! What goes out to a backend worker: the headers of a call and the frames
//! of one invocation.

use vstd::prelude::*;
use vstd::bytes::*;

verus! {

/// A header attached to the frame that opens a backend call.
#[derive(Clone, Debug, PartialEq, Eq)]
pub enum BackendHeader {
    /// Identifier of the whole request, stable across attempts.
    TraceId(u64),
    /// Identifier of one attempt.
    SpanId(u64),
    /// Identifier of the caller's span; the trace itself for a top-level call.
    ParentId(u64),
    /// Asks the backend for verbose tracing.
    TraceBit(bool),
    /// Any other header, carried as bytes.
    Raw { name: String, value: Vec<u8> },
}

/// Mathematical value of a [`BackendHeader`].
pub enum BackendHeaderView {
    TraceId(u64),
    SpanId(u64),
    ParentId(u64),
    TraceBit(bool),
    Raw { name: Seq<char>, value: Seq<u8> },
}

impl View for BackendHeader {
    type V = BackendHeaderView;

    open spec fn view(&self) -> BackendHeaderView {
        match self {
            BackendHeader::TraceId(v) => BackendHeaderView::TraceId(*v),
            BackendHeader::SpanId(v) => BackendHeaderView::SpanId(*v),
            BackendHeader::ParentId(v) => BackendHeaderView::ParentId(*v),
            BackendHeader::TraceBit(v) => BackendHeaderView::TraceBit(*v),
            BackendHeader::Raw { name, value } => BackendHeaderView::Raw {
                name: name@,
                value: value@,
            },
        }
    }
}

/// Values of a list of backend headers, in order.
pub open spec fn headers_view(headers: Seq<BackendHeader>) -> Seq<BackendHeaderView> {
    headers.map_values(|h: BackendHeader| h@)
}

/// Name of the header that carries the per-request timeout to the backend.
pub open spec fn timeout_header_name() -> Seq<char> {
    "request_timeout"@
}

/// Little-endian encoding of a 64-bit value through `byteorder`.
///
/// Trusted: `byteorder::LittleEndian::write_u64` copies `n.to_le_bytes()` into
/// the first eight bytes of the buffer, so an eight-byte buffer ends up holding
/// exactly the little-endian bytes of `v`.
#[verifier::external_body]
fn pack_u64(v: u64) -> (buf: Vec<u8>)
    ensures
        buf@ == spec_u64_to_le_bytes(v),
{
    let mut buf = vec![0; 8];
    <byteorder::LittleEndian as byteorder::ByteOrder>::write_u64(&mut buf[..], v);
    buf
}

/// A fresh 64-bit identifier from `rand`.
///
/// Trusted: `rand::random` draws from the thread-local generator; nothing is
/// claimed about the value.
#[verifier::external_body]
pub(crate) fn random_u64() -> u64 {
    rand::random::<u64>()
}

/// The `request_timeout` header for a deadline of `millis` milliseconds: its
/// value is the deadline as eight little-endian bytes.
pub fn timeout_header(millis: u64) -> (header: BackendHeader)
    ensures
        header@ == (BackendHeaderView::Raw {
            name: timeout_header_name(),
            value: spec_u64_to_le_bytes(millis),
        }),
{
    BackendHeader::Raw { name: "request_timeout".to_owned(), value: pack_u64(millis) }
}

/// Decoding a timeout header value as a little-endian integer gives back the
/// number of milliseconds it was built from.
pub proof fn timeout_header_round_trip(millis: u64)
    ensures
        spec_u64_to_le_bytes(millis).len() == 8,
        spec_u64_from_le_bytes(spec_u64_to_le_bytes(millis)) == millis,
{
    lemma_auto_spec_u64_to_from_le_bytes();
}

} // verus!
