//! Failures of the request path and how each is shown to the client.

use vstd::prelude::*;
use vstd::string::*;
use crate::message::{text_bytes, Response, ResponseView};

verus! {

/// A failure that ends the handling of a request before any backend response
/// could be used.
#[derive(Clone, Debug, PartialEq, Eq)]
pub enum Error {
    /// Only one of the two routing headers was given.
    IncompleteHeadersMatch,
    /// The tracing header, whose name is held here, could not be parsed.
    InvalidRequestIdHeader(String),
    /// The request body could not be read; holds the message of the
    /// underlying failure.
    InvalidBodyRead(String),
    /// The attempt was dropped before it gave a reply.
    Canceled,
}

/// Mathematical value of an [`Error`].
pub enum ErrorView {
    IncompleteHeadersMatch,
    InvalidRequestIdHeader(Seq<char>),
    InvalidBodyRead(Seq<char>),
    Canceled,
}

impl View for Error {
    type V = ErrorView;

    open spec fn view(&self) -> ErrorView {
        match self {
            Error::IncompleteHeadersMatch => ErrorView::IncompleteHeadersMatch,
            Error::InvalidRequestIdHeader(name) => ErrorView::InvalidRequestIdHeader(name@),
            Error::InvalidBodyRead(message) => ErrorView::InvalidBodyRead(message@),
            Error::Canceled => ErrorView::Canceled,
        }
    }
}

/// What the client is told when only one routing header was given.
pub open spec fn incomplete_headers_text() -> Seq<char> {
    "either none or both X-Cocaine-Service and X-Cocaine-Event headers must be specified"@
}

impl ErrorView {
    /// HTTP status shown for the failure: 400 where the request is at fault,
    /// 500 otherwise.
    pub open spec fn code(self) -> u16 {
        match self {
            ErrorView::IncompleteHeadersMatch => 400,
            ErrorView::InvalidRequestIdHeader(_) => 400,
            ErrorView::InvalidBodyRead(_) => 500,
            ErrorView::Canceled => 500,
        }
    }

    /// Text shown to the client.
    pub open spec fn message(self) -> Seq<char> {
        match self {
            ErrorView::IncompleteHeadersMatch => incomplete_headers_text(),
            ErrorView::InvalidRequestIdHeader(name) => "Invalid `"@ + name + "` header value"@,
            ErrorView::InvalidBodyRead(message) => message,
            ErrorView::Canceled => "canceled"@,
        }
    }

    /// Short fixed description of the kind of failure.
    pub open spec fn description(self) -> Seq<char> {
        match self {
            ErrorView::IncompleteHeadersMatch => incomplete_headers_text(),
            ErrorView::InvalidRequestIdHeader(_) => "invalid tracing header value"@,
            ErrorView::InvalidBodyRead(_) => "failed to read HTTP body"@,
            ErrorView::Canceled => "canceled"@,
        }
    }

    /// The response that shows the failure to the client: its status and its
    /// text, nothing else.
    pub open spec fn response(self) -> ResponseView {
        ResponseView {
            status: self.code(),
            request_id: None,
            headers: Seq::empty(),
            body: text_bytes(self.message()),
        }
    }
}

impl Error {
    /// HTTP status shown for the failure.
    pub fn code(&self) -> (status: u16)
        ensures
            status == self@.code(),
    {
        match self {
            Error::IncompleteHeadersMatch => 400,
            Error::InvalidRequestIdHeader(_) => 400,
            Error::InvalidBodyRead(_) => 500,
            Error::Canceled => 500,
        }
    }

    /// Short fixed description of the kind of failure.
    pub fn description(&self) -> (text: &'static str)
        ensures
            text@ == self@.description(),
    {
        match self {
            Error::IncompleteHeadersMatch => {
                "either none or both X-Cocaine-Service and X-Cocaine-Event headers must be specified"
            },
            Error::InvalidRequestIdHeader(_) => "invalid tracing header value",
            Error::InvalidBodyRead(_) => "failed to read HTTP body",
            Error::Canceled => "canceled",
        }
    }

    /// Text shown to the client.
    pub fn message(&self) -> (text: String)
        ensures
            text@ == self@.message(),
    {
        match self {
            Error::IncompleteHeadersMatch => self.description().to_owned(),
            Error::InvalidRequestIdHeader(name) => {
                "Invalid `".to_owned().concat(name.as_str()).concat("` header value")
            },
            Error::InvalidBodyRead(message) => message.clone(),
            Error::Canceled => "canceled".to_owned(),
        }
    }

    /// The response that shows the failure to the client.
    pub fn to_response(&self) -> (response: Response)
        ensures
            response@ == self@.response(),
    {
        let text = self.message();
        Response::plain(self.code(), None, text.as_str())
    }
}

} // verus!
