//! What stands between the HTTP server and the routes: the deadline put on
//! every request and the hand-out of pool channels to the workers.

use vstd::prelude::*;
use vstd::std_specs::convert::FromSpecImpl;
use vstd::string::*;
use crate::message::{text_bytes, Response, ResponseView};

verus! {

/// Marks a request whose deadline passed before its response was there.
pub struct TimedOut;

/// Body of the response to a request that ran out of time.
pub open spec fn timed_out_text() -> Seq<char> {
    "Timed out while waiting for response from the Cocaine"@
}

/// The response to a request that ran out of time: 504 with a fixed text.
pub open spec fn timed_out_response() -> ResponseView {
    ResponseView {
        status: 504,
        request_id: None,
        headers: Seq::empty(),
        body: text_bytes(timed_out_text()),
    }
}

impl From<TimedOut> for Response {
    fn from(timeout: TimedOut) -> (response: Response)
        ensures
            response@ == timed_out_response(),
    {
        Response::plain(504, None, "Timed out while waiting for response from the Cocaine")
    }
}

impl FromSpecImpl<TimedOut> for Response {
    open spec fn obeys_from_spec() -> bool {
        false
    }

    open spec fn from_spec(timeout: TimedOut) -> Response {
        arbitrary()
    }
}

/// Which of the two came first: the inner service with its result, or the
/// deadline.
pub enum Race<R> {
    /// The inner service finished with this result.
    Finished(R),
    /// The deadline passed.
    Deadline,
}

/// What a request is answered with once the race is decided.
#[derive(Clone, Debug, PartialEq, Eq)]
pub enum Settled<R> {
    /// The response of the inner service.
    Inner(R),
    /// The response that says that the deadline passed.
    TimedOut(Response),
}

/// Puts a deadline on every request handled by the service it wraps. The
/// deadline runs from the moment the request is handed over, so it covers all
/// attempts made for it.
pub struct TimeoutMiddleware<T> {
    upstream: T,
    timeout: u64,
}

impl<T> TimeoutMiddleware<T> {
    /// The service that is wrapped.
    pub closed spec fn inner(&self) -> T {
        self.upstream
    }

    /// The time every request is given, in milliseconds.
    pub closed spec fn deadline(&self) -> u64 {
        self.timeout
    }

    /// Wraps `upstream`, giving every request `timeout` milliseconds.
    pub fn new(upstream: T, timeout: u64) -> (middleware: TimeoutMiddleware<T>)
        ensures
            middleware.inner() == upstream,
            middleware.deadline() == timeout,
    {
        TimeoutMiddleware { upstream, timeout }
    }

    /// The service that is wrapped.
    pub fn upstream(&self) -> (upstream: &T)
        ensures
            *upstream == self.inner(),
    {
        &self.upstream
    }

    /// The time every request is given, in milliseconds.
    pub fn timeout(&self) -> (timeout: u64)
        ensures
            timeout == self.deadline(),
    {
        self.timeout
    }

    /// Settles a request once the race between the inner service and the
    /// deadline is decided. The result of the inner service is passed on as
    /// it is, failure included; a deadline that came first gives the
    /// gateway-timeout response.
    pub fn call<R, E>(&self, first: Race<Result<R, E>>) -> (result: Result<Settled<R>, E>)
        ensures
            match first {
                Race::Finished(Ok(inner)) => result == Ok::<Settled<R>, E>(Settled::Inner(inner)),
                Race::Finished(Err(error)) => result == Err::<Settled<R>, E>(error),
                Race::Deadline => result matches Ok(Settled::TimedOut(response)) && response@
                    == timed_out_response(),
            },
    {
        match first {
            Race::Finished(Ok(inner)) => Ok(Settled::Inner(inner)),
            Race::Finished(Err(error)) => Err(error),
            Race::Deadline => Ok(Settled::TimedOut(Response::from(TimedOut))),
        }
    }
}

/// Whether a status counts as a server error (500 to 599).
pub fn is_server_error(status: u16) -> (yes: bool)
    ensures
        yes == (500 <= status <= 599),
{
    500 <= status && status <= 599
}

/// Makes the service for each accepted connection.
pub struct ProxyServiceFactory {
    timeout: u64,
}

impl ProxyServiceFactory {
    /// The time every request is given, in milliseconds.
    pub closed spec fn deadline(&self) -> u64 {
        self.timeout
    }

    /// Puts the deadline of this factory on `service`.
    pub fn create_service<S>(&self, service: S) -> (wrapped: TimeoutMiddleware<S>)
        ensures
            wrapped.inner() == service,
            wrapped.deadline() == self.deadline(),
    {
        TimeoutMiddleware::new(service, self.timeout)
    }
}

/// Makes one service factory per worker, each with a pool channel of its
/// own. There must be as many channels as there are workers.
pub struct ProxyServiceFactoryFactory<C> {
    channels: Vec<C>,
    timeout: u64,
}

impl<C> ProxyServiceFactoryFactory<C> {
    /// The channels not yet handed out, first to last.
    pub closed spec fn remaining(&self) -> Seq<C> {
        self.channels@
    }

    /// The time every request is given, in milliseconds.
    pub closed spec fn deadline(&self) -> u64 {
        self.timeout
    }

    /// A factory that hands out `channels` in order and gives every request
    /// `timeout` milliseconds.
    pub fn new(channels: Vec<C>, timeout: u64) -> (factory: ProxyServiceFactoryFactory<C>)
        ensures
            factory.remaining() == channels@,
            factory.deadline() == timeout,
    {
        ProxyServiceFactoryFactory { channels, timeout }
    }

    /// Number of channels not yet handed out.
    pub fn channels_left(&self) -> (left: usize)
        ensures
            left == self.remaining().len(),
    {
        self.channels.len()
    }

    /// Makes the factory of the next worker and hands out its channel: the
    /// first of those that are left.
    pub fn create_factory(&mut self) -> (out: (C, ProxyServiceFactory))
        requires
            old(self).remaining().len() > 0,
        ensures
            out.0 == old(self).remaining()[0],
            out.1.deadline() == old(self).deadline(),
            final(self).remaining() == old(self).remaining().drop_first(),
            final(self).deadline() == old(self).deadline(),
    {
        let channel = self.channels.remove(0);
        assert(self.channels@ =~= old(self).channels@.drop_first());
        (channel, ProxyServiceFactory { timeout: self.timeout })
    }
}

} // verus!
