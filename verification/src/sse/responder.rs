use crate::buffer::frozen;
use crate::sse::event::event_room;
use crate::sse::event::event_wire;
use crate::sse::event::keep_alive_wire;
use crate::sse::event::retry_wire;
use crate::sse::event::Event;
use crate::sse::stream::InfallibleStream;
use bytes::Bytes;
use vstd::prelude::*;

verus! {

/// Server-sent events (`text/event-stream`) responder: a stream of events, and what is sent
/// beside them.
///
/// On every poll the responder sends, in this order of precedence: the retry message, once,
/// where a retry period is set; what the stream yields; a keep-alive comment, where
/// keep-alive is set and its period has passed.
#[must_use]
pub struct Sse<S> {
    stream: S,
    keep_alive: Option<u128>,
    retry_interval: Option<u128>,
}

/// What polling the responder gives.
pub enum Polled<E> {
    /// A message to send.
    Message(Bytes),
    /// The stream's failure.
    Failed(E),
    /// The end of the response.
    Finished,
}

impl<S> Sse<S> {
    /// The stream of events.
    pub closed spec fn stream(&self) -> S {
        self.stream
    }

    /// The period of inactivity after which a keep-alive message is sent, in milliseconds.
    pub closed spec fn keep_alive(&self) -> Option<u128> {
        self.keep_alive
    }

    /// The retry period that the client has yet to be told, in milliseconds.
    pub closed spec fn retry_interval(&self) -> Option<u128> {
        self.retry_interval
    }

    /// Create an SSE response from a stream that yields SSE [Event]s.
    pub fn from_stream(stream: S) -> (sse: Self)
        ensures
            sse.stream() == stream,
            sse.keep_alive() is None,
            sse.retry_interval() is None,
    {
        Sse { stream, keep_alive: None, retry_interval: None }
    }

    /// Enables "keep-alive" messages to be send in the event stream after a period of
    /// inactivity, given in milliseconds. By default, no keep-alive is set up.
    pub fn with_keep_alive(self, keep_alive_period: u128) -> (sse: Self)
        ensures
            sse.stream() == self.stream(),
            sse.keep_alive() == Some(keep_alive_period),
            sse.retry_interval() == self.retry_interval(),
    {
        let mut sse = self;
        sse.keep_alive = Some(keep_alive_period);
        sse
    }

    /// Queues first event message to inform client of custom retry period, given in
    /// milliseconds.
    pub fn with_retry_duration(self, retry: u128) -> (sse: Self)
        ensures
            sse.stream() == self.stream(),
            sse.keep_alive() == self.keep_alive(),
            sse.retry_interval() == Some(retry),
    {
        let mut sse = self;
        sse.retry_interval = Some(retry);
        sse
    }

    /// The first step of a poll: where a retry period is set, its message is due, and the
    /// period is then forgotten; where none is set, the stream is to be polled.
    pub fn take_retry(&mut self) -> (message: Option<Bytes>)
        ensures
            final(self).stream() == old(self).stream(),
            final(self).keep_alive() == old(self).keep_alive(),
            final(self).retry_interval() is None,
            match old(self).retry_interval() {
                Some(retry) => message matches Some(bytes) && frozen(bytes) == retry_wire(
                    retry as nat,
                ),
                None => message is None,
            },
    {
        match self.retry_interval {
            Some(retry) => {
                self.retry_interval = None;
                Some(Event::retry_to_bytes(retry))
            },
            None => None,
        }
    }

    /// The second step of a poll, for a stream that was ready: an event is sent in its wire
    /// form, a failure is passed on, and the end of the stream ends the response.
    pub fn deliver<E>(&self, item: Option<Result<Event, E>>) -> (polled: Polled<E>)
        requires
            item matches Some(Ok(event)) ==> event_room(event@) <= isize::MAX,
        ensures
            match item {
                Some(Ok(event)) => polled matches Polled::Message(bytes) && frozen(bytes)
                    == event_wire(event@),
                Some(Err(e)) => polled matches Polled::Failed(failure) && failure == e,
                None => polled is Finished,
            },
    {
        match item {
            Some(Ok(event)) => Polled::Message(event.into_bytes()),
            Some(Err(e)) => Polled::Failed(e),
            None => Polled::Finished,
        }
    }

    /// The last step of a poll, for a stream that was not ready: a keep-alive message is sent
    /// where keep-alive is set and its period has passed; nothing is sent otherwise.
    pub fn idle(&self, period_passed: bool) -> (message: Option<Bytes>)
        ensures
            match message {
                Some(bytes) => self.keep_alive() is Some && period_passed && frozen(bytes)
                    == keep_alive_wire(),
                None => self.keep_alive() is None || !period_passed,
            },
    {
        if self.keep_alive.is_some() && period_passed {
            Some(Event::keep_alive_bytes())
        } else {
            None
        }
    }

    /// Tells the keep-alive period, where one is set.
    pub fn keep_alive_period(&self) -> (period: Option<u128>)
        ensures
            period == self.keep_alive(),
    {
        self.keep_alive
    }

    /// Takes the responder apart: the stream, the keep-alive period and the retry period.
    pub fn into_parts(self) -> (parts: (S, Option<u128>, Option<u128>))
        ensures
            parts.0 == self.stream(),
            parts.1 == self.keep_alive(),
            parts.2 == self.retry_interval(),
    {
        (self.stream, self.keep_alive, self.retry_interval)
    }
}

impl<S> Sse<InfallibleStream<S>> {
    /// Create an SSE response from an infallible stream that yields SSE [Event]s.
    pub fn from_infallible_stream(stream: S) -> (sse: Self)
        ensures
            sse.stream().inner() == stream,
            sse.keep_alive() is None,
            sse.retry_interval() is None,
    {
        Sse::from_stream(InfallibleStream::new(stream))
    }
}

} // verus!
