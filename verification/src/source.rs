//! The consumer's handle: it forms the requests that go to the broker and
//! reads the replies that come back.

use crate::actor::ActorMessage;
use crate::error::Error;
use crate::message::Message;
use vstd::prelude::*;

verus! {

/// What the consumer is configured with: how many messages one read may
/// return, and how long it may take, in ticks of the caller's clock.
#[derive(Debug, Clone, Copy, PartialEq, Eq, Structural)]
pub struct ServingSource {
    batch_size: usize,
    timeout: u64,
}

/// What a caller sees of a reply: the broker's answer, or, where the broker
/// stopped without one, that it has terminated.
pub open spec fn reply_result<T>(reply: Option<Result<T, Error>>) -> Result<T, Error> {
    match reply {
        Some(result) => result,
        None => Err(Error::ActorTerminated),
    }
}

impl ServingSource {
    /// The largest number of messages that one read returns.
    pub closed spec fn spec_batch_size(&self) -> usize {
        self.batch_size
    }

    /// The longest that one read takes.
    pub closed spec fn spec_timeout(&self) -> u64 {
        self.timeout
    }

    /// A handle whose reads return up to `batch_size` messages within
    /// `timeout`.
    pub fn new(batch_size: usize, timeout: u64) -> (source: Self)
        ensures
            source.spec_batch_size() == batch_size,
            source.spec_timeout() == timeout,
    {
        ServingSource { batch_size, timeout }
    }

    /// The largest number of messages that one read returns.
    pub fn batch_size(&self) -> (n: usize)
        ensures
            n == self.spec_batch_size(),
    {
        self.batch_size
    }

    /// The longest that one read takes.
    pub fn timeout(&self) -> (t: u64)
        ensures
            t == self.spec_timeout(),
    {
        self.timeout
    }

    /// The capacity of the request queue and of the inbound queue: twice the
    /// batch size, where that is a `usize`.
    pub fn channel_capacity(&self) -> (capacity: Option<usize>)
        ensures
            match capacity {
                Some(c) => c == 2 * self.spec_batch_size(),
                None => 2 * self.spec_batch_size() > usize::MAX,
            },
    {
        self.batch_size.checked_mul(2)
    }

    /// The read request that a call at clock reading `now` sends: for a full
    /// batch, due when the timeout has passed.
    pub fn read_request(&self, now: u64) -> (request: ActorMessage)
        requires
            now + self.spec_timeout() <= u64::MAX,
        ensures
            request == (ActorMessage::Read {
                batch_size: self.spec_batch_size(),
                timeout_at: (now + self.spec_timeout()) as u64,
            }),
    {
        ActorMessage::Read { batch_size: self.batch_size, timeout_at: now + self.timeout }
    }

    /// The outcome of a read, from what came back on its reply channel: `None`
    /// stands for a channel that the broker dropped without an answer.
    pub fn read_messages(&self, reply: Option<Result<Vec<Message>, Error>>) -> (r: Result<
        Vec<Message>,
        Error,
    >)
        ensures
            r == reply_result(reply),
    {
        match reply {
            Some(result) => result,
            None => Err(Error::ActorTerminated),
        }
    }

    /// The request that acknowledges `offsets`.
    pub fn ack_request(&self, offsets: Vec<String>) -> (request: ActorMessage)
        ensures
            request == (ActorMessage::Ack { offsets }),
    {
        ActorMessage::Ack { offsets }
    }

    /// The outcome of an acknowledgement, from what came back on its reply
    /// channel: `None` stands for a channel that the broker dropped without an
    /// answer.
    pub fn ack_messages(&self, reply: Option<Result<(), Error>>) -> (r: Result<(), Error>)
        ensures
            r == reply_result(reply),
    {
        match reply {
            Some(result) => result,
            None => Err(Error::ActorTerminated),
        }
    }
}

} // verus!
