//! The broker: it owns the tracker, collects batches from the arrivals that
//! its caller feeds it, and releases producers when offsets are acknowledged.

use crate::error::Error;
use crate::message::{Message, MessageWrapper};
use crate::string_map::StringMap;
use crate::text::{decimal, decimal_string, ends_with, strip_suffix, without_last};
use tokio::sync::oneshot::Sender;
use vstd::prelude::*;
use vstd::string::*;

verus! {

/// The suffix that every offset of replica `replica` ends with.
pub open spec fn offset_suffix(replica: u16) -> Seq<char> {
    seq!['-'] + decimal(replica as nat)
}

/// `offset` ends with the suffix of `replica`.
pub open spec fn is_offset_of(offset: Seq<char>, replica: u16) -> bool {
    ends_with(offset, offset_suffix(replica))
}

/// The message id in an offset of `replica`.
pub open spec fn offset_id(offset: Seq<char>, replica: u16) -> Seq<char> {
    without_last(offset, offset_suffix(replica).len())
}

/// The tracker once the first `n` of `offsets` have been released from it.
pub open spec fn released(
    tracker: Map<Seq<char>, Sender<()>>,
    offsets: Seq<String>,
    replica: u16,
    n: nat,
) -> Map<Seq<char>, Sender<()>>
    decreases n,
{
    if n == 0 {
        tracker
    } else {
        released(tracker, offsets, replica, (n - 1) as nat).remove(
            offset_id(offsets[n - 1]@, replica),
        )
    }
}

/// The offset at position `i` can be released once those before it have been:
/// it is an offset of `replica`, and its id is still tracked.
pub open spec fn releasable(
    tracker: Map<Seq<char>, Sender<()>>,
    offsets: Seq<String>,
    replica: u16,
    i: int,
) -> bool {
    &&& 0 <= i < offsets.len()
    &&& is_offset_of(offsets[i]@, replica)
    &&& released(tracker, offsets, replica, i as nat).dom().contains(
        offset_id(offsets[i]@, replica),
    )
}

/// What an acknowledgement of `offsets` that got through the first `n` of them
/// leaves behind: the tracker `after` and the result `r`.
///
/// The first `n` offsets were released in order. The call succeeds only if
/// that is all of them. It reports a lost signal only for an offset that it
/// released. It reports a malformed or an unknown offset only for the offset
/// at `n`, which is then the first that cannot be released.
pub open spec fn ack_stops_at(
    before: Map<Seq<char>, Sender<()>>,
    offsets: Seq<String>,
    replica: u16,
    n: nat,
    after: Map<Seq<char>, Sender<()>>,
    r: Result<(), Error>,
) -> bool {
    &&& n <= offsets.len()
    &&& forall|i: int| 0 <= i < n ==> releasable(before, offsets, replica, i)
    &&& after == released(before, offsets, replica, n)
    &&& match r {
        Ok(_) => n == offsets.len(),
        Err(Error::CompletionSignalLost) => n >= 1,
        Err(Error::InvalidOffsetFormat) => n < offsets.len() && !is_offset_of(
            offsets[n as int]@,
            replica,
        ),
        Err(Error::UnknownOffset) => n < offsets.len() && is_offset_of(offsets[n as int]@, replica)
            && !after.dom().contains(offset_id(offsets[n as int]@, replica)),
        Err(_) => false,
    }
}

/// The address to which later stages report that a message is done, for a
/// server that listens on `host_ip` and `port`.
pub open spec fn callback_address(host_ip: Seq<char>, port: u16) -> Seq<char> {
    "https://"@ + host_ip + ":"@ + decimal(port as nat) + "/v1/process/callback"@
}

/// What releasing one offset does to the tracker.
pub open spec fn release_tracker(
    tracker: Map<Seq<char>, Sender<()>>,
    offset: Seq<char>,
    replica: u16,
) -> Map<Seq<char>, Sender<()>> {
    if is_offset_of(offset, replica) {
        tracker.remove(offset_id(offset, replica))
    } else {
        tracker
    }
}

/// What releasing one offset returns: the signal that was tracked under the
/// offset's id, or the reason why there is none.
pub open spec fn release_result(
    tracker: Map<Seq<char>, Sender<()>>,
    offset: Seq<char>,
    replica: u16,
) -> Result<Sender<()>, Error> {
    if !is_offset_of(offset, replica) {
        Err(Error::InvalidOffsetFormat)
    } else if !tracker.dom().contains(offset_id(offset, replica)) {
        Err(Error::UnknownOffset)
    } else {
        Ok(tracker[offset_id(offset, replica)])
    }
}

/// What the producer's end of a fired signal means for the acknowledgement.
pub open spec fn confirm_result(sent: Result<(), ()>) -> Result<(), Error> {
    match sent {
        Ok(_) => Ok(()),
        Err(_) => Err(Error::CompletionSignalLost),
    }
}

/// Fires a completion signal with `tokio::sync::oneshot::Sender::send`, which
/// consumes the sender. The result says whether the receiving end was still
/// there; nothing is claimed of it.
#[verifier::external_body]
fn fire(signal: Sender<()>) -> (sent: Result<(), ()>) {
    signal.send(())
}

/// Turns the outcome of firing a signal into the outcome of the
/// acknowledgement.
pub fn confirm(sent: Result<(), ()>) -> (r: Result<(), Error>)
    ensures
        r == confirm_result(sent),
{
    match sent {
        Ok(_) => Ok(()),
        Err(_) => Err(Error::CompletionSignalLost),
    }
}

/// The messages of a read that is still collecting.
pub struct ReadBatch {
    count: usize,
    timeout_at: u64,
    messages: Vec<Message>,
}

impl ReadBatch {
    /// The number of messages that the read asked for.
    pub closed spec fn count(&self) -> usize {
        self.count
    }

    /// The clock reading at which the read must return.
    pub closed spec fn timeout_at(&self) -> u64 {
        self.timeout_at
    }

    /// The messages collected so far, in the order of their arrival.
    pub closed spec fn messages(&self) -> Seq<Message> {
        self.messages@
    }

    /// The read still lacks messages, and each one it holds is stamped with
    /// `callback_url` and its id.
    pub open spec fn wf(&self, callback_url: String) -> bool {
        &&& self.messages().len() < self.count()
        &&& forall|i: int|
            0 <= i < self.messages().len() ==> (#[trigger] self.messages()[i]).is_delivered(
                callback_url,
            )
    }

    /// The clock reading until which the caller may wait for the next arrival.
    pub fn deadline(&self) -> (t: u64)
        ensures
            t == self.timeout_at(),
    {
        self.timeout_at
    }

    /// The number of messages collected so far.
    pub fn len(&self) -> (n: usize)
        ensures
            n == self.messages().len(),
    {
        self.messages.len()
    }
}

/// What the inbound queue yielded while a read waited on it.
pub enum Arrival {
    /// The next message of the queue.
    Message(MessageWrapper),
    /// The queue is closed: no producer is left.
    Closed,
    /// The deadline passed before anything arrived.
    TimedOut,
}

/// What a read does next.
pub enum ReadStep {
    /// Wait for the next arrival, no longer than until the batch's deadline.
    Wait(ReadBatch),
    /// The read is over, with this result.
    Done(Result<Vec<Message>, Error>),
}

/// A read that holds `messages` goes on waiting at clock reading `now` only
/// if it lacks messages and the deadline has not come.
pub open spec fn read_goes_on(count: usize, timeout_at: u64, collected: nat, now: u64) -> bool {
    collected < count && now < timeout_at
}

/// `step` is what a read of `count` messages until `timeout_at` does at clock
/// reading `now` once it holds `messages`.
pub open spec fn is_step_after(
    step: ReadStep,
    count: usize,
    timeout_at: u64,
    messages: Seq<Message>,
    now: u64,
) -> bool {
    match step {
        ReadStep::Wait(batch) => read_goes_on(count, timeout_at, messages.len(), now)
            && batch.count() == count && batch.timeout_at() == timeout_at && batch.messages()
            == messages,
        ReadStep::Done(Ok(batch)) => !read_goes_on(count, timeout_at, messages.len(), now)
            && batch@ == messages,
        ReadStep::Done(Err(_)) => false,
    }
}

/// A request to the broker.
pub enum ActorMessage {
    /// Read up to `batch_size` messages, waiting no longer than until
    /// `timeout_at`.
    Read { batch_size: usize, timeout_at: u64 },
    /// Acknowledge these offsets, in this order.
    Ack { offsets: Vec<String> },
}

/// What became of a request.
pub enum Handled {
    /// A read was begun.
    Read(ReadStep),
    /// An acknowledgement was carried out, with this result.
    Ack(Result<(), Error>),
}

/// The broker's state: the signals of the messages that were delivered and
/// not yet acknowledged, under their ids.
pub struct ServingSourceActor {
    tracker: StringMap<Sender<()>>,
    vertex_replica_id: u16,
    callback_url: String,
}

impl View for ServingSourceActor {
    type V = Map<Seq<char>, Sender<()>>;

    /// The tracker.
    closed spec fn view(&self) -> Map<Seq<char>, Sender<()>> {
        self.tracker@
    }
}

impl ServingSourceActor {
    /// The tracker is a valid map.
    pub closed spec fn wf(&self) -> bool {
        self.tracker.wf()
    }

    /// The replica whose offsets this broker accepts.
    pub closed spec fn replica(&self) -> u16 {
        self.vertex_replica_id
    }

    /// The callback address that the broker stamps on each message.
    pub closed spec fn callback_url(&self) -> String {
        self.callback_url
    }

    /// A broker that tracks nothing yet.
    pub fn new(vertex_replica_id: u16, callback_url: String) -> (actor: Self)
        ensures
            actor.wf(),
            actor@ == Map::<Seq<char>, Sender<()>>::empty(),
            actor.replica() == vertex_replica_id,
            actor.callback_url() == callback_url,
    {
        ServingSourceActor { tracker: StringMap::new(), vertex_replica_id, callback_url }
    }

    /// A broker for the replica `vertex_replica_id` of a server that listens on
    /// `host_ip` and `app_listen_port`, which tracks nothing yet.
    pub fn start(host_ip: &str, app_listen_port: u16, vertex_replica_id: u16) -> (actor: Self)
        ensures
            actor.wf(),
            actor@ == Map::<Seq<char>, Sender<()>>::empty(),
            actor.replica() == vertex_replica_id,
            actor.callback_url()@ == callback_address(host_ip@, app_listen_port),
    {
        let mut callback_url = String::from_str("https://");
        callback_url.append(host_ip);
        callback_url.append(":");
        callback_url.append(decimal_string(app_listen_port).as_str());
        callback_url.append("/v1/process/callback");
        Self::new(vertex_replica_id, callback_url)
    }

    /// The callback address that the broker stamps on each message.
    pub fn callback(&self) -> (url: &String)
        ensures
            *url == self.callback_url(),
    {
        &self.callback_url
    }

    /// The number of delivered messages that await their acknowledgement.
    pub fn pending(&self) -> (n: usize)
        requires
            self.wf(),
        ensures
            self@.dom().finite(),
            n == self@.dom().len(),
    {
        self.tracker.len()
    }

    /// Whether a delivered message with this id awaits its acknowledgement.
    pub fn is_tracked(&self, id: &String) -> (r: bool)
        requires
            self.wf(),
        ensures
            r == self@.dom().contains(id@),
    {
        self.tracker.contains_key(id)
    }

    fn step_after(batch: ReadBatch, now: u64) -> (step: ReadStep)
        ensures
            is_step_after(step, batch.count(), batch.timeout_at(), batch.messages(), now),
    {
        if batch.messages.len() >= batch.count || now >= batch.timeout_at {
            ReadStep::Done(Ok(batch.messages))
        } else {
            ReadStep::Wait(batch)
        }
    }

    /// Begins a read of up to `count` messages that must return by
    /// `timeout_at`, at clock reading `now`. It is over at once, with no
    /// message, if `count` is zero or the deadline has come; else the caller
    /// waits for the first arrival.
    pub fn read(&self, count: usize, timeout_at: u64, now: u64) -> (step: ReadStep)
        ensures
            is_step_after(step, count, timeout_at, Seq::<Message>::empty(), now),
            step matches ReadStep::Wait(batch) ==> batch.wf(self.callback_url()),
            step matches ReadStep::Done(Ok(ms)) ==> ms@.len() == 0,
    {
        let batch = ReadBatch { count, timeout_at, messages: Vec::new() };
        Self::step_after(batch, now)
    }

    /// Takes what the inbound queue yielded to the read `batch`, at clock
    /// reading `now`.
    ///
    /// A message is tracked under its id, stamped and appended; the read is
    /// then over if it has its count or the deadline has come. A closed queue
    /// ends the read: with what was collected, or with `SourceDisconnected`
    /// if that is nothing. A timeout ends it with what was collected.
    pub fn read_next(&mut self, batch: ReadBatch, arrival: Arrival, now: u64) -> (step: ReadStep)
        requires
            old(self).wf(),
            batch.wf(old(self).callback_url()),
            arrival matches Arrival::Message(w) ==> w.message.wf(),
        ensures
            final(self).wf(),
            final(self).replica() == old(self).replica(),
            final(self).callback_url() == old(self).callback_url(),
            match arrival {
                Arrival::Message(w) => {
                    &&& final(self)@ == old(self)@.insert(w.message.id@, w.confirm_save)
                    &&& exists|m: Message|
                        {
                            &&& m.is_stamped_from(w.message, old(self).callback_url())
                            &&& is_step_after(
                                step,
                                batch.count(),
                                batch.timeout_at(),
                                #[trigger] batch.messages().push(m),
                                now,
                            )
                        }
                },
                Arrival::Closed => {
                    &&& final(self)@ == old(self)@
                    &&& batch.messages().len() == 0 ==> step == ReadStep::Done(
                        Err(Error::SourceDisconnected),
                    )
                    &&& batch.messages().len() > 0 ==> (step matches ReadStep::Done(Ok(ms)) && ms@
                        == batch.messages())
                },
                Arrival::TimedOut => {
                    &&& final(self)@ == old(self)@
                    &&& step matches ReadStep::Done(Ok(ms)) && ms@ == batch.messages()
                },
            },
            step matches ReadStep::Wait(next) ==> next.wf(old(self).callback_url()),
            step matches ReadStep::Done(Ok(ms)) ==> ms@.len() <= batch.count() && forall|i: int|
                0 <= i < ms@.len() ==> (#[trigger] ms@[i]).is_delivered(old(self).callback_url()),
    {
        match arrival {
            Arrival::Message(wrapper) => {
                let MessageWrapper { confirm_save, message } = wrapper;
                let mut message = message;
                let mut batch = batch;
                self.tracker.insert(message.id.clone(), confirm_save);
                message.stamp(&self.callback_url);
                batch.messages.push(message);
                assert(batch.messages@.last() == message);
                Self::step_after(batch, now)
            },
            Arrival::Closed => {
                if batch.messages.len() == 0 {
                    ReadStep::Done(Err(Error::SourceDisconnected))
                } else {
                    ReadStep::Done(Ok(batch.messages))
                }
            },
            Arrival::TimedOut => ReadStep::Done(Ok(batch.messages)),
        }
    }

    /// Checks one offset and takes its signal out of the tracker.
    ///
    /// An offset that does not end with this replica's suffix is malformed,
    /// and one whose id is not tracked is unknown; neither changes the tracker.
    pub fn release(&mut self, offset: &String) -> (r: Result<Sender<()>, Error>)
        requires
            old(self).wf(),
        ensures
            final(self).wf(),
            final(self).replica() == old(self).replica(),
            final(self).callback_url() == old(self).callback_url(),
            final(self)@ == release_tracker(old(self)@, offset@, old(self).replica()),
            r == release_result(old(self)@, offset@, old(self).replica()),
    {
        let suffix = String::from_str("-").concat(decimal_string(self.vertex_replica_id).as_str());
        proof {
            reveal_strlit("-");
            assert(suffix@ =~= offset_suffix(self.vertex_replica_id));
        }
        match strip_suffix(offset.as_str(), suffix.as_str()) {
            None => Err(Error::InvalidOffsetFormat),
            Some(id) => match self.tracker.remove(&id) {
                None => {
                    assert(self@ =~= old(self)@.remove(id@));
                    Err(Error::UnknownOffset)
                },
                Some(signal) => Ok(signal),
            },
        }
    }

    /// Acknowledges `offsets` in order: each is released and its producer's
    /// signal fired. The first offset that is malformed or unknown, or whose
    /// producer is gone, ends the call with that error; what was released
    /// before stays released, and so does an offset whose producer is gone.
    pub fn ack(&mut self, offsets: Vec<String>) -> (r: Result<(), Error>)
        requires
            old(self).wf(),
        ensures
            final(self).wf(),
            final(self).replica() == old(self).replica(),
            final(self).callback_url() == old(self).callback_url(),
            exists|n: nat|
                ack_stops_at(old(self)@, offsets@, old(self).replica(), n, final(self)@, r),
    {
        let mut i: usize = 0;
        while i < offsets.len()
            invariant
                self.wf(),
                self.replica() == old(self).replica(),
                self.callback_url() == old(self).callback_url(),
                i <= offsets@.len(),
                forall|j: int| 0 <= j < i ==> releasable(old(self)@, offsets@, self.replica(), j),
                self@ == released(old(self)@, offsets@, self.replica(), i as nat),
            decreases offsets@.len() - i,
        {
            let ghost before = self@;
            match self.release(&offsets[i]) {
                Err(e) => {
                    assert(self@ =~= before);
                    assert(ack_stops_at(
                        old(self)@,
                        offsets@,
                        old(self).replica(),
                        i as nat,
                        self@,
                        Err(e),
                    ));
                    return Err(e);
                },
                Ok(signal) => {
                    assert(releasable(old(self)@, offsets@, self.replica(), i as int));
                    assert(self@ == released(old(self)@, offsets@, self.replica(), (i + 1) as nat));
                    match confirm(fire(signal)) {
                        Err(e) => {
                            assert(ack_stops_at(
                                old(self)@,
                                offsets@,
                                old(self).replica(),
                                (i + 1) as nat,
                                self@,
                                Err(e),
                            ));
                            return Err(e);
                        },
                        Ok(_) => {},
                    }
                },
            }
            i += 1;
        }
        assert(ack_stops_at(old(self)@, offsets@, old(self).replica(), i as nat, self@, Ok(())));
        Ok(())
    }

    /// Serves one request at clock reading `now`: a read is begun, an
    /// acknowledgement is carried out.
    pub fn handle_message(&mut self, actor_msg: ActorMessage, now: u64) -> (r: Handled)
        requires
            old(self).wf(),
        ensures
            final(self).wf(),
            final(self).replica() == old(self).replica(),
            final(self).callback_url() == old(self).callback_url(),
            match actor_msg {
                ActorMessage::Read { batch_size, timeout_at } => {
                    &&& final(self)@ == old(self)@
                    &&& r matches Handled::Read(step) && is_step_after(
                        step,
                        batch_size,
                        timeout_at,
                        Seq::<Message>::empty(),
                        now,
                    ) && (step matches ReadStep::Wait(batch) ==> batch.wf(
                        old(self).callback_url(),
                    ))
                },
                ActorMessage::Ack { offsets } => {
                    r matches Handled::Ack(status) && exists|n: nat|
                        ack_stops_at(
                            old(self)@,
                            offsets@,
                            old(self).replica(),
                            n,
                            final(self)@,
                            status,
                        )
                },
            },
    {
        match actor_msg {
            ActorMessage::Read { batch_size, timeout_at } => {
                let step = self.read(batch_size, timeout_at, now);
                Handled::Read(step)
            },
            ActorMessage::Ack { offsets } => {
                let status = self.ack(offsets);
                Handled::Ack(status)
            },
        }
    }
}

} // verus!
