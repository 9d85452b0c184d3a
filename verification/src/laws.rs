//! What holds of the broker across calls, proved from the contracts of its
//! functions.

use crate::actor::{
    ack_stops_at, is_offset_of, is_step_after, offset_id, releasable, release_result,
    release_tracker, released, ReadStep,
};
use crate::error::Error;
use crate::message::{
    lemma_header_names_differ, Message, DEFAULT_CALLBACK_URL_HEADER_KEY, DEFAULT_ID_HEADER,
};
use tokio::sync::oneshot::Sender;
use vstd::prelude::*;

verus! {

/// A read never returns more messages than it was asked for: whatever it holds
/// when it stops, having held no more than `count` before, is at most `count`
/// messages, and a read that goes on holds fewer than `count`.
pub proof fn lemma_batch_bound(
    step: ReadStep,
    count: usize,
    timeout_at: u64,
    messages: Seq<Message>,
    now: u64,
)
    requires
        is_step_after(step, count, timeout_at, messages, now),
        messages.len() <= count,
    ensures
        step matches ReadStep::Done(Ok(batch)) ==> batch@.len() <= count,
        step matches ReadStep::Wait(batch) ==> batch.messages().len() < count,
{
}

/// A read does not wait once its deadline has come: at a clock reading at or
/// past the deadline it is over, with the messages it holds.
pub proof fn lemma_deadline_ends_read(
    step: ReadStep,
    count: usize,
    timeout_at: u64,
    messages: Seq<Message>,
    now: u64,
)
    requires
        is_step_after(step, count, timeout_at, messages, now),
        now >= timeout_at,
    ensures
        step matches ReadStep::Done(Ok(batch)) && batch@ == messages,
{
}

/// A stamped message carries the callback address under the one header and
/// its own id under the other, and its other headers are those it had.
pub proof fn lemma_stamped_is_delivered(before: Message, after: Message, callback_url: String)
    requires
        after.is_stamped_from(before, callback_url),
    ensures
        after.is_delivered(callback_url),
        after.headers@[DEFAULT_ID_HEADER@] == after.id,
        forall|k: Seq<char>|
            k != DEFAULT_CALLBACK_URL_HEADER_KEY@ && k != DEFAULT_ID_HEADER@ ==> (
            after.headers@.dom().contains(k) <==> before.headers@.dom().contains(k)),
        forall|k: Seq<char>|
            k != DEFAULT_CALLBACK_URL_HEADER_KEY@ && k != DEFAULT_ID_HEADER@
                && before.headers@.dom().contains(k) ==> after.headers@[k] == before.headers@[k],
{
    lemma_header_names_differ();
}

/// Releasing an offset of this replica whose id is tracked hands out the
/// signal tracked under that id and removes that entry and no other; releasing
/// the same offset again fails as unknown and changes nothing.
pub proof fn lemma_release_once(tracker: Map<Seq<char>, Sender<()>>, offset: Seq<char>, replica: u16)
    requires
        is_offset_of(offset, replica),
        tracker.dom().contains(offset_id(offset, replica)),
    ensures
        release_result(tracker, offset, replica) == Ok::<Sender<()>, Error>(
            tracker[offset_id(offset, replica)],
        ),
        release_tracker(tracker, offset, replica) == tracker.remove(offset_id(offset, replica)),
        forall|id: Seq<char>|
            id != offset_id(offset, replica) ==> (release_tracker(
                tracker,
                offset,
                replica,
            ).dom().contains(id) <==> tracker.dom().contains(id)),
        tracker.dom().finite() ==> release_tracker(tracker, offset, replica).dom().len()
            == tracker.dom().len() - 1,
        release_result(release_tracker(tracker, offset, replica), offset, replica) == Err::<
            Sender<()>,
            Error,
        >(Error::UnknownOffset),
        release_tracker(release_tracker(tracker, offset, replica), offset, replica)
            == release_tracker(tracker, offset, replica),
{
    let id = offset_id(offset, replica);
    assert(tracker.remove(id).remove(id) =~= tracker.remove(id));
}

/// Acknowledging one offset of this replica whose id is tracked removes that
/// entry and no other, and ends well or with the producer's signal lost;
/// acknowledging it once more fails as unknown and leaves the tracker as it
/// was.
pub proof fn lemma_ack_twice(
    before: Map<Seq<char>, Sender<()>>,
    offset: String,
    replica: u16,
    n1: nat,
    between: Map<Seq<char>, Sender<()>>,
    r1: Result<(), Error>,
    n2: nat,
    after: Map<Seq<char>, Sender<()>>,
    r2: Result<(), Error>,
)
    requires
        is_offset_of(offset@, replica),
        before.dom().contains(offset_id(offset@, replica)),
        ack_stops_at(before, seq![offset], replica, n1, between, r1),
        ack_stops_at(between, seq![offset], replica, n2, after, r2),
    ensures
        between == before.remove(offset_id(offset@, replica)),
        r1 is Ok || r1 == Err::<(), Error>(Error::CompletionSignalLost),
        r2 == Err::<(), Error>(Error::UnknownOffset),
        after == between,
{
    let offsets = seq![offset];
    let id = offset_id(offset@, replica);
    assert(offsets[0] == offset);
    assert(released(before, offsets, replica, 0) == before);
    if n1 == 0 {
        assert(false);
    }
    assert(n1 == 1);
    assert(released(before, offsets, replica, 1) == before.remove(id));
    assert(released(between, offsets, replica, 0) == between);
    if n2 >= 1 {
        assert(releasable(between, offsets, replica, 0));
        assert(false);
    }
}

/// An acknowledgement never gets past an offset that lacks this replica's
/// suffix: it releases only offsets before it. If that offset is the first of
/// the call, the call fails as malformed and leaves the tracker untouched.
pub proof fn lemma_malformed_offset_stops_ack(
    before: Map<Seq<char>, Sender<()>>,
    offsets: Seq<String>,
    replica: u16,
    k: int,
    n: nat,
    after: Map<Seq<char>, Sender<()>>,
    r: Result<(), Error>,
)
    requires
        0 <= k < offsets.len(),
        !is_offset_of(offsets[k]@, replica),
        ack_stops_at(before, offsets, replica, n, after, r),
    ensures
        n <= k,
        r is Err,
        k == 0 ==> r == Err::<(), Error>(Error::InvalidOffsetFormat) && after == before,
        release_result(after, offsets[k]@, replica) == Err::<Sender<()>, Error>(
            Error::InvalidOffsetFormat,
        ),
        release_tracker(after, offsets[k]@, replica) == after,
{
    if n > k {
        assert(releasable(before, offsets, replica, k));
        assert(false);
    }
}

} // verus!
