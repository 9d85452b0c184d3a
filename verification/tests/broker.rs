use bytes::Bytes;
use serving::actor::{ActorMessage, Arrival, Handled, ReadStep, ServingSourceActor};
use serving::error::Error;
use serving::message::{
    Message, MessageWrapper, DEFAULT_CALLBACK_URL_HEADER_KEY, DEFAULT_ID_HEADER,
};
use serving::source::ServingSource;
use tokio::sync::mpsc;
use tokio::sync::oneshot;

const URL: &str = "https://localhost:2444/v1/process/callback";

fn actor(replica: u16) -> ServingSourceActor {
    ServingSourceActor::new(replica, URL.to_string())
}

fn wrapper(id: &str, payload: &'static [u8]) -> (MessageWrapper, oneshot::Receiver<()>) {
    let (tx, rx) = oneshot::channel();
    let message = Message::new(Bytes::from_static(payload), id.to_string());
    (MessageWrapper { confirm_save: tx, message }, rx)
}

fn waiting(step: ReadStep) -> serving::actor::ReadBatch {
    match step {
        ReadStep::Wait(batch) => batch,
        ReadStep::Done(_) => panic!("the read is over"),
    }
}

fn finished(step: ReadStep) -> Result<Vec<Message>, Error> {
    match step {
        ReadStep::Done(result) => result,
        ReadStep::Wait(_) => panic!("the read goes on"),
    }
}

/// Delivers one message with this id and returns the producer's end.
fn deliver(actor: &mut ServingSourceActor, id: &str) -> oneshot::Receiver<()> {
    let batch = waiting(actor.read(1, 100, 0));
    let (w, rx) = wrapper(id, b"x");
    let messages = finished(actor.read_next(batch, Arrival::Message(w), 1)).unwrap();
    assert_eq!(messages.len(), 1);
    rx
}

#[test]
fn test_serving_source() {
    let source = ServingSource::new(10, 1_000_000);
    let mut actor = ServingSourceActor::start("localhost", 2444, 0);
    let request = source.read_request(0);
    let step = match actor.handle_message(request, 0) {
        Handled::Read(step) => step,
        Handled::Ack(_) => panic!("a read was asked for"),
    };
    let batch = waiting(step);
    let (w, mut rx) = wrapper("req-1", b"test-payload");
    let batch = waiting(actor.read_next(batch, Arrival::Message(w), 10));
    let reply = finished(actor.read_next(batch, Arrival::TimedOut, 1_000_000));
    let mut messages = source.read_messages(Some(reply)).unwrap();
    assert_eq!(messages.len(), 1);
    let msg = messages.remove(0);
    assert_eq!(&msg.value[..], b"test-payload");
    let status = match actor.handle_message(source.ack_request(vec![format!("{}-0", msg.id)]), 20) {
        Handled::Ack(status) => status,
        Handled::Read(_) => panic!("an acknowledgement was asked for"),
    };
    assert_eq!(source.ack_messages(Some(status)), Ok(()));
    assert_eq!(rx.try_recv(), Ok(()));
}

#[test]
fn read_returns_what_arrived_when_the_deadline_passes() {
    let mut actor = actor(0);
    let mut batch = waiting(actor.read(10, 50_000_000, 0));
    assert_eq!(batch.deadline(), 50_000_000);
    let mut receivers = Vec::new();
    for (i, id) in ["a", "b", "c"].iter().enumerate() {
        let (w, rx) = wrapper(id, b"p");
        receivers.push(rx);
        batch = waiting(actor.read_next(batch, Arrival::Message(w), 1_000_000 * (i as u64 + 1)));
    }
    assert_eq!(batch.len(), 3);
    let messages = finished(actor.read_next(batch, Arrival::TimedOut, 50_000_000)).unwrap();
    let ids: Vec<&str> = messages.iter().map(|m| m.id.as_str()).collect();
    assert_eq!(ids, vec!["a", "b", "c"]);
    assert_eq!(actor.pending(), 3);
}

#[test]
fn read_stops_at_the_batch_size() {
    let mut actor = actor(0);
    let batch = waiting(actor.read(2, 1000, 0));
    let (w1, _r1) = wrapper("a", b"1");
    let (w2, _r2) = wrapper("b", b"2");
    let batch = waiting(actor.read_next(batch, Arrival::Message(w1), 1));
    let messages = finished(actor.read_next(batch, Arrival::Message(w2), 2)).unwrap();
    assert_eq!(messages.len(), 2);
    assert_eq!(messages[0].id, "a");
    assert_eq!(messages[1].id, "b");
}

#[test]
fn read_of_nothing_is_over_at_once() {
    let actor = actor(0);
    assert_eq!(finished(actor.read(0, 1000, 0)).unwrap().len(), 0);
}

#[test]
fn read_past_its_deadline_is_over_at_once() {
    let actor = actor(0);
    assert_eq!(finished(actor.read(5, 1000, 1000)).unwrap().len(), 0);
    assert_eq!(finished(actor.read(5, 1000, 2000)).unwrap().len(), 0);
    assert_eq!(waiting(actor.read(5, 1000, 999)).len(), 0);
}

#[test]
fn read_ends_when_a_message_arrives_at_the_deadline() {
    let mut actor = actor(0);
    let batch = waiting(actor.read(5, 1000, 0));
    let (w, _rx) = wrapper("late", b"1");
    let messages = finished(actor.read_next(batch, Arrival::Message(w), 1000)).unwrap();
    assert_eq!(messages.len(), 1);
}

#[test]
fn delivered_messages_carry_both_headers() {
    let mut actor = actor(0);
    let batch = waiting(actor.read(1, 1000, 0));
    let (mut w, _rx) = wrapper("abc", b"payload");
    w.message.headers.insert("content-type".to_string(), "text/plain".to_string());
    w.message.headers.insert(DEFAULT_ID_HEADER.to_string(), "forged".to_string());
    let messages = finished(actor.read_next(batch, Arrival::Message(w), 1)).unwrap();
    let m = &messages[0];
    assert_eq!(m.id, "abc");
    assert_eq!(&m.value[..], b"payload");
    assert_eq!(m.headers.len(), 3);
    assert_eq!(
        m.headers.get(&DEFAULT_CALLBACK_URL_HEADER_KEY.to_string()),
        Some(&URL.to_string())
    );
    assert_eq!(m.headers.get(&DEFAULT_ID_HEADER.to_string()), Some(&"abc".to_string()));
    assert_eq!(m.headers.get(&"content-type".to_string()), Some(&"text/plain".to_string()));
    assert_eq!(DEFAULT_ID_HEADER, "X-Numaflow-Id");
    assert_eq!(DEFAULT_CALLBACK_URL_HEADER_KEY, "X-Numaflow-Callback-Url");
}

#[test]
fn closed_queue_with_nothing_collected_is_a_disconnect() {
    let mut actor = actor(0);
    let batch = waiting(actor.read(3, 1000, 0));
    assert_eq!(
        finished(actor.read_next(batch, Arrival::Closed, 1)).unwrap_err(),
        Error::SourceDisconnected
    );
}

#[test]
fn closed_queue_after_some_messages_returns_them() {
    let mut actor = actor(0);
    let batch = waiting(actor.read(3, 1000, 0));
    let (w, _rx) = wrapper("a", b"1");
    let batch = waiting(actor.read_next(batch, Arrival::Message(w), 1));
    let messages = finished(actor.read_next(batch, Arrival::Closed, 2)).unwrap();
    assert_eq!(messages.len(), 1);
    assert_eq!(messages[0].id, "a");
    // the next read meets the closed queue with nothing collected
    let batch = waiting(actor.read(3, 2000, 3));
    assert_eq!(
        finished(actor.read_next(batch, Arrival::Closed, 4)).unwrap_err(),
        Error::SourceDisconnected
    );
}

#[test]
fn ack_releases_the_producer_once() {
    let mut actor = actor(2);
    let mut rx = deliver(&mut actor, "abc");
    assert!(actor.is_tracked(&"abc".to_string()));
    assert!(rx.try_recv().is_err());
    assert_eq!(actor.ack(vec!["abc-2".to_string()]), Ok(()));
    assert_eq!(rx.try_recv(), Ok(()));
    assert!(!actor.is_tracked(&"abc".to_string()));
    assert_eq!(actor.pending(), 0);
    assert_eq!(actor.ack(vec!["abc-2".to_string()]), Err(Error::UnknownOffset));
}

#[test]
fn ack_without_suffix_is_malformed() {
    let mut actor = actor(2);
    let mut rx = deliver(&mut actor, "abc");
    assert_eq!(actor.ack(vec!["abc".to_string()]), Err(Error::InvalidOffsetFormat));
    assert_eq!(actor.ack(vec!["abc-1".to_string()]), Err(Error::InvalidOffsetFormat));
    assert_eq!(actor.ack(vec!["abc-22".to_string()]), Err(Error::InvalidOffsetFormat));
    assert_eq!(actor.ack(vec!["abc2".to_string()]), Err(Error::InvalidOffsetFormat));
    assert_eq!(actor.ack(vec!["".to_string()]), Err(Error::InvalidOffsetFormat));
    assert!(actor.is_tracked(&"abc".to_string()));
    assert!(rx.try_recv().is_err());
}

#[test]
fn ack_of_an_undelivered_id_is_unknown() {
    let mut actor = actor(2);
    let _rx = deliver(&mut actor, "abc");
    assert_eq!(actor.ack(vec!["abd-2".to_string()]), Err(Error::UnknownOffset));
    assert_eq!(actor.ack(vec!["-2".to_string()]), Err(Error::UnknownOffset));
    assert_eq!(actor.pending(), 1);
}

#[test]
fn ack_of_nothing_succeeds() {
    let mut actor = actor(2);
    assert_eq!(actor.ack(Vec::new()), Ok(()));
}

#[test]
fn ack_stops_at_the_first_failure_and_keeps_what_it_did() {
    let mut actor = actor(0);
    let mut ra = deliver(&mut actor, "a");
    let mut rb = deliver(&mut actor, "b");
    let offsets = vec!["a-0".to_string(), "bad".to_string(), "b-0".to_string()];
    assert_eq!(actor.ack(offsets), Err(Error::InvalidOffsetFormat));
    assert_eq!(ra.try_recv(), Ok(()));
    assert!(rb.try_recv().is_err());
    assert!(!actor.is_tracked(&"a".to_string()));
    assert!(actor.is_tracked(&"b".to_string()));
}

#[test]
fn ack_for_a_producer_that_gave_up_consumes_the_entry() {
    let mut actor = actor(0);
    let rx = deliver(&mut actor, "gone");
    let _rb = deliver(&mut actor, "b");
    drop(rx);
    assert_eq!(
        actor.ack(vec!["gone-0".to_string(), "b-0".to_string()]),
        Err(Error::CompletionSignalLost)
    );
    assert!(!actor.is_tracked(&"gone".to_string()));
    assert!(actor.is_tracked(&"b".to_string()));
    assert_eq!(actor.ack(vec!["gone-0".to_string()]), Err(Error::UnknownOffset));
}

#[test]
fn release_hands_out_the_tracked_signal() {
    let mut actor = actor(7);
    let mut rx = deliver(&mut actor, "m-1");
    let signal = actor.release(&"m-1-7".to_string()).unwrap();
    assert!(!actor.is_tracked(&"m-1".to_string()));
    assert!(rx.try_recv().is_err());
    assert_eq!(serving::actor::confirm(signal.send(())), Ok(()));
    assert_eq!(rx.try_recv(), Ok(()));
    assert_eq!(actor.release(&"m-1-7".to_string()).unwrap_err(), Error::UnknownOffset);
    assert_eq!(actor.release(&"m-1".to_string()).unwrap_err(), Error::InvalidOffsetFormat);
    assert_eq!(serving::actor::confirm(Err(())), Err(Error::CompletionSignalLost));
}

#[test]
fn a_reused_id_replaces_the_tracked_signal() {
    let mut actor = actor(0);
    let mut first = deliver(&mut actor, "dup");
    let mut second = deliver(&mut actor, "dup");
    assert_eq!(actor.pending(), 1);
    // the first producer's sender was dropped with the replaced entry
    assert!(matches!(first.try_recv(), Err(oneshot::error::TryRecvError::Closed)));
    assert_eq!(actor.ack(vec!["dup-0".to_string()]), Ok(()));
    assert_eq!(second.try_recv(), Ok(()));
}

#[test]
fn start_builds_the_callback_address() {
    let actor = ServingSourceActor::start("10.0.0.7", 2444, 3);
    assert_eq!(actor.callback(), "https://10.0.0.7:2444/v1/process/callback");
    assert_eq!(actor.pending(), 0);
    let actor = ServingSourceActor::start("localhost", 0, 3);
    assert_eq!(actor.callback(), "https://localhost:0/v1/process/callback");
}

#[test]
fn handle_forms_requests_and_reads_replies() {
    let source = ServingSource::new(10, 50);
    assert_eq!(source.batch_size(), 10);
    assert_eq!(source.timeout(), 50);
    assert_eq!(source.channel_capacity(), Some(20));
    assert_eq!(ServingSource::new(usize::MAX, 1).channel_capacity(), None);
    assert_eq!(ServingSource::new(usize::MAX / 2, 1).channel_capacity(), Some(usize::MAX - 1));
    match source.read_request(7) {
        ActorMessage::Read { batch_size, timeout_at } => {
            assert_eq!(batch_size, 10);
            assert_eq!(timeout_at, 57);
        }
        ActorMessage::Ack { .. } => panic!("a read was asked for"),
    }
    match source.ack_request(vec!["a-0".to_string()]) {
        ActorMessage::Ack { offsets } => assert_eq!(offsets, vec!["a-0".to_string()]),
        ActorMessage::Read { .. } => panic!("an acknowledgement was asked for"),
    }
    assert_eq!(source.read_messages(None).unwrap_err(), Error::ActorTerminated);
    assert_eq!(
        source.read_messages(Some(Err(Error::SourceDisconnected))).unwrap_err(),
        Error::SourceDisconnected
    );
    assert_eq!(source.read_messages(Some(Ok(Vec::new()))).unwrap().len(), 0);
    assert_eq!(source.ack_messages(None), Err(Error::ActorTerminated));
    assert_eq!(source.ack_messages(Some(Ok(()))), Ok(()));
    assert_eq!(
        source.ack_messages(Some(Err(Error::UnknownOffset))),
        Err(Error::UnknownOffset)
    );
}

#[test]
fn full_inbound_queue_holds_producers_back() {
    let capacity = ServingSource::new(2, 50).channel_capacity().unwrap();
    assert_eq!(capacity, 4);
    let (tx, mut queue) = mpsc::channel::<MessageWrapper>(capacity);
    let mut accepted = 0;
    let mut held_back = Vec::new();
    for i in 0..10 {
        let (w, _rx) = wrapper(&format!("p{}", i), b"x");
        match tx.try_send(w) {
            Ok(()) => accepted += 1,
            Err(mpsc::error::TrySendError::Full(w)) => held_back.push(w),
            Err(mpsc::error::TrySendError::Closed(_)) => panic!("the queue is open"),
        }
    }
    assert_eq!(accepted, 4);
    assert_eq!(held_back.len(), 6);
    // consuming one message frees room for one producer
    assert_eq!(queue.try_recv().unwrap().message.id, "p0");
    assert!(tx.try_send(held_back.remove(0)).is_ok());
    assert!(tx.try_send(held_back.remove(0)).is_err());
}

#[test]
fn errors_have_messages() {
    assert_eq!(
        Error::SourceDisconnected.message(),
        "Sending half of the Serving channel has disconnected"
    );
    assert_eq!(Error::UnknownOffset.message(), "offset was not found in the tracker");
    assert_ne!(Error::InvalidOffsetFormat.message(), Error::CompletionSignalLost.message());
    assert_ne!(Error::ActorTerminated.message(), "");
}
