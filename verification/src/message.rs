//! The unit of data that the broker hands to the consumer, and the form in
//! which a producer enqueues it.

use crate::string_map::StringMap;
use bytes::Bytes;
use tokio::sync::oneshot::Sender;
use vstd::prelude::*;
use vstd::string::*;

verus! {

/// `bytes::Bytes`, a payload that the broker carries and never reads.
#[verifier::external_type_specification]
#[verifier::external_body]
pub struct ExBytes(bytes::Bytes);

/// `tokio::sync::oneshot::Sender`, the sending end of a single-use channel.
#[verifier::external_type_specification]
#[verifier::external_body]
#[verifier::reject_recursive_types(T)]
pub struct ExSender<T>(tokio::sync::oneshot::Sender<T>);

/// The header under which a delivered message carries the callback address.
pub const DEFAULT_CALLBACK_URL_HEADER_KEY: &'static str = "X-Numaflow-Callback-Url";

/// The header under which a delivered message carries its own id.
pub const DEFAULT_ID_HEADER: &'static str = "X-Numaflow-Id";

/// The two header names differ, so neither stamp overwrites the other.
pub proof fn lemma_header_names_differ()
    ensures
        DEFAULT_CALLBACK_URL_HEADER_KEY@ != DEFAULT_ID_HEADER@,
{
    reveal_strlit("X-Numaflow-Callback-Url");
    reveal_strlit("X-Numaflow-Id");
    assert(DEFAULT_CALLBACK_URL_HEADER_KEY@.len() == 23);
    assert(DEFAULT_ID_HEADER@.len() == 13);
}

/// A payload with the id that its producer gave it and its headers.
#[derive(Debug)]
pub struct Message {
    pub value: Bytes,
    pub id: String,
    pub headers: StringMap<String>,
}

/// A message together with the signal that tells its producer that the
/// message has been acknowledged.
pub struct MessageWrapper {
    pub confirm_save: Sender<()>,
    pub message: Message,
}

/// The headers of a message with id `id` once both stamps are on it.
pub open spec fn stamped_headers(
    headers: Map<Seq<char>, String>,
    callback_url: String,
    id: String,
) -> Map<Seq<char>, String> {
    headers.insert(DEFAULT_CALLBACK_URL_HEADER_KEY@, callback_url).insert(DEFAULT_ID_HEADER@, id)
}

impl Message {
    /// The headers are a valid map.
    pub open spec fn wf(&self) -> bool {
        self.headers.wf()
    }

    /// The message carries the callback address `callback_url` and its own id,
    /// each under its header.
    pub open spec fn is_delivered(&self, callback_url: String) -> bool {
        &&& self.wf()
        &&& self.headers@.dom().contains(DEFAULT_CALLBACK_URL_HEADER_KEY@)
        &&& self.headers@[DEFAULT_CALLBACK_URL_HEADER_KEY@] == callback_url
        &&& self.headers@.dom().contains(DEFAULT_ID_HEADER@)
        &&& self.headers@[DEFAULT_ID_HEADER@] == self.id
    }

    /// `self` is `before` with both stamps set and nothing else changed.
    pub open spec fn is_stamped_from(&self, before: Message, callback_url: String) -> bool {
        &&& self.wf()
        &&& self.value == before.value
        &&& self.id == before.id
        &&& self.headers@ == stamped_headers(before.headers@, callback_url, before.id)
    }

    /// A message without headers.
    pub fn new(value: Bytes, id: String) -> (m: Message)
        ensures
            m.wf(),
            m.value == value,
            m.id == id,
            m.headers@ == Map::<Seq<char>, String>::empty(),
    {
        Message { value, id, headers: StringMap::new() }
    }

    /// Sets the callback-address header to `callback_url` and the id header to
    /// the message's id.
    pub fn stamp(&mut self, callback_url: &String)
        requires
            old(self).wf(),
        ensures
            final(self).is_stamped_from(*old(self), *callback_url),
            final(self).is_delivered(*callback_url),
    {
        proof {
            lemma_header_names_differ();
        }
        self.headers.insert(String::from_str(DEFAULT_CALLBACK_URL_HEADER_KEY), callback_url.clone());
        self.headers.insert(String::from_str(DEFAULT_ID_HEADER), self.id.clone());
    }
}

} // verus!
