//! The conditions under which the broker or its handle fails.

use vstd::prelude::*;
use vstd::string::*;

verus! {

/// Why a read or an acknowledgement failed.
#[derive(Debug, Clone, Copy, PartialEq, Eq, Structural)]
pub enum Error {
    /// The inbound queue was closed and the read had collected nothing.
    SourceDisconnected,
    /// An offset does not end with the suffix of this replica.
    InvalidOffsetFormat,
    /// No delivered, unacknowledged message has the offset's id.
    UnknownOffset,
    /// The producer that waited for the message had already given up.
    CompletionSignalLost,
    /// The broker stopped before it answered a request.
    ActorTerminated,
}

/// The sentence that describes each error.
pub open spec fn error_text(e: Error) -> Seq<char> {
    match e {
        Error::SourceDisconnected => "Sending half of the Serving channel has disconnected"@,
        Error::InvalidOffsetFormat => "offset does not end with the replica suffix"@,
        Error::UnknownOffset => "offset was not found in the tracker"@,
        Error::CompletionSignalLost => "Sending on confirm_save channel failed"@,
        Error::ActorTerminated => "the actor task has terminated"@,
    }
}

impl Error {
    /// A sentence for logs.
    pub fn message(&self) -> (text: String)
        ensures
            text@ == error_text(*self),
    {
        match self {
            Error::SourceDisconnected => String::from_str(
                "Sending half of the Serving channel has disconnected",
            ),
            Error::InvalidOffsetFormat => String::from_str(
                "offset does not end with the replica suffix",
            ),
            Error::UnknownOffset => String::from_str("offset was not found in the tracker"),
            Error::CompletionSignalLost => String::from_str(
                "Sending on confirm_save channel failed",
            ),
            Error::ActorTerminated => String::from_str("the actor task has terminated"),
        }
    }
}

} // verus!
