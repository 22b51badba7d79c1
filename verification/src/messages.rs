//! Wire-level values of the control plane: requests arriving on a channel,
//! the responses and events the channel emits back, and the messages carried
//! by the engine's task mailbox.

use vstd::prelude::*;

verus! {

/// Reason code attached to the completion event that ends a speak cycle.
///
/// Resource failure and producer disconnection surface with the same cause as
/// an ordinary end of audio: the pull path does not distinguish them.
#[derive(Clone, Copy, Debug, PartialEq, Eq)]
pub enum CompletionCause {
    Normal,
}

/// The verb of a control request.
#[derive(Clone, Copy, Debug, PartialEq, Eq)]
pub enum RequestKind {
    Speak,
    Stop,
    Pause,
    Resume,
    BargeIn,
    /// A verb the dispatcher does not recognize.
    Other,
}

/// One control request. `id` identifies the request so that the one response
/// (or deferred event) it owes can be tied back to it.
#[derive(Clone, Copy, Debug, PartialEq, Eq)]
pub struct Request {
    pub id: u64,
    pub kind: RequestKind,
}

/// Status of a response message.
#[derive(Clone, Copy, Debug, PartialEq, Eq)]
pub enum ResponseKind {
    /// The request was accepted and work continues (a speak in progress).
    InProgress,
    /// The request was carried out.
    Success,
    /// The request was rejected.
    MethodFailed,
}

/// One response message, owed to exactly one request.
#[derive(Clone, Copy, Debug, PartialEq, Eq)]
pub struct Response {
    pub request_id: u64,
    pub kind: ResponseKind,
}

/// The completion event that ends a speak cycle, tied to the speak request.
#[derive(Clone, Copy, Debug, PartialEq, Eq)]
pub struct Event {
    pub request_id: u64,
    pub cause: CompletionCause,
}

/// One message on the engine's serialized task mailbox.
#[derive(Clone, Copy, Debug, PartialEq, Eq)]
pub enum TaskMsg {
    OpenChannel,
    CloseChannel,
    RequestProcess(Request),
}

} // verus!
