//! The message vocabulary shared by the two consumer loops: events arriving
//! on the broadcast stream, responses produced for the downstream sinks, and
//! the internal handoff messages exchanged with a subscriber.

use vstd::prelude::*;

verus! {

/// An unsolicited event arriving on the shared broadcast stream.
#[derive(Clone, Debug, PartialEq, Eq)]
pub enum IncomingMessage {
    /// A request to perform the (single) action.
    ActionRequest,
    /// A liveness challenge carrying a nonce that must be echoed back.
    Challenge(u64),
}

/// A response produced by the core for a downstream sink.
#[derive(Clone, Debug, PartialEq, Eq)]
pub enum OutgoingMessage {
    /// The requested action was carried out.
    ActionCompleted,
    /// The requested action was attempted and failed.
    ActionFailed,
    /// The echo of a liveness challenge, carrying the unchanged nonce.
    ChallengeResponse(u64),
}

/// A subscriber's verdict on one action request, sent exactly once through
/// the handoff channel it received.
#[derive(Clone, Copy, Debug, PartialEq, Eq, Hash)]
pub enum ResponseMessage {
    /// The action was completed successfully.
    Completed,
    /// The action failed.
    Failed,
}

/// The internal notification delivered to a subscriber when an action
/// request is served. It carries the single-use sender through which the
/// subscriber must report its verdict exactly once.
#[derive(Debug)]
pub enum RequestMessage {
    /// A request for an action was received; answer on `response_tx`.
    ActionRequest { response_tx: tokio::sync::oneshot::Sender<ResponseMessage> },
}

/// A registration token: the single-use sender on which the coordinator will
/// notify the registering subscriber of the next action request.
#[derive(Debug)]
pub struct Subscription(pub tokio::sync::oneshot::Sender<RequestMessage>);

} // verus!
