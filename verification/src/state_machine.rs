//! The typestate request/response machine. Each protocol state is its own
//! type, and every transition consumes the machine and returns the next
//! state's machine, so the only expressible call order is
//! Idle → Active → ActionPending → Idle. Calling `handle_request` before a
//! subscription exists, or awaiting a response before a request was handled,
//! is a type error, not a runtime condition.

use vstd::prelude::*;

use crate::error::Error;
use crate::types::{OutgoingMessage, RequestMessage, ResponseMessage};

verus! {

/// Idle state: no cycle is in flight and no resources are held.
#[derive(Debug, PartialEq, Eq)]
#[verifier::ext_equal]
pub struct Idle;

/// Active state: holds the single-use sender on which the subscribed entity
/// will be notified of one action request.
#[derive(Debug)]
pub struct Active(tokio::sync::oneshot::Sender<RequestMessage>);

/// ActionPending state: holds the single-use receiver on which the notified
/// subscriber will report its verdict.
#[derive(Debug)]
pub struct ActionPending(tokio::sync::oneshot::Receiver<ResponseMessage>);

/// An actor which serves action requests, parametric over its current
/// protocol state.
#[derive(Debug, PartialEq, Eq)]
#[verifier::ext_equal]
pub struct MessageHandler<State> {
    state: State,
}

impl MessageHandler<Idle> {
    /// The sole value an idle machine can have: `Idle` holds no data, so
    /// every idle machine equals this one.
    pub closed spec fn spec_default() -> MessageHandler<Idle> {
        MessageHandler { state: Idle }
    }

    /// Subscribing on an idle handler yields an active handler that will
    /// notify the subscriber of the next action request on the given sender.
    pub fn subscribe(
        self,
        notification_tx: tokio::sync::oneshot::Sender<RequestMessage>,
    ) -> (r: MessageHandler<Active>)
        ensures
            r.notify_sender() == notification_tx,
    {
        MessageHandler { state: Active(notification_tx) }
    }
}

/// Every idle machine is the default one: the idle state holds nothing, so a
/// machine handed back by a finished cycle is indistinguishable from a fresh
/// one, and a new cycle can begin on it at once.
pub proof fn lemma_idle_machines_equal(a: MessageHandler<Idle>, b: MessageHandler<Idle>)
    ensures
        a == b,
        a == MessageHandler::<Idle>::spec_default(),
{
    assert(a =~= b);
    assert(a =~= MessageHandler::<Idle>::spec_default());
}

/// The initial state.
impl Default for MessageHandler<Idle> {
    fn default() -> (r: Self)
        ensures
            r == MessageHandler::<Idle>::spec_default(),
    {
        MessageHandler { state: Idle }
    }
}

impl MessageHandler<Active> {
    /// The single-use sender this active machine will notify the subscriber
    /// on.
    pub closed spec fn notify_sender(self) -> tokio::sync::oneshot::Sender<RequestMessage> {
        self.state.0
    }

    /// Notifies the subscriber of an action request, handing it the sending
    /// half of a fresh single-use response channel, and keeps the receiving
    /// half to await the verdict on. When the subscriber's receiver is
    /// already gone the undelivered notification comes back inside
    /// `SendActionEventFailed`; no other error is possible.
    pub fn handle_request(self) -> (r: Result<MessageHandler<ActionPending>, Error>)
        ensures
            r matches Err(e) ==> e matches Error::SendActionEventFailed(m) && m is ActionRequest,
    {
        let sender = self.state.0;
        let (response_tx, response_rx) = tokio::sync::oneshot::channel();
        match sender.send(RequestMessage::ActionRequest { response_tx }) {
            Ok(()) => Ok(MessageHandler { state: ActionPending(response_rx) }),
            Err(message) => Err(Error::SendActionEventFailed(message)),
        }
    }
}

/// The outgoing message owed for a subscriber's verdict. Completion maps to
/// `ActionCompleted` and failure to `ActionFailed`.
pub open spec fn spec_outcome(response: ResponseMessage) -> OutgoingMessage {
    match response {
        ResponseMessage::Completed => OutgoingMessage::ActionCompleted,
        ResponseMessage::Failed => OutgoingMessage::ActionFailed,
    }
}

/// A verdict owes exactly one outgoing message: `ActionCompleted` is owed
/// for completion and nothing else, `ActionFailed` for failure and nothing
/// else, and no cycle ever owes a challenge response.
pub proof fn lemma_outcome_exact(response: ResponseMessage)
    ensures
        (spec_outcome(response) == OutgoingMessage::ActionCompleted)
            == (response == ResponseMessage::Completed),
        (spec_outcome(response) == OutgoingMessage::ActionFailed)
            == (response == ResponseMessage::Failed),
        !(spec_outcome(response) is ChallengeResponse),
{
}

/// Turns the outcome of one awaited response into the outgoing message owed
/// for it: `Completed` yields `ActionCompleted`, `Failed` yields
/// `ActionFailed`, and a dropped response sender yields `ResponseListening`
/// carrying the receive error.
pub fn response_outcome(
    response: Result<ResponseMessage, tokio::sync::oneshot::error::RecvError>,
) -> (r: Result<OutgoingMessage, Error>)
    ensures
        response matches Ok(m) ==> r == Ok::<OutgoingMessage, Error>(spec_outcome(m)),
        response matches Err(e) ==> r == Err::<OutgoingMessage, Error>(Error::ResponseListening(e)),
{
    match response {
        Ok(ResponseMessage::Completed) => Ok(OutgoingMessage::ActionCompleted),
        Ok(ResponseMessage::Failed) => Ok(OutgoingMessage::ActionFailed),
        Err(e) => Err(Error::ResponseListening(e)),
    }
}

impl MessageHandler<ActionPending> {
    /// Waits for the subscriber's verdict and maps it through
    /// `response_outcome`. Whatever the outcome — success, failure, or a
    /// dropped response sender — the machine self-heals: the second component
    /// is always a fresh default idle machine, ready for the next cycle.
    pub fn until_request_message(self) -> (r: (Result<OutgoingMessage, Error>, MessageHandler<Idle>))
        ensures
            r.1 == MessageHandler::<Idle>::spec_default(),
            r.0 matches Ok(m) ==> (m == OutgoingMessage::ActionCompleted
                || m == OutgoingMessage::ActionFailed),
            r.0 matches Err(e) ==> e is ResponseListening,
    {
        let rx = self.state.0;
        let response = rx.blocking_recv();
        (response_outcome(response), MessageHandler::default())
    }
}

} // verus!
