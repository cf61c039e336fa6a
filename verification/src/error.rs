//! The error taxonomy of the two driver loops. Every variant is fatal to the
//! loop that raises it: the core retries nothing and returns the error to the
//! loop's caller.

use vstd::prelude::*;

use crate::types::{OutgoingMessage, RequestMessage};

verus! {

/// A fatal condition observed by one of the driver loops or by the request
/// state machine.
#[derive(Debug)]
pub enum Error {
    /// The subscriber's handoff receiver was dropped before the request
    /// notification could be sent; the undelivered message is attached.
    SendActionEventFailed(RequestMessage),
    /// The broadcast stream is closed, or this cursor fell unrecoverably
    /// behind it.
    NoSenderRegistered(tokio::sync::broadcast::error::RecvError),
    /// The downstream sink of outgoing messages has no receiver left; the
    /// undelivered message is attached inside the send error.
    NoHandlerRegistered(tokio::sync::mpsc::error::SendError<OutgoingMessage>),
    /// The subscriber dropped its response sender before reporting a verdict.
    ResponseListening(tokio::sync::oneshot::error::RecvError),
    /// The subscription-registration stream is permanently closed.
    SubscriptionListening,
}

} // verus!
