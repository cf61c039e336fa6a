//! The action-request coordinator: it pairs exactly one subscription with
//! exactly one action-request broadcast event, drives the request state
//! machine through one full cycle, forwards the outcome downstream, and
//! resumes on the freshly reset machine. `step` serves one blocking event per
//! call; a caller repeats it indefinitely, stopping at the first (fatal)
//! error. Because the machine is threaded linearly through the coordinator,
//! at most one cycle is ever in flight.

use vstd::prelude::*;

use crate::error::Error;
use crate::state_machine::{Active, Idle, MessageHandler};
use crate::types::{IncomingMessage, OutgoingMessage, Subscription};

verus! {

/// The coordinator's position between two blocking waits: either no
/// subscriber is registered yet and the machine is idle, or a subscriber is
/// registered and the coordinator is waiting for an action-request event.
#[derive(Debug)]
pub enum Coordinator {
    /// Waiting for the next subscription registration.
    AwaitingSubscription(MessageHandler<Idle>),
    /// Waiting for the next action-request broadcast event.
    AwaitingRequest(MessageHandler<Active>),
}

/// The coordinator starts out waiting for a subscription on a fresh idle
/// machine.
impl Default for Coordinator {
    fn default() -> (r: Self)
        ensures
            r matches Coordinator::AwaitingSubscription(m)
                && m == MessageHandler::<Idle>::spec_default(),
    {
        Coordinator::AwaitingSubscription(MessageHandler::default())
    }
}

/// Serves one blocking event of the coordinator.
///
/// Waiting for a subscription, it blocks on the registration stream and
/// subscribes the idle machine on the arriving sender; the only failure is
/// the fatal `SubscriptionListening`, when that stream is permanently
/// closed. Waiting for a request, it blocks on the broadcast stream: an
/// event that is no action request leaves the coordinator unchanged, and an
/// action request is served through one full machine cycle
/// (`serve_request`), after which the coordinator waits for the next
/// subscription on the reset idle machine.
pub fn step(
    coordinator: Coordinator,
    subscription: &mut tokio::sync::mpsc::Receiver<Subscription>,
    application_tx: &tokio::sync::mpsc::Sender<OutgoingMessage>,
    broadcast_rx: &mut tokio::sync::broadcast::Receiver<IncomingMessage>,
) -> (r: Result<Coordinator, Error>)
    ensures
        coordinator is AwaitingSubscription ==> (r matches Ok(c) ==> c is AwaitingRequest),
        coordinator is AwaitingSubscription ==> (r matches Err(e)
            ==> e is SubscriptionListening),
        coordinator is AwaitingRequest ==> (r matches Ok(c) ==> (c == coordinator
            || (c matches Coordinator::AwaitingSubscription(m)
                && m == MessageHandler::<Idle>::spec_default()))),
        coordinator is AwaitingRequest ==> (r matches Err(e) ==> (e is NoSenderRegistered
            || e is SendActionEventFailed
            || e is ResponseListening
            || e is NoHandlerRegistered)),
{
    match coordinator {
        Coordinator::AwaitingSubscription(idle) => {
            match until_subscription(subscription, idle) {
                Ok(active) => Ok(Coordinator::AwaitingRequest(active)),
                Err(e) => Err(e),
            }
        },
        Coordinator::AwaitingRequest(active) => {
            let message = match broadcast_rx.blocking_recv() {
                Ok(message) => message,
                Err(e) => return Err(Error::NoSenderRegistered(e)),
            };
            if is_action_request(&message) {
                match serve_request(active, application_tx) {
                    Ok(idle) => Ok(Coordinator::AwaitingSubscription(idle)),
                    Err(e) => Err(e),
                }
            } else {
                Ok(Coordinator::AwaitingRequest(active))
            }
        },
    }
}

/// Blocks until the next subscription registration arrives and subscribes
/// the idle machine on its handoff sender. Fails only with the fatal
/// `SubscriptionListening`, exactly when the registration stream is
/// permanently closed.
pub fn until_subscription(
    subscription: &mut tokio::sync::mpsc::Receiver<Subscription>,
    idle: MessageHandler<Idle>,
) -> (r: Result<MessageHandler<Active>, Error>)
    ensures
        r matches Err(e) ==> e is SubscriptionListening,
{
    match subscription.blocking_recv() {
        Some(registration) => Ok(idle.subscribe(registration.0)),
        None => Err(Error::SubscriptionListening),
    }
}

/// Drives one registered, requested cycle to its end: notifies the
/// subscriber, awaits its verdict, and forwards the resulting outgoing
/// message to the downstream sink. On success the returned machine is the
/// fresh default idle one, so the next cycle can begin at once; every error
/// is fatal and names its step: `SendActionEventFailed` (subscriber
/// unreachable), `ResponseListening` (verdict never sent), or
/// `NoHandlerRegistered` (sink gone, carrying the undelivered message).
pub fn serve_request(
    active: MessageHandler<Active>,
    application_tx: &tokio::sync::mpsc::Sender<OutgoingMessage>,
) -> (r: Result<MessageHandler<Idle>, Error>)
    ensures
        r matches Ok(m) ==> m == MessageHandler::<Idle>::spec_default(),
        r matches Err(e) ==> (e is SendActionEventFailed
            || e is ResponseListening
            || e is NoHandlerRegistered),
        r matches Err(e) ==> (e matches Error::NoHandlerRegistered(se)
            ==> (se.0 is ActionCompleted || se.0 is ActionFailed)),
{
    let waiting = match active.handle_request() {
        Ok(waiting) => waiting,
        Err(e) => return Err(e),
    };

    let (message, handler) = waiting.until_request_message();

    let message = match message {
        Ok(message) => message,
        Err(e) => return Err(e),
    };

    match application_tx.blocking_send(message) {
        Ok(()) => Ok(handler),
        Err(e) => Err(Error::NoHandlerRegistered(e)),
    }
}

/// Whether a broadcast event is an action request: exactly those events make
/// the coordinator proceed with the registered cycle.
pub fn is_action_request(message: &IncomingMessage) -> (r: bool)
    ensures
        r == (message is ActionRequest),
{
    match message {
        IncomingMessage::ActionRequest => true,
        IncomingMessage::Challenge(_) => false,
    }
}

} // verus!
