//! The challenge responder: a stateless consumer that answers every liveness
//! challenge observed on the broadcast stream with a response carrying the
//! same nonce, and ignores every other event. `respond_once` serves one
//! broadcast event per call; a caller repeats it indefinitely, stopping at
//! the first (fatal) error.

use vstd::prelude::*;

use crate::error::Error;
use crate::types::{IncomingMessage, OutgoingMessage};

verus! {

/// Waits for the next broadcast event and serves it: a challenge is answered
/// on the sink with the echo of its nonce, any other event is discarded. The
/// only failures are fatal ones: the broadcast stream failed
/// (`NoSenderRegistered`) or the sink has no receiver (`NoHandlerRegistered`,
/// carrying the undelivered response).
pub fn respond_once(
    incoming_tx: &tokio::sync::mpsc::Sender<OutgoingMessage>,
    broadcast_rx: &mut tokio::sync::broadcast::Receiver<IncomingMessage>,
) -> (r: Result<(), Error>)
    ensures
        r matches Err(e) ==> (e is NoSenderRegistered || e is NoHandlerRegistered),
        r matches Err(e) ==> (e matches Error::NoHandlerRegistered(se)
            ==> se.0 is ChallengeResponse),
{
    let message = match broadcast_rx.blocking_recv() {
        Ok(message) => message,
        Err(e) => return Err(Error::NoSenderRegistered(e)),
    };

    let challenge = match challenge_nonce(&message) {
        Some(challenge) => challenge,
        None => return Ok(()),
    };

    let response = handle_challenge(challenge);

    match incoming_tx.blocking_send(response) {
        Ok(()) => Ok(()),
        Err(e) => Err(Error::NoHandlerRegistered(e)),
    }
}

/// The nonce a broadcast event carries, when it is a challenge: exactly the
/// challenges are answered, everything else is discarded.
pub fn challenge_nonce(message: &IncomingMessage) -> (r: Option<u64>)
    ensures
        message matches IncomingMessage::Challenge(n) ==> r == Some(*n),
        message is ActionRequest ==> r is None,
{
    match message {
        IncomingMessage::Challenge(challenge) => Some(*challenge),
        IncomingMessage::ActionRequest => None,
    }
}

/// Answers one challenge: the response echoes the nonce unchanged.
pub fn handle_challenge(challenge: u64) -> (r: OutgoingMessage)
    ensures
        r == OutgoingMessage::ChallengeResponse(challenge),
{
    OutgoingMessage::ChallengeResponse(challenge)
}

} // verus!
