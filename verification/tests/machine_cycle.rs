//! Tests of the typestate request/response machine driven directly, with the
//! test playing the part of the subscriber.

use action_relay::error::Error;
use action_relay::state_machine::{response_outcome, MessageHandler};
use action_relay::types::{OutgoingMessage, RequestMessage, ResponseMessage};

#[test]
fn message_handler_state_machine() {
    let handler = MessageHandler::default();
    let (tx, mut rx) = tokio::sync::oneshot::channel();
    let handler = handler.subscribe(tx);
    assert!(rx.try_recv().is_err());
    let handler = handler.handle_request().unwrap();
    let event = rx.try_recv().unwrap();
    let tx = match event {
        RequestMessage::ActionRequest { response_tx } => response_tx,
    };

    tx.send(ResponseMessage::Completed).unwrap();

    let (message, handler) = handler.until_request_message();

    assert_eq!(message.unwrap(), OutgoingMessage::ActionCompleted {},);

    assert_eq!(handler, MessageHandler::default(),);

    // Test the cycle can start anew.
    let (tx, _) = tokio::sync::oneshot::channel();
    let _handler = handler.subscribe(tx);
}

#[test]
fn failure_branch_resets_to_idle() {
    let handler = MessageHandler::default();
    let (tx, mut rx) = tokio::sync::oneshot::channel();
    let handler = handler.subscribe(tx);
    let handler = handler.handle_request().unwrap();
    let event = rx.try_recv().unwrap();
    let tx = match event {
        RequestMessage::ActionRequest { response_tx } => response_tx,
    };

    tx.send(ResponseMessage::Failed).unwrap();

    let (message, handler) = handler.until_request_message();

    assert_eq!(message.unwrap(), OutgoingMessage::ActionFailed);
    assert_eq!(handler, MessageHandler::default());

    // The failed cycle is restartable as well.
    let (tx, _) = tokio::sync::oneshot::channel();
    let _handler = handler.subscribe(tx);
}

#[test]
fn dropped_response_sender_is_response_listening() {
    let handler = MessageHandler::default();
    let (tx, mut rx) = tokio::sync::oneshot::channel();
    let handler = handler.subscribe(tx);
    let handler = handler.handle_request().unwrap();
    let event = rx.try_recv().unwrap();
    let tx = match event {
        RequestMessage::ActionRequest { response_tx } => response_tx,
    };

    drop(tx);

    let (message, handler) = handler.until_request_message();

    assert!(matches!(message, Err(Error::ResponseListening(_))));
    assert_eq!(handler, MessageHandler::default());
}

#[test]
fn dropped_notification_receiver_is_send_action_event_failed() {
    let handler = MessageHandler::default();
    let (tx, rx) = tokio::sync::oneshot::channel();
    let handler = handler.subscribe(tx);

    drop(rx);

    let error = handler.handle_request().unwrap_err();
    // The undelivered notification is attached to the error.
    assert!(matches!(
        error,
        Error::SendActionEventFailed(RequestMessage::ActionRequest { .. })
    ));
}

#[test]
fn response_outcome_maps_each_verdict() {
    assert_eq!(
        response_outcome(Ok(ResponseMessage::Completed)).unwrap(),
        OutgoingMessage::ActionCompleted
    );
    assert_eq!(
        response_outcome(Ok(ResponseMessage::Failed)).unwrap(),
        OutgoingMessage::ActionFailed
    );

    let (tx, rx) = tokio::sync::oneshot::channel::<ResponseMessage>();
    drop(tx);
    let recv_error = rx.blocking_recv().unwrap_err();
    assert!(matches!(
        response_outcome(Err(recv_error)),
        Err(Error::ResponseListening(_))
    ));
}
