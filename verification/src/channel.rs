//! Trusted declarations for the tokio channel primitives the core is built
//! on: single-use handoff channels (`oneshot`), the bounded downstream sinks
//! (`mpsc`), and the shared multi-consumer broadcast stream (`broadcast`).
//!
//! The channel endpoints are opaque to the verifier; the specifications below
//! state only what tokio's own source shows of each call. Tokio panics on a
//! blocking receive or send made from within an asynchronous execution
//! context: every caller of these must stay outside one.

use vstd::prelude::*;

verus! {

/// The sending half of a tokio single-use handoff channel.
#[verifier::external_type_specification]
#[verifier::external_body]
#[verifier::reject_recursive_types(T)]
pub struct ExOneshotSender<T>(tokio::sync::oneshot::Sender<T>);

/// The receiving half of a tokio single-use handoff channel.
#[verifier::external_type_specification]
#[verifier::external_body]
#[verifier::reject_recursive_types(T)]
pub struct ExOneshotReceiver<T>(tokio::sync::oneshot::Receiver<T>);

/// The error a oneshot receive ends with when the sender is gone.
#[verifier::external_type_specification]
#[verifier::external_body]
pub struct ExOneshotRecvError(tokio::sync::oneshot::error::RecvError);

/// The sending half of a tokio bounded multi-producer channel.
#[verifier::external_type_specification]
#[verifier::external_body]
#[verifier::reject_recursive_types(T)]
pub struct ExMpscSender<T>(tokio::sync::mpsc::Sender<T>);

/// The receiving half of a tokio bounded multi-producer channel.
#[verifier::external_type_specification]
#[verifier::external_body]
#[verifier::reject_recursive_types(T)]
pub struct ExMpscReceiver<T>(tokio::sync::mpsc::Receiver<T>);

/// The error a bounded send ends with when the receiver is gone; it carries
/// the undelivered value in its (public) field.
#[verifier::external_type_specification]
#[verifier::reject_recursive_types(T)]
pub struct ExMpscSendError<T>(tokio::sync::mpsc::error::SendError<T>);

/// One receive cursor on a tokio broadcast stream.
#[verifier::external_type_specification]
#[verifier::external_body]
#[verifier::reject_recursive_types(T)]
pub struct ExBroadcastReceiver<T>(tokio::sync::broadcast::Receiver<T>);

/// The error a broadcast receive ends with: the stream is closed, or this
/// cursor lagged and skipped the given number of values.
#[verifier::external_type_specification]
#[verifier::external_body]
pub struct ExBroadcastRecvError(tokio::sync::broadcast::error::RecvError);

/// Relies on tokio::sync::oneshot::channel: creates a fresh single-use
/// channel, returning its sender and receiver halves.
pub assume_specification<T>[ tokio::sync::oneshot::channel::<T> ]() -> (
    tokio::sync::oneshot::Sender<T>,
    tokio::sync::oneshot::Receiver<T>,
);

/// Relies on tokio::sync::oneshot::Sender::send: it never blocks, and when
/// the receiving half is already gone it hands the undelivered value back in
/// the error.
pub assume_specification<T>[ tokio::sync::oneshot::Sender::<T>::send ](
    sender: tokio::sync::oneshot::Sender<T>,
    t: T,
) -> (r: Result<(), T>)
    ensures
        r matches Err(v) ==> v == t,
;

/// Relies on tokio::sync::oneshot::Receiver::blocking_recv: it waits until
/// the sender delivers one value (returned as `Ok`) or is dropped without
/// sending (returned as `Err`). Nothing is promised of which outcome occurs.
pub assume_specification<T>[ tokio::sync::oneshot::Receiver::<T>::blocking_recv ](
    receiver: tokio::sync::oneshot::Receiver<T>,
) -> (r: Result<T, tokio::sync::oneshot::error::RecvError>);

/// Relies on tokio::sync::mpsc::Sender::blocking_send: it waits for buffer
/// space and delivers the value, or, when the receiving half is gone, hands
/// the undelivered value back inside the error.
pub assume_specification<T>[ tokio::sync::mpsc::Sender::<T>::blocking_send ](
    sender: &tokio::sync::mpsc::Sender<T>,
    value: T,
) -> (r: Result<(), tokio::sync::mpsc::error::SendError<T>>)
    ensures
        r matches Err(e) ==> e.0 == value,
;

/// Relies on tokio::sync::mpsc::Receiver::blocking_recv: it waits for the
/// next value, and returns `None` only once the channel is closed and
/// drained. Nothing is promised of which value arrives.
pub assume_specification<T>[ tokio::sync::mpsc::Receiver::<T>::blocking_recv ](
    receiver: &mut tokio::sync::mpsc::Receiver<T>,
) -> (r: Option<T>);

/// Relies on tokio::sync::broadcast::Receiver::blocking_recv: it waits for
/// the next broadcast value at this cursor, and fails when the stream is
/// closed or the cursor lagged. Nothing is promised of which value arrives.
pub assume_specification<T: Clone>[ tokio::sync::broadcast::Receiver::<T>::blocking_recv ](
    receiver: &mut tokio::sync::broadcast::Receiver<T>,
) -> (r: Result<T, tokio::sync::broadcast::error::RecvError>);

} // verus!
