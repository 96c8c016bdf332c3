//! Trusted declarations for the loopback transport: the bound pair of
//! one-way queues that lets the leader process message itself through the
//! same dispatch path that serves remote followers.

use vstd::prelude::*;
use crossbeam_channel::{Receiver, RecvError, SendError, Sender};
use std::time::Duration;
use std::time::Instant;

verus! {

#[verifier::external_type_specification]
#[verifier::external_body]
#[verifier::reject_recursive_types(T)]
pub struct ExSender<T>(Sender<T>);

#[verifier::external_type_specification]
#[verifier::external_body]
#[verifier::reject_recursive_types(T)]
pub struct ExReceiver<T>(Receiver<T>);

#[verifier::external_type_specification]
#[verifier::external_body]
#[verifier::reject_recursive_types(T)]
pub struct ExSendError<T>(SendError<T>);

#[verifier::external_type_specification]
#[verifier::external_body]
pub struct ExRecvError(RecvError);

#[verifier::external_type_specification]
#[verifier::external_body]
pub struct ExInstant(Instant);

/// Relies on crossbeam_channel::Sender::send: the message is queued unless
/// every receiver of the channel is gone, in which case it comes back inside
/// the error. Whether the queue accepted it is visible only in the result.
pub assume_specification<T>[ Sender::<T>::send ](s: &Sender<T>, msg: T) -> (r: Result<
    (),
    SendError<T>,
>);

/// Relies on crossbeam_channel::Receiver::recv: blocks until a message is
/// available and fails only once the channel is empty and every sender is
/// gone. Nothing is promised about which message arrives.
pub assume_specification<T>[ Receiver::<T>::recv ](r: &Receiver<T>) -> (res: Result<
    T,
    RecvError,
>);

/// Relies on crossbeam_channel::tick: the returned channel delivers a message
/// at most once per `seconds` seconds, so blocking on it paces a loop to that
/// cadence.
#[verifier::external_body]
pub(crate) fn interval_ticker(seconds: u64) -> (r: Receiver<Instant>) {
    crossbeam_channel::tick(Duration::from_secs(seconds))
}

} // verus!
