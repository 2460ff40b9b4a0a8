//! Trusted view of the std mpsc channel endpoints that carry protocol
//! messages between the client and the module.
//!
//! Which value a receive yields, and whether a send is still deliverable,
//! depend entirely on the other side of the channel, so the contracts here
//! promise nothing beyond the shape of the failure; every caller in this
//! crate validates what came back against the protocol state machine.

use vstd::prelude::*;

use crate::messages::ProtocolError;
use std::sync::mpsc::Receiver;
use std::sync::mpsc::Sender;

verus! {

#[verifier::external_type_specification]
#[verifier::external_body]
#[verifier::reject_recursive_types(T)]
pub struct ExSender<T>(Sender<T>);

#[verifier::external_type_specification]
#[verifier::external_body]
#[verifier::reject_recursive_types(T)]
pub struct ExReceiver<T>(Receiver<T>);

/// Relies on `std::sync::mpsc::Sender::send`: queues the message for the
/// receiving end, failing exactly when the receiver has disconnected.
#[verifier::external_body]
pub(crate) fn channel_send<T>(tx: &Sender<T>, msg: T) -> (r: Result<(), ProtocolError>)
    ensures
        r matches Err(e) ==> e == ProtocolError::TransportFailure,
{
    match tx.send(msg) {
        Ok(()) => Ok(()),
        Err(_) => Err(ProtocolError::TransportFailure),
    }
}

/// Relies on `std::sync::mpsc::Receiver::recv`: blocks until a message is
/// available or every sender has disconnected; which message arrives is up
/// to the other side.
#[verifier::external_body]
pub(crate) fn channel_recv<T>(rx: &Receiver<T>) -> (r: Result<T, ProtocolError>)
    ensures
        r matches Err(e) ==> e == ProtocolError::TransportFailure,
{
    match rx.recv() {
        Ok(m) => Ok(m),
        Err(_) => Err(ProtocolError::TransportFailure),
    }
}

} // verus!
