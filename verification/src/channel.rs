//! Trusted declarations of the standard library's mpsc channels, the
//! transport of the command protocol.
//!
//! Nothing is promised about what arrives on a channel — that depends on
//! the peer context — so the wrappers state only the shape of each
//! outcome: a send either queues the value or reports the receiver gone, a
//! receive either yields a value or reports the sender gone.
use vstd::prelude::*;

use std::sync::mpsc::{Receiver, Sender};

verus! {

#[verifier::external_type_specification]
#[verifier::external_body]
#[verifier::reject_recursive_types(T)]
pub struct ExSender<T>(Sender<T>);

#[verifier::external_type_specification]
#[verifier::external_body]
#[verifier::reject_recursive_types(T)]
pub struct ExReceiver<T>(Receiver<T>);

/// Relies on std::sync::mpsc::Sender::send: `true` means the value was
/// queued, `false` that the receiving half is gone and the value was lost.
#[verifier::external_body]
pub(crate) fn channel_send<T>(s: &Sender<T>, value: T) -> bool {
    s.send(value).is_ok()
}

/// Relies on std::sync::mpsc::Receiver::recv: blocks until a value arrives
/// (`Some`) or the sending half is gone (`None`).
#[verifier::external_body]
pub(crate) fn channel_recv<T>(r: &Receiver<T>) -> Option<T> {
    r.recv().ok()
}

} // verus!
