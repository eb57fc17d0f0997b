//! Handles around a `std::sync::mpsc` channel of `()` used to signal stream
//! cancellation from the user interface to the producer.

use vstd::prelude::*;
use std::sync::mpsc::{Receiver, Sender};

verus! {

#[verifier::external_type_specification]
#[verifier::external_body]
#[verifier::reject_recursive_types(T)]
pub struct ExSender<T>(Sender<T>);

#[verifier::external_type_specification]
#[verifier::external_body]
#[verifier::reject_recursive_types(T)]
pub struct ExReceiver<T>(Receiver<T>);

/// Cloning a sender: `Sender::clone` gives another handle on the same
/// channel.  Nothing is stated of the handle.
pub assume_specification<T>[ <Sender<T> as Clone>::clone ](s: &Sender<T>) -> Sender<T>;

/// What one non-blocking receive on the cancel channel observed.
#[derive(Debug, Clone, Copy, PartialEq, Eq, Structural)]
pub enum TryRecvOutcome {
    /// A cancel signal was waiting.
    Received,
    /// Nothing was waiting and senders remain.
    Empty,
    /// Every sender is gone.
    Disconnected,
}

/// A new channel: wraps `std::sync::mpsc::channel`.
#[verifier::external_body]
fn unit_channel() -> (Sender<()>, Receiver<()>) {
    std::sync::mpsc::channel()
}

/// Sends `()`: wraps `Sender::send`; the result (whether a receiver was
/// still there) is dropped, as nothing depends on it.
#[verifier::external_body]
fn send_unit(tx: &Sender<()>) {
    let _ = tx.send(());
}

/// One non-blocking receive: wraps `Receiver::try_recv`, telling its
/// outcomes apart.  What it observes depends on the other thread; nothing
/// is stated of it.
#[verifier::external_body]
fn try_recv_unit(rx: &Receiver<()>) -> TryRecvOutcome {
    match rx.try_recv() {
        Ok(()) => TryRecvOutcome::Received,
        Err(std::sync::mpsc::TryRecvError::Empty) => TryRecvOutcome::Empty,
        Err(std::sync::mpsc::TryRecvError::Disconnected) => TryRecvOutcome::Disconnected,
    }
}

/// User-interface handle for signalling cancellation.
#[derive(Debug, Clone)]
pub struct Canceller(Sender<()>);

impl Canceller {
    /// Signal cancellation.  Nothing is reported if the producer is already
    /// gone.
    pub fn signal(&self) {
        send_unit(&self.0);
    }
}

/// Producer-side observer of the cancel channel.
#[derive(Debug)]
pub struct CancelObserver(Receiver<()>);

/// Whether a receive outcome means the stream must stop: a signal arrived,
/// or the user interface (every sender) is gone.
pub fn cancelled_by(outcome: TryRecvOutcome) -> (r: bool)
    ensures
        r == (outcome != TryRecvOutcome::Empty),
{
    match outcome {
        TryRecvOutcome::Received => true,
        TryRecvOutcome::Empty => false,
        TryRecvOutcome::Disconnected => true,
    }
}

impl CancelObserver {
    /// `true` if a cancel signal has arrived, or if every sender has been
    /// dropped: `cancelled_by` of what one receive observed.  What that
    /// receive observes depends on the other thread.
    pub fn is_cancelled(&self) -> bool {
        cancelled_by(try_recv_unit(&self.0))
    }
}

/// A fresh cancel channel.
pub fn cancel_channel() -> (Canceller, CancelObserver) {
    let (tx, rx) = unit_channel();
    (Canceller(tx), CancelObserver(rx))
}

} // verus!
