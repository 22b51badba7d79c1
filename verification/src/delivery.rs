//! The synthesis job's result channel: a single-producer, single-consumer
//! handoff with a non-blocking poll on the consumer side. The channel itself
//! is std's mpsc channel; the two functions that touch it are trusted, and
//! everything that depends on what a poll produced takes the [`Delivery`]
//! value as an argument and is verified for every value of it.

use vstd::prelude::*;

verus! {

/// Outcome of one non-blocking poll of the result channel.
pub enum Delivery {
    /// The producer delivered the whole audio payload.
    Payload(Vec<u8>),
    /// Nothing has arrived yet; the producer may still be running.
    Pending,
    /// The producer is gone and never sent: the failure path.
    Closed,
}

/// Declares std::sync::mpsc::Sender, the producer's end of the result
/// channel; opaque to the proof, carried through by value.
#[verifier::external_type_specification]
#[verifier::external_body]
#[verifier::reject_recursive_types(T)]
pub struct ExSender<T>(std::sync::mpsc::Sender<T>);

/// Declares std::sync::mpsc::Receiver, the consumer's end of the result
/// channel; opaque to the proof, carried through by value.
#[verifier::external_type_specification]
#[verifier::external_body]
#[verifier::reject_recursive_types(T)]
pub struct ExReceiver<T>(std::sync::mpsc::Receiver<T>);

/// Relies on std::sync::mpsc::channel: returns the sending and receiving ends
/// of a new asynchronous channel. Which values the receiving end will yield
/// depends on what is later sent, so nothing is stated here.
#[verifier::external_body]
pub(crate) fn result_channel() -> (std::sync::mpsc::Sender<Vec<u8>>, std::sync::mpsc::Receiver<Vec<u8>>) {
    std::sync::mpsc::channel()
}

/// Relies on std::sync::mpsc::Receiver::try_recv: never blocks; returns a
/// waiting value if one was sent, `Err(Empty)` while senders are alive and
/// nothing waits, and `Err(Disconnected)` once every sender is dropped and the
/// channel is drained. What came back depends on the producer's timing, so
/// nothing is stated of the result; every caller handles all three variants.
#[verifier::external_body]
pub(crate) fn poll_delivery(rx: &std::sync::mpsc::Receiver<Vec<u8>>) -> Delivery {
    match rx.try_recv() {
        Ok(bytes) => Delivery::Payload(bytes),
        Err(std::sync::mpsc::TryRecvError::Empty) => Delivery::Pending,
        Err(std::sync::mpsc::TryRecvError::Disconnected) => Delivery::Closed,
    }
}

} // verus!
