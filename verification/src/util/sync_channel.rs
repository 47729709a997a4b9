//! Unbounded channel whose consumer is an ordinary thread and blocks on it.

use vstd::prelude::*;

verus! {

/// `std::sync::mpsc::Sender`, the sending half of the standard library's
/// channel. Nothing of its state is visible to proofs.
#[verifier::external_type_specification]
#[verifier::external_body]
#[verifier::reject_recursive_types(T)]
pub struct ExSender<T>(std::sync::mpsc::Sender<T>);

/// `std::sync::mpsc::Receiver`, the receiving half of the standard library's
/// channel. Nothing of its state is visible to proofs.
#[verifier::external_type_specification]
#[verifier::external_body]
#[verifier::reject_recursive_types(T)]
pub struct ExReceiver<T>(std::sync::mpsc::Receiver<T>);

/// `std::sync::mpsc::channel` makes the two halves of an unbounded channel.
/// Nothing is claimed of the halves.
pub assume_specification<T>[ std::sync::mpsc::channel::<T> ]() -> (halves: (
    std::sync::mpsc::Sender<T>,
    std::sync::mpsc::Receiver<T>,
));

/// The receiver is gone; the message that could not be delivered is inside.
#[derive(Debug, PartialEq, Eq)]
pub struct SendError<T>(pub T);

/// Every sender is gone and the queue is drained: nothing more will arrive.
#[derive(Clone, Copy, Debug, PartialEq, Eq, Structural)]
pub struct SenderDropped;

/// Why a bounded wait for a message ended without one.
#[derive(Clone, Copy, Debug, PartialEq, Eq, Structural)]
pub enum RecvTimeoutError {
    /// The wait ran out.
    Timeout,
    /// Every sender is gone and the queue is drained.
    Disconnected,
}

/// `std::sync::mpsc::Sender::send`: hands `msg` to the channel, and fails
/// only when the receiver has been dropped. Whether it has depends on the
/// receiving thread, so nothing is claimed of that; on failure the standard
/// library returns the message inside the error, and the contract says that
/// it is the message given.
#[verifier::external_body]
pub(crate) fn sender_send<T>(tx: &std::sync::mpsc::Sender<T>, msg: T) -> (sent: Result<
    (),
    SendError<T>,
>)
    ensures
        sent matches Err(e) ==> e.0 == msg,
{
    match tx.send(msg) {
        Ok(()) => Ok(()),
        Err(std::sync::mpsc::SendError(m)) => Err(SendError(m)),
    }
}

/// `std::sync::mpsc::Receiver::recv`: blocks the calling thread until a
/// message arrives or every sender is gone. What arrives is up to the
/// senders, so nothing is claimed of the result.
#[verifier::external_body]
pub(crate) fn receiver_recv<T>(rx: &std::sync::mpsc::Receiver<T>) -> (received: Result<
    T,
    SenderDropped,
>) {
    match rx.recv() {
        Ok(msg) => Ok(msg),
        Err(std::sync::mpsc::RecvError) => Err(SenderDropped),
    }
}

/// `std::sync::mpsc::Receiver::recv_timeout` with a wait of `secs` whole
/// seconds: blocks the calling thread until a message arrives, every sender
/// is gone, or the wait runs out. What arrives and when is up to the senders
/// and the clock, so nothing is claimed of the result.
#[verifier::external_body]
pub(crate) fn receiver_recv_timeout<T>(rx: &std::sync::mpsc::Receiver<T>, secs: u64) -> (received:
    Result<T, RecvTimeoutError>) {
    match rx.recv_timeout(std::time::Duration::from_secs(secs)) {
        Ok(msg) => Ok(msg),
        Err(std::sync::mpsc::RecvTimeoutError::Timeout) => Err(RecvTimeoutError::Timeout),
        Err(std::sync::mpsc::RecvTimeoutError::Disconnected) => Err(
            RecvTimeoutError::Disconnected,
        ),
    }
}

/// A channel for a consumer outside the asynchronous runtime: `recv` blocks
/// the thread that calls it.
#[verifier::reject_recursive_types(T)]
pub struct SyncChannel<T> {
    pub tx: std::sync::mpsc::Sender<T>,
    pub rx: std::sync::mpsc::Receiver<T>,
}

impl<T> SyncChannel<T> {
    /// Makes an empty channel.
    pub fn new() -> (ch: Self) {
        Self::from_tx_rx(std::sync::mpsc::channel())
    }

    /// Joins a sending and a receiving half into one channel object.
    pub fn from_tx_rx(halves: (std::sync::mpsc::Sender<T>, std::sync::mpsc::Receiver<T>)) -> (ch:
        Self)
        ensures
            ch.tx == halves.0,
            ch.rx == halves.1,
    {
        let (tx, rx) = halves;
        SyncChannel { tx, rx }
    }

    /// Sends `msg`. It fails only when the receiver is gone, and then the
    /// message comes back in the error.
    pub fn send(&self, msg: T) -> (sent: Result<(), SendError<T>>)
        ensures
            sent matches Err(e) ==> e.0 == msg,
    {
        sender_send(&self.tx, msg)
    }

    /// Blocks the calling thread until a message arrives, or until every
    /// sender is gone and nothing is left to deliver.
    pub fn recv(&self) -> (received: Result<T, SenderDropped>) {
        receiver_recv(&self.rx)
    }
}

impl<T> Default for SyncChannel<T> {
    fn default() -> (ch: Self) {
        Self::new()
    }
}

} // verus!
