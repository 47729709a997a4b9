//! Bounded channel whose consumer is a task of the asynchronous runtime.

use vstd::prelude::*;

verus! {

/// `tokio::sync::mpsc::Sender`, the sending half of tokio's bounded channel.
/// Nothing of its state is visible to proofs.
#[verifier::external_type_specification]
#[verifier::external_body]
#[verifier::reject_recursive_types(T)]
pub struct ExSender<T>(tokio::sync::mpsc::Sender<T>);

/// `tokio::sync::mpsc::Receiver`, the receiving half of tokio's bounded
/// channel. Nothing of its state is visible to proofs.
#[verifier::external_type_specification]
#[verifier::external_body]
#[verifier::reject_recursive_types(T)]
pub struct ExReceiver<T>(tokio::sync::mpsc::Receiver<T>);

/// The largest capacity a bounded channel can be made with.
pub const MAX_CHANNEL_SIZE: usize = usize::MAX / 8;

/// `tokio::sync::mpsc::channel` makes the two halves of a bounded channel. It
/// panics when the capacity is zero or above the permit limit of tokio's
/// semaphore, `usize::MAX >> 3`; those capacities are excluded. Nothing is
/// claimed of the halves.
pub assume_specification<T>[ tokio::sync::mpsc::channel::<T> ](buffer: usize) -> (halves: (
    tokio::sync::mpsc::Sender<T>,
    tokio::sync::mpsc::Receiver<T>,
))
    requires
        0 < buffer <= MAX_CHANNEL_SIZE,
;

/// Why a message could not be enqueued without waiting. Either way the
/// message comes back to the caller.
#[derive(Debug, PartialEq, Eq)]
pub enum TrySendError<T> {
    /// Every slot of the channel is taken.
    Full(T),
    /// The receiving half is closed or gone.
    Closed(T),
}

impl<T> TrySendError<T> {
    /// The message that was not sent.
    pub open spec fn message(self) -> T {
        match self {
            TrySendError::Full(msg) => msg,
            TrySendError::Closed(msg) => msg,
        }
    }

    /// Gives the unsent message back.
    pub fn into_inner(self) -> (msg: T)
        ensures
            msg == self.message(),
    {
        match self {
            TrySendError::Full(msg) => msg,
            TrySendError::Closed(msg) => msg,
        }
    }
}

/// `tokio::sync::mpsc::Sender::try_send`: enqueues `msg` if a slot is free
/// and the receiver is alive, without waiting. Whether it succeeds depends on
/// what the other users of the channel have done, so nothing is claimed of
/// that; on failure tokio hands the message back inside the error, and the
/// contract says that it is the message given.
#[verifier::external_body]
pub(crate) fn sender_try_send<T>(tx: &tokio::sync::mpsc::Sender<T>, msg: T) -> (sent: Result<
    (),
    TrySendError<T>,
>)
    ensures
        sent matches Err(e) ==> e.message() == msg,
{
    match tx.try_send(msg) {
        Ok(()) => Ok(()),
        Err(tokio::sync::mpsc::error::TrySendError::Full(m)) => Err(TrySendError::Full(m)),
        Err(tokio::sync::mpsc::error::TrySendError::Closed(m)) => Err(TrySendError::Closed(m)),
    }
}

/// `Sender::clone` of tokio's sending half: one more handle that sends into
/// the same channel. The clone holds the same shared channel as `tx` and
/// nothing else, and tokio's `same_channel` holds of the two. To proofs a
/// sending handle is the channel it sends into, so the contract says that
/// the clone equals `tx`. Nothing is claimed of the channel's state.
#[verifier::external_body]
pub(crate) fn sender_clone<T>(tx: &tokio::sync::mpsc::Sender<T>) -> (handle:
    tokio::sync::mpsc::Sender<T>)
    ensures
        handle == *tx,
{
    tx.clone()
}

/// A bounded channel with many producers and one consumer.
///
/// Sending through a shared reference is open to every holder. Receiving
/// needs the receiving half itself, so that two readers can never overlap.
#[verifier::reject_recursive_types(T)]
pub struct TokioChannel<T> {
    pub tx: tokio::sync::mpsc::Sender<T>,
    pub rx: tokio::sync::mpsc::Receiver<T>,
    capacity: usize,
}

impl<T> TokioChannel<T> {
    /// The number of messages the channel was made to hold.
    pub closed spec fn spec_max_capacity(&self) -> usize {
        self.capacity
    }

    /// Makes a channel that holds up to `size` messages.
    pub fn new(size: usize) -> (ch: Self)
        requires
            0 < size <= MAX_CHANNEL_SIZE,
        ensures
            ch.spec_max_capacity() == size,
    {
        let (tx, rx) = tokio::sync::mpsc::channel(size);
        TokioChannel { tx, rx, capacity: size }
    }

    /// The number of messages the channel was made to hold. It stays the
    /// same while messages come and go.
    #[verifier::when_used_as_spec(spec_max_capacity)]
    pub fn max_capacity(&self) -> (n: usize)
        ensures
            n == self.spec_max_capacity(),
    {
        self.capacity
    }

    /// The sending half of this channel, the field `tx`.
    pub closed spec fn sending_half(&self) -> tokio::sync::mpsc::Sender<T> {
        self.tx
    }

    /// One more sending handle on this channel, for another producer. It
    /// sends into the channel that `tx` sends into.
    pub fn sender(&self) -> (handle: tokio::sync::mpsc::Sender<T>)
        ensures
            handle == self.sending_half(),
    {
        sender_clone(&self.tx)
    }

    /// Enqueues `msg` without waiting. A message that is not taken comes
    /// back in the error.
    pub fn try_send(&self, msg: T) -> (sent: Result<(), TrySendError<T>>)
        ensures
            sent matches Err(e) ==> e.message() == msg,
    {
        sender_try_send(&self.tx, msg)
    }
}

} // verus!
