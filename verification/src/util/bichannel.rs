//! Two bounded channels joined into one two-way link.

use vstd::prelude::*;
use crate::util::channel::{TokioChannel, TrySendError, MAX_CHANNEL_SIZE};

verus! {

/// A two-way link. `up` carries messages from the caller to the server and
/// `down` carries them back; each side sends on one and receives on the
/// other.
#[verifier::reject_recursive_types(T)]
pub struct BiChannel<T> {
    pub up: TokioChannel<T>,
    pub down: TokioChannel<T>,
}

impl<T> BiChannel<T> {
    /// Makes a link whose two directions each hold up to `size` messages.
    pub fn new(size: usize) -> (link: Self)
        requires
            0 < size <= MAX_CHANNEL_SIZE,
        ensures
            link.up.max_capacity() == size,
            link.down.max_capacity() == size,
    {
        let up = TokioChannel::new(size);
        let down = TokioChannel::new(size);
        Self::from_channels(up, down)
    }

    /// Joins two channels into a link, the first as `up` and the second as
    /// `down`.
    pub fn from_channels(up: TokioChannel<T>, down: TokioChannel<T>) -> (link: Self)
        ensures
            link.up == up,
            link.down == down,
    {
        BiChannel { up, down }
    }

    /// Enqueues `msg` towards the server without waiting. A message that is
    /// not taken comes back in the error.
    pub fn try_send_up(&self, msg: T) -> (sent: Result<(), TrySendError<T>>)
        ensures
            sent matches Err(e) ==> e.message() == msg,
    {
        self.up.try_send(msg)
    }

    /// Enqueues `msg` towards the caller without waiting. A message that is
    /// not taken comes back in the error.
    pub fn try_send_down(&self, msg: T) -> (sent: Result<(), TrySendError<T>>)
        ensures
            sent matches Err(e) ==> e.message() == msg,
    {
        self.down.try_send(msg)
    }
}

} // verus!
