//! Channels that carry messages between the asynchronous runtime and the
//! threads outside it.

pub mod bichannel;
pub mod channel;
pub mod sync_channel;

pub use bichannel::BiChannel;
pub use channel::{TokioChannel, TrySendError, MAX_CHANNEL_SIZE};
pub use sync_channel::{RecvTimeoutError, SendError, SenderDropped, SyncChannel};
