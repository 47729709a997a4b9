//! The control plane: how a host process starts, queries and stops an
//! embedded server, and exchanges messages with it.
//!
//! The host keeps a [`ControlPlane`]. While the server runs it holds the
//! sending end of the link towards the server and the receiving end of the
//! link back. Every call either answers at once or waits for a reply for a
//! bounded time; none can hang.

use vstd::prelude::*;
use crate::util::channel::{sender_try_send, TokioChannel, TrySendError};
use crate::util::sync_channel::{receiver_recv_timeout, RecvTimeoutError, SyncChannel};

verus! {

/// How many requests the link towards the server holds.
pub const FFI_CHANNEL_SIZE: usize = 8;

/// How long a request waits for its reply, in seconds.
pub const RESPONSE_TIMEOUT_SECS: u64 = 5;

/// A message on the control link.
#[derive(Clone, Copy, Debug, PartialEq, Eq, Structural)]
pub enum FfiMessage {
    /// Asks the server to stop.
    Shutdown,
    /// The server's confirmation that it is stopping.
    ShutdownAck,
    /// Asks the server to print diagnostics. No reply follows.
    PrintInfo,
}

/// The most verbose severity that is logged.
#[derive(Clone, Copy, Debug, PartialEq, Eq, Structural)]
pub enum LogLevelFilter {
    Error,
    Warn,
    Info,
    Debug,
    Trace,
}

/// The severity that a host's integer code selects: 0 to 4 name the five
/// severities from `Error` to `Trace`, and any other code means `Warn`.
pub open spec fn log_level_of(code: int) -> LogLevelFilter {
    if code == 0 {
        LogLevelFilter::Error
    } else if code == 1 {
        LogLevelFilter::Warn
    } else if code == 2 {
        LogLevelFilter::Info
    } else if code == 3 {
        LogLevelFilter::Debug
    } else if code == 4 {
        LogLevelFilter::Trace
    } else {
        LogLevelFilter::Warn
    }
}

/// Maps a host's integer code to a severity.
pub fn int_to_log_level(log_level: i32) -> (level: LogLevelFilter)
    ensures
        level == log_level_of(log_level as int),
{
    match log_level {
        0 => LogLevelFilter::Error,
        1 => LogLevelFilter::Warn,
        2 => LogLevelFilter::Info,
        3 => LogLevelFilter::Debug,
        4 => LogLevelFilter::Trace,
        _ => LogLevelFilter::Warn,
    }
}

/// Why a control call did not go through.
#[derive(Clone, Copy, Debug, PartialEq, Eq, Structural)]
pub enum ControlError {
    /// No server is running.
    NotRunning,
    /// The link towards the server is full or closed.
    SendFailed,
    /// No reply came within the wait.
    NoResponse,
    /// A reply came, but not the one the call needs.
    UnexpectedReply,
}

/// Whether a server is published to the host.
#[derive(Clone, Copy, Debug, PartialEq, Eq, Structural)]
pub enum ControlState {
    Stopped,
    Running,
}

/// What becomes of an attempt to enqueue a request.
pub open spec fn enqueue_result(sent: Result<(), TrySendError<FfiMessage>>) -> Result<
    (),
    ControlError,
> {
    match sent {
        Ok(()) => Ok(()),
        Err(_) => Err(ControlError::SendFailed),
    }
}

/// What becomes of the wait for a reply.
pub open spec fn wait_result(received: Result<FfiMessage, RecvTimeoutError>) -> Result<
    FfiMessage,
    ControlError,
> {
    match received {
        Ok(reply) => Ok(reply),
        Err(_) => Err(ControlError::NoResponse),
    }
}

/// What a request in `state` hands to the channels: the message to enqueue
/// and the number of seconds to wait for the reply. The message is the
/// caller's and the wait is `RESPONSE_TIMEOUT_SECS`. With no server nothing
/// is handed over.
pub open spec fn request_plan(state: ControlState, msg: FfiMessage) -> Option<(FfiMessage, u64)> {
    if state is Running {
        Some((msg, RESPONSE_TIMEOUT_SECS))
    } else {
        None
    }
}

/// What a message without reply hands to the channel in `state`: the
/// caller's message, or nothing when no server runs.
pub open spec fn notify_plan(state: ControlState, msg: FfiMessage) -> Option<FfiMessage> {
    if state is Running {
        Some(msg)
    } else {
        None
    }
}

/// Whether `sent` can be what came of offering `msg` to a channel: a
/// message that is not taken comes back as it was.
pub open spec fn offered(msg: FfiMessage, sent: Result<(), TrySendError<FfiMessage>>) -> bool {
    sent matches Err(e) ==> e.message() == msg
}

/// What a request yields in `state`, given how the enqueue went and, where
/// the enqueue went well, how the wait for the reply went. With no server
/// nothing is sent, and after a failed enqueue nothing is waited for.
pub open spec fn request_result(
    state: ControlState,
    sent: Result<(), TrySendError<FfiMessage>>,
    received: Result<FfiMessage, RecvTimeoutError>,
) -> Result<FfiMessage, ControlError> {
    if state is Stopped {
        Err(ControlError::NotRunning)
    } else {
        match enqueue_result(sent) {
            Err(e) => Err(e),
            Ok(()) => wait_result(received),
        }
    }
}

/// What a message without reply yields in `state`, given how the enqueue
/// went.
pub open spec fn notify_result(
    state: ControlState,
    sent: Result<(), TrySendError<FfiMessage>>,
) -> Result<(), ControlError> {
    if state is Stopped {
        Err(ControlError::NotRunning)
    } else {
        enqueue_result(sent)
    }
}

/// What a shutdown request reports, given the outcome of the request: it
/// succeeds on the acknowledgement and on nothing else.
pub open spec fn shutdown_result(reply: Result<FfiMessage, ControlError>) -> Result<
    (),
    ControlError,
> {
    match reply {
        Ok(FfiMessage::ShutdownAck) => Ok(()),
        Ok(_) => Err(ControlError::UnexpectedReply),
        Err(e) => Err(e),
    }
}

impl ControlState {
    /// The state before any server was started.
    pub open spec fn initial() -> ControlState {
        ControlState::Stopped
    }

    /// The state once a server's link is published.
    pub open spec fn started(self) -> ControlState {
        ControlState::Running
    }

    /// The state once the link of a server that did not come up is
    /// withdrawn.
    pub open spec fn withdrawn(self) -> ControlState {
        ControlState::Stopped
    }

    /// The state after a shutdown request whose outcome was `reply`.
    pub open spec fn after_shutdown(self, reply: Result<FfiMessage, ControlError>) -> ControlState {
        if shutdown_result(reply) is Ok {
            ControlState::Stopped
        } else {
            self
        }
    }
}

/// No server runs before the first start. One runs from the moment its link
/// is published, and keeps running whatever a shutdown request yields, until
/// one is acknowledged; from then on none runs.
pub proof fn lemma_running_from_start_to_acknowledged_shutdown(
    reply: Result<FfiMessage, ControlError>,
)
    ensures
        ControlState::initial() is Stopped,
        ControlState::initial().started() is Running,
        ControlState::initial().started().after_shutdown(reply) is Stopped <==> reply == Ok::<
            FfiMessage,
            ControlError,
        >(FfiMessage::ShutdownAck),
{
}

/// A shutdown request succeeds exactly when its reply is the
/// acknowledgement, and only then does it stop the server: after any other
/// outcome the state is what it was.
pub proof fn lemma_shutdown_needs_acknowledgement(
    state: ControlState,
    reply: Result<FfiMessage, ControlError>,
)
    ensures
        shutdown_result(reply) is Ok <==> reply == Ok::<FfiMessage, ControlError>(
            FfiMessage::ShutdownAck,
        ),
        shutdown_result(reply) is Ok ==> state.after_shutdown(reply) is Stopped,
        shutdown_result(reply) is Err ==> state.after_shutdown(reply) == state,
{
}

/// With no server a shutdown fails and changes nothing, whatever the
/// channels would have done. With a server it succeeds exactly when the
/// request was enqueued and the reply that came in time is the
/// acknowledgement; then, and only then, the server counts as stopped.
pub proof fn lemma_shutdown_outcome(
    state: ControlState,
    sent: Result<(), TrySendError<FfiMessage>>,
    received: Result<FfiMessage, RecvTimeoutError>,
)
    ensures
        state is Stopped ==> shutdown_result(request_result(state, sent, received)) == Err::<
            (),
            ControlError,
        >(ControlError::NotRunning),
        state is Running ==> (shutdown_result(request_result(state, sent, received)) is Ok <==> sent
            is Ok && received == Ok::<FfiMessage, RecvTimeoutError>(FfiMessage::ShutdownAck)),
        state.after_shutdown(request_result(state, sent, received)) == (if shutdown_result(
            request_result(state, sent, received),
        ) is Ok {
            ControlState::Stopped
        } else {
            state
        }),
{
}

/// A start that failed leaves no server behind: once its link is
/// withdrawn the state is what it was before the start.
pub proof fn lemma_failed_start_leaves_stopped()
    ensures
        ControlState::initial().started().withdrawn() == ControlState::initial(),
        ControlState::Stopped.started().withdrawn() == ControlState::Stopped,
{
}

/// Something is handed to the channels exactly when a server runs. A
/// request hands over the caller's message and a wait of five seconds, a
/// message without reply the caller's message alone.
pub proof fn lemma_plan_hands_over_the_message(state: ControlState, msg: FfiMessage)
    ensures
        request_plan(state, msg) is Some <==> state is Running,
        notify_plan(state, msg) is Some <==> state is Running,
        request_plan(state, msg) matches Some(plan) ==> plan.0 == msg && plan.1 == 5,
        notify_plan(state, msg) matches Some(request) ==> request == msg,
{
}

/// A request fails for want of a server exactly when none runs, and it
/// yields a reply exactly when the enqueue went well and a reply came in
/// time. A message without reply goes through exactly when a server runs
/// and the enqueue went well.
pub proof fn lemma_request_outcome(
    state: ControlState,
    sent: Result<(), TrySendError<FfiMessage>>,
    received: Result<FfiMessage, RecvTimeoutError>,
)
    ensures
        request_result(state, sent, received) == Err::<FfiMessage, ControlError>(
            ControlError::NotRunning,
        ) <==> state is Stopped,
        request_result(state, sent, received) is Ok <==> state is Running && sent is Ok
            && received is Ok,
        request_result(state, sent, received) matches Ok(reply) ==> received == Ok::<
            FfiMessage,
            RecvTimeoutError,
        >(reply),
        request_result(state, sent, received) != Err::<FfiMessage, ControlError>(
            ControlError::UnexpectedReply,
        ),
        notify_result(state, sent) == Err::<(), ControlError>(ControlError::NotRunning)
            <==> state is Stopped,
        notify_result(state, sent) is Ok <==> state is Running && sent is Ok,
        notify_result(state, sent) is Err && state is Running ==> notify_result(state, sent)
            == Err::<(), ControlError>(ControlError::SendFailed),
{
}

/// Turns the outcome of an enqueue into the outcome of the control call.
pub fn settle_enqueue(sent: Result<(), TrySendError<FfiMessage>>) -> (settled: Result<
    (),
    ControlError,
>)
    ensures
        settled == enqueue_result(sent),
{
    match sent {
        Ok(()) => Ok(()),
        Err(_) => Err(ControlError::SendFailed),
    }
}

/// Turns the outcome of the wait for a reply into the outcome of the
/// request.
pub fn settle_wait(received: Result<FfiMessage, RecvTimeoutError>) -> (settled: Result<
    FfiMessage,
    ControlError,
>)
    ensures
        settled == wait_result(received),
{
    match received {
        Ok(reply) => Ok(reply),
        Err(_) => Err(ControlError::NoResponse),
    }
}

/// The message that asks the server to stop.
pub fn shutdown_request() -> (msg: FfiMessage)
    ensures
        msg == FfiMessage::Shutdown,
{
    FfiMessage::Shutdown
}

/// The message that asks the server to print its diagnostics.
pub fn status_request() -> (msg: FfiMessage)
    ensures
        msg == FfiMessage::PrintInfo,
{
    FfiMessage::PrintInfo
}

/// The server's ends of the control link: it receives requests on `up` and
/// replies on `down`.
pub struct FfiChannelPair {
    pub up: TokioChannel<FfiMessage>,
    pub down: std::sync::mpsc::Sender<FfiMessage>,
}

/// The host's ends of the control link.
struct ControlHandles {
    up: tokio::sync::mpsc::Sender<FfiMessage>,
    down: std::sync::mpsc::Receiver<FfiMessage>,
}

/// The host's handle on the server: empty while no server runs, and holding
/// the host's ends of the control link while one does.
pub struct ControlPlane {
    handles: Option<ControlHandles>,
}

impl View for ControlPlane {
    type V = ControlState;

    closed spec fn view(&self) -> ControlState {
        if self.handles is Some {
            ControlState::Running
        } else {
            ControlState::Stopped
        }
    }
}

impl ControlPlane {
    /// The sending end that the host keeps towards the server while one
    /// runs.
    pub closed spec fn host_up(&self) -> Option<tokio::sync::mpsc::Sender<FfiMessage>> {
        match self.handles {
            Some(handles) => Some(handles.up),
            None => None,
        }
    }

    /// The host holds a sending end exactly while a server runs.
    pub proof fn lemma_host_up_while_running(&self)
        ensures
            self.host_up() is Some <==> self@ is Running,
    {
    }

    /// A control plane with no server.
    pub fn new() -> (plane: Self)
        ensures
            plane@ == ControlState::initial(),
    {
        ControlPlane { handles: None }
    }

    /// Makes the control link for a server that is about to start, keeps the
    /// host's ends and returns the server's. What the host sends goes into
    /// the channel that the server receives requests on.
    pub fn open_link(&mut self) -> (server_side: FfiChannelPair)
        requires
            old(self)@ is Stopped,
        ensures
            final(self)@ == old(self)@.started(),
            final(self).host_up() == Some(server_side.up.sending_half()),
            server_side.up.max_capacity() == FFI_CHANNEL_SIZE,
    {
        let up = TokioChannel::new(FFI_CHANNEL_SIZE);
        let down = SyncChannel::new();
        let host_up = up.sender();
        self.handles = Some(ControlHandles { up: host_up, down: down.rx });
        FfiChannelPair { up, down: down.tx }
    }

    /// Drops the host's ends of the link of a server that did not come up,
    /// so that no server counts as running. On a plane with no server it
    /// changes nothing.
    pub fn withdraw_link(&mut self)
        ensures
            final(self)@ == old(self)@.withdrawn(),
            final(self).host_up() is None,
    {
        self.handles = None;
    }

    /// Whether a server is running.
    pub fn is_running(&self) -> (running: bool)
        ensures
            running == (self@ is Running),
    {
        self.handles.is_some()
    }

    /// What a request with `msg` hands to the channels: the message and the
    /// seconds to wait for the reply, or nothing when no server runs.
    pub fn plan_request(&self, msg: FfiMessage) -> (plan: Option<(FfiMessage, u64)>)
        ensures
            plan == request_plan(self@, msg),
    {
        if self.handles.is_some() {
            Some((msg, RESPONSE_TIMEOUT_SECS))
        } else {
            None
        }
    }

    /// What a message without reply hands to the channel: the message, or
    /// nothing when no server runs.
    pub fn plan_notify(&self, msg: FfiMessage) -> (plan: Option<FfiMessage>)
        ensures
            plan == notify_plan(self@, msg),
    {
        if self.handles.is_some() {
            Some(msg)
        } else {
            None
        }
    }

    /// Sends `msg` to the server and waits up to `RESPONSE_TIMEOUT_SECS`
    /// seconds for one reply.
    ///
    /// With no server it fails at once. When the message cannot be enqueued
    /// it fails without waiting. What the channels do is not known
    /// beforehand; the result is what `request_result` gives for what came
    /// of offering `msg` and of the wait.
    pub fn handle_req(&self, msg: FfiMessage) -> (reply: Result<FfiMessage, ControlError>)
        ensures
            exists|
                sent: Result<(), TrySendError<FfiMessage>>,
                received: Result<FfiMessage, RecvTimeoutError>,
            |
                offered(msg, sent) && reply == #[trigger] request_result(self@, sent, received),
    {
        // Stand for the enqueue and the wait on the paths that make
        // neither; their values do not matter there.
        let ghost no_send = Ok::<(), TrySendError<FfiMessage>>(());
        let ghost no_wait = Err::<FfiMessage, RecvTimeoutError>(RecvTimeoutError::Timeout);
        match (self.plan_request(msg), &self.handles) {
            (Some((request, wait_secs)), Some(handles)) => {
                let sent = sender_try_send(&handles.up, request);
                let ghost sent_as_was = sent;
                match settle_enqueue(sent) {
                    Err(e) => {
                        assert(offered(msg, sent_as_was) && request_result(
                            self@,
                            sent_as_was,
                            no_wait,
                        ) == Err::<FfiMessage, ControlError>(e));
                        Err(e)
                    },
                    Ok(()) => {
                        let received = receiver_recv_timeout(&handles.down, wait_secs);
                        let reply = settle_wait(received);
                        assert(offered(msg, sent_as_was) && request_result(
                            self@,
                            sent_as_was,
                            received,
                        ) == reply);
                        reply
                    },
                }
            },
            _ => {
                assert(offered(msg, no_send) && request_result(self@, no_send, no_wait) == Err::<
                    FfiMessage,
                    ControlError,
                >(ControlError::NotRunning));
                Err(ControlError::NotRunning)
            },
        }
    }

    /// Sends `msg` to the server and expects no reply.
    ///
    /// With no server it fails at once, and it never waits. The result is
    /// what `notify_result` gives for what came of offering `msg`.
    pub fn handle_req_no_resp(&self, msg: FfiMessage) -> (sent: Result<(), ControlError>)
        ensures
            exists|enqueued: Result<(), TrySendError<FfiMessage>>|
                offered(msg, enqueued) && sent == #[trigger] notify_result(self@, enqueued),
    {
        let ghost no_send = Ok::<(), TrySendError<FfiMessage>>(());
        match (self.plan_notify(msg), &self.handles) {
            (Some(request), Some(handles)) => {
                let enqueued = sender_try_send(&handles.up, request);
                let ghost enqueued_as_was = enqueued;
                let sent = settle_enqueue(enqueued);
                assert(offered(msg, enqueued_as_was) && notify_result(self@, enqueued_as_was)
                    == sent);
                sent
            },
            _ => {
                assert(offered(msg, no_send) && notify_result(self@, no_send) == Err::<
                    (),
                    ControlError,
                >(ControlError::NotRunning));
                Err(ControlError::NotRunning)
            },
        }
    }

    /// Ends a shutdown request whose outcome was `reply`: on the
    /// acknowledgement the host's ends of the link are dropped, and on
    /// anything else nothing changes.
    pub fn finish_shutdown(&mut self, reply: Result<FfiMessage, ControlError>) -> (stopped: Result<
        (),
        ControlError,
    >)
        ensures
            stopped == shutdown_result(reply),
            final(self)@ == old(self)@.after_shutdown(reply),
            stopped is Err ==> *final(self) == *old(self),
    {
        match reply {
            Ok(FfiMessage::ShutdownAck) => {
                self.handles = None;
                Ok(())
            },
            Ok(_) => Err(ControlError::UnexpectedReply),
            Err(e) => Err(e),
        }
    }

    /// Asks the server to stop and waits for its acknowledgement.
    ///
    /// The request is `Shutdown`. The server counts as stopped only once it
    /// has acknowledged. After a failure the plane is what it was, and the
    /// call may be repeated.
    pub fn shutdown(&mut self) -> (stopped: Result<(), ControlError>)
        ensures
            exists|
                sent: Result<(), TrySendError<FfiMessage>>,
                received: Result<FfiMessage, RecvTimeoutError>,
            |
                offered(FfiMessage::Shutdown, sent) && stopped == shutdown_result(
                    #[trigger] request_result(old(self)@, sent, received),
                ) && final(self)@ == old(self)@.after_shutdown(
                    request_result(old(self)@, sent, received),
                ),
            stopped is Err ==> *final(self) == *old(self),
    {
        let reply = self.handle_req(shutdown_request());
        self.finish_shutdown(reply)
    }

    /// Asks the server to print its diagnostics. The request is
    /// `PrintInfo`. Success means that the request was enqueued, not that
    /// anything was printed.
    pub fn print_status(&self) -> (sent: Result<(), ControlError>)
        ensures
            exists|enqueued: Result<(), TrySendError<FfiMessage>>|
                offered(FfiMessage::PrintInfo, enqueued) && sent == #[trigger] notify_result(
                    self@,
                    enqueued,
                ),
    {
        self.handle_req_no_resp(status_request())
    }
}

} // verus!
