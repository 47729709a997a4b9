//! Startup of the server: what is reported of its configuration, in which
//! order its sockets are bound, and what a failed bind leads to.
//!
//! Binding and running are the caller's work. [`Startup`] tells the caller
//! what to do next and takes back how it went.

use vstd::prelude::*;
use crate::control::FfiChannelPair;
use crate::redact::{censor_key, censored};

verus! {

/// The port the game server listens on unless told otherwise.
pub const DEFAULT_GAME_SERVER_PORT: u16 = 4202;

/// Ports below this one are commonly reserved for privileged users.
pub const PRIVILEGED_PORT_LIMIT: u16 = 1024;

/// How many leading characters of a secret are shown in diagnostics.
pub const SECRET_VISIBLE_CHARS: usize = 4;

/// The host part of a bind address: an IP address as one number, with the
/// first byte of the address in the highest bits.
#[derive(Clone, Copy, Debug, PartialEq, Eq, Structural)]
pub enum BindHost {
    V4(u32),
    V6(u128),
}

/// The address on which both sockets of the server are bound.
#[derive(Clone, Copy, Debug, PartialEq, Eq, Structural)]
pub struct BindAddress {
    pub host: BindHost,
    pub port: u16,
}

impl BindAddress {
    /// Every IPv4 interface of the machine, on `port`.
    pub open spec fn spec_wildcard(port: u16) -> BindAddress {
        BindAddress { host: BindHost::V4(0), port }
    }

    /// Every IPv4 interface of the machine, on `port`.
    #[verifier::when_used_as_spec(spec_wildcard)]
    pub fn wildcard(port: u16) -> (addr: BindAddress)
        ensures
            addr == BindAddress::spec_wildcard(port),
    {
        BindAddress { host: BindHost::V4(0), port }
    }

    /// Whether binding the port commonly needs privileges.
    pub open spec fn spec_is_privileged(&self) -> bool {
        self.port < PRIVILEGED_PORT_LIMIT
    }

    /// Whether binding the port commonly needs privileges.
    #[verifier::when_used_as_spec(spec_is_privileged)]
    pub fn is_privileged(&self) -> (privileged: bool)
        ensures
            privileged == self.spec_is_privileged(),
    {
        self.port < PRIVILEGED_PORT_LIMIT
    }
}

impl Default for BindAddress {
    /// The wildcard address on the default game-server port.
    fn default() -> (addr: BindAddress)
        ensures
            addr == BindAddress::spec_wildcard(DEFAULT_GAME_SERVER_PORT),
    {
        BindAddress::wildcard(DEFAULT_GAME_SERVER_PORT)
    }
}

/// What a server is started with.
pub struct StartupConfiguration {
    pub bind_address: BindAddress,
    /// Address and password of the central server; absent when the bridge to
    /// it is already configured.
    pub central_data: Option<(String, String)>,
}

impl StartupConfiguration {
    /// The configuration of an embedded server: the default bind address and
    /// no central credentials.
    pub fn embedded() -> (config: StartupConfiguration)
        ensures
            config.bind_address == BindAddress::spec_wildcard(DEFAULT_GAME_SERVER_PORT),
            config.central_data is None,
    {
        StartupConfiguration { bind_address: BindAddress::default(), central_data: None }
    }
}

/// The settings that the central server hands to a game server.
pub struct CentralConfig {
    pub tps: u32,
    /// Lifetime of a token, in seconds.
    pub token_expiry: u64,
    pub maintenance: bool,
    pub secret_key2: String,
    pub admin_key: String,
    pub chat_burst_limit: u32,
    /// In milliseconds.
    pub chat_burst_interval: u32,
}

/// The limit on text chat: at most `messages` per `interval_ms`
/// milliseconds.
#[derive(Clone, Copy, Debug, PartialEq, Eq, Structural)]
pub struct ChatRateLimit {
    pub messages: u32,
    pub interval_ms: u32,
}

/// The chat limit that a burst count and a burst interval stand for. A zero
/// in either switches the limit off.
pub open spec fn chat_rate_limit_of(limit: u32, interval: u32) -> Option<ChatRateLimit> {
    if limit == 0 || interval == 0 {
        None
    } else {
        Some(ChatRateLimit { messages: limit, interval_ms: interval })
    }
}

/// The chat limit that a burst count and a burst interval stand for.
pub fn chat_rate_limit(limit: u32, interval: u32) -> (active: Option<ChatRateLimit>)
    ensures
        active == chat_rate_limit_of(limit, interval),
{
    if limit == 0 || interval == 0 {
        None
    } else {
        Some(ChatRateLimit { messages: limit, interval_ms: interval })
    }
}

/// The form in which the admin key is shown: as it is to the operator of a
/// standalone server, and redacted otherwise.
pub open spec fn shown_admin_key(key: Seq<char>, standalone: bool) -> Seq<char> {
    if standalone {
        key
    } else {
        censored(key, SECRET_VISIBLE_CHARS as nat)
    }
}

/// What is logged of the configuration when the server starts.
pub struct ConfigReport {
    pub tps: u32,
    pub token_expiry: u64,
    pub maintenance: bool,
    /// The token secret, redacted.
    pub token_secret: String,
    /// The admin key, redacted unless the server is standalone.
    pub admin_key: String,
    /// `None` when text chat is not limited.
    pub chat_rate_limit: Option<ChatRateLimit>,
}

impl CentralConfig {
    /// What is logged of this configuration. The token secret is always
    /// redacted, the admin key unless `standalone` holds.
    pub fn report(&self, standalone: bool) -> (shown: ConfigReport)
        ensures
            shown.tps == self.tps,
            shown.token_expiry == self.token_expiry,
            shown.maintenance == self.maintenance,
            shown.token_secret@ == censored(self.secret_key2@, SECRET_VISIBLE_CHARS as nat),
            shown.admin_key@ == shown_admin_key(self.admin_key@, standalone),
            shown.chat_rate_limit == chat_rate_limit_of(
                self.chat_burst_limit,
                self.chat_burst_interval,
            ),
    {
        let admin_key = if standalone {
            self.admin_key.clone()
        } else {
            censor_key(self.admin_key.as_str(), SECRET_VISIBLE_CHARS)
        };
        ConfigReport {
            tps: self.tps,
            token_expiry: self.token_expiry,
            maintenance: self.maintenance,
            token_secret: censor_key(self.secret_key2.as_str(), SECRET_VISIBLE_CHARS),
            admin_key,
            chat_rate_limit: chat_rate_limit(self.chat_burst_limit, self.chat_burst_interval),
        }
    }
}

/// One of the two sockets of the server.
#[derive(Clone, Copy, Debug, PartialEq, Eq, Structural)]
pub enum Socket {
    Udp,
    Tcp,
}

/// How far the startup has come.
#[derive(Clone, Copy, Debug, PartialEq, Eq, Structural)]
pub enum StartupPhase {
    /// The configuration is being reported and handed to the subsystems
    /// that depend on it. No socket is open.
    Configuring,
    BindingUdp,
    BindingTcp,
    /// Both sockets are bound and the server's loop runs.
    Running,
    /// The startup is over, whether the server ran or not.
    Finished,
}

/// What the caller reports back.
#[derive(Clone, Copy, Debug, PartialEq, Eq, Structural)]
pub enum StartupEvent {
    /// The configuration was reported and applied.
    Configured,
    /// The socket that was asked for is bound.
    Bound,
    /// The socket that was asked for could not be bound.
    BindFailed,
    /// The server's loop returned.
    ServerReturned,
}

/// What the caller has to do next.
#[derive(Clone, Copy, Debug, PartialEq, Eq, Structural)]
pub enum StartupAction {
    /// Bind this socket on the configured address.
    Bind(Socket),
    /// Build the server from the two sockets and run its loop.
    RunServer,
    /// Report that `socket` could not be bound and end the process. With
    /// `privileged_port_hint`, tell the operator that low ports are
    /// commonly privileged.
    Abort { socket: Socket, privileged_port_hint: bool },
    /// Report that `socket` could not be bound and hand the error to the
    /// caller of the startup, who goes on running. The hint is as for
    /// `Abort`.
    Fail { socket: Socket, privileged_port_hint: bool },
    /// Return success. The loop of a dedicated server is not meant to
    /// return; when it does, `expected` is false.
    Finish { expected: bool },
}

/// The startup of one server.
#[derive(Clone, Copy, Debug, PartialEq, Eq, Structural)]
pub struct Startup {
    pub phase: StartupPhase,
    /// Whether the server is its own process, with no host to report to.
    pub dedicated: bool,
    /// The port both sockets are bound on.
    pub port: u16,
}

impl Startup {
    /// What a failed bind of `socket` leads to. A dedicated server ends the
    /// process, an embedded one reports to its host. The privileged-port
    /// hint goes with the first socket only.
    pub open spec fn bind_failure(self, socket: Socket) -> StartupAction {
        let privileged_port_hint = socket is Udp && self.port < PRIVILEGED_PORT_LIMIT;
        if self.dedicated {
            StartupAction::Abort { socket, privileged_port_hint }
        } else {
            StartupAction::Fail { socket, privileged_port_hint }
        }
    }

    /// The phase after `event`, and the action that it calls for. An event
    /// that the phase does not expect changes nothing and calls for nothing.
    pub open spec fn next(self, event: StartupEvent) -> (Startup, Option<StartupAction>) {
        match (self.phase, event) {
            (StartupPhase::Configuring, StartupEvent::Configured) => (
                Startup { phase: StartupPhase::BindingUdp, ..self },
                Some(StartupAction::Bind(Socket::Udp)),
            ),
            (StartupPhase::BindingUdp, StartupEvent::Bound) => (
                Startup { phase: StartupPhase::BindingTcp, ..self },
                Some(StartupAction::Bind(Socket::Tcp)),
            ),
            (StartupPhase::BindingUdp, StartupEvent::BindFailed) => (
                Startup { phase: StartupPhase::Finished, ..self },
                Some(self.bind_failure(Socket::Udp)),
            ),
            (StartupPhase::BindingTcp, StartupEvent::Bound) => (
                Startup { phase: StartupPhase::Running, ..self },
                Some(StartupAction::RunServer),
            ),
            (StartupPhase::BindingTcp, StartupEvent::BindFailed) => (
                Startup { phase: StartupPhase::Finished, ..self },
                Some(self.bind_failure(Socket::Tcp)),
            ),
            (StartupPhase::Running, StartupEvent::ServerReturned) => (
                Startup { phase: StartupPhase::Finished, ..self },
                Some(StartupAction::Finish { expected: !self.dedicated }),
            ),
            _ => (self, None),
        }
    }

    /// A failed bind of either socket ends the startup. It ends the process
    /// exactly when the server is dedicated; an embedded server hands the
    /// error to its host instead.
    pub proof fn lemma_bind_failure_policy(self)
        requires
            self.phase is BindingUdp || self.phase is BindingTcp,
        ensures
            self.next(StartupEvent::BindFailed).0.phase is Finished,
            self.next(StartupEvent::BindFailed).1 matches Some(action) && (action is Abort
                <==> self.dedicated) && (action is Fail <==> !self.dedicated),
    {
    }

    /// The sockets are bound one after the other, UDP first: the TCP socket
    /// is asked for only when the UDP socket is bound, and the server runs
    /// only when the TCP socket is bound too.
    pub proof fn lemma_udp_before_tcp(self, event: StartupEvent)
        ensures
            self.next(event).1 == Some(StartupAction::Bind(Socket::Udp)) <==> (self.phase
                is Configuring && event is Configured),
            self.next(event).1 == Some(StartupAction::Bind(Socket::Tcp)) <==> (self.phase
                is BindingUdp && event is Bound),
            self.next(event).1 == Some(StartupAction::RunServer) <==> (self.phase is BindingTcp
                && event is Bound),
    {
    }

    /// The startup ends in success only when the server's loop has
    /// returned, and that return is expected of an embedded server only.
    pub proof fn lemma_return_expected_when_embedded(self, event: StartupEvent)
        ensures
            self.next(event).1 matches Some(StartupAction::Finish { expected }) ==> self.phase
                is Running && event is ServerReturned && expected == !self.dedicated,
            self.phase is Running && event is ServerReturned ==> self.next(event).1 == Some(
                StartupAction::Finish { expected: !self.dedicated },
            ),
    {
    }

    /// The actions that a run of events calls for, in the order in which
    /// they are called for.
    pub open spec fn issued(self, events: Seq<StartupEvent>) -> Seq<StartupAction>
        decreases events.len(),
    {
        if events.len() == 0 {
            Seq::empty()
        } else {
            let (after, action) = self.next(events[0]);
            let rest = after.issued(events.drop_first());
            match action {
                Some(first) => seq![first] + rest,
                None => rest,
            }
        }
    }

    /// Whether `actions` is a course that a startup in this phase can take.
    ///
    /// The full course binds the UDP socket, binds the TCP socket, runs the
    /// server and finishes. A course may stop early, and a failed bind ends
    /// it with the action that the deployment calls for in place of the next
    /// step. Nothing follows a failure or the finish.
    pub open spec fn allows(self, actions: Seq<StartupAction>) -> bool
        decreases actions.len(),
    {
        if actions.len() == 0 {
            true
        } else {
            let rest = actions.drop_first();
            match self.phase {
                StartupPhase::Configuring => {
                    &&& actions[0] == StartupAction::Bind(Socket::Udp)
                    &&& Startup { phase: StartupPhase::BindingUdp, ..self }.allows(rest)
                },
                StartupPhase::BindingUdp => {
                    ||| actions[0] == StartupAction::Bind(Socket::Tcp) && Startup {
                        phase: StartupPhase::BindingTcp,
                        ..self
                    }.allows(rest)
                    ||| actions[0] == self.bind_failure(Socket::Udp) && rest.len() == 0
                },
                StartupPhase::BindingTcp => {
                    ||| actions[0] == StartupAction::RunServer && Startup {
                        phase: StartupPhase::Running,
                        ..self
                    }.allows(rest)
                    ||| actions[0] == self.bind_failure(Socket::Tcp) && rest.len() == 0
                },
                StartupPhase::Running => {
                    &&& actions[0] == StartupAction::Finish { expected: !self.dedicated }
                    &&& rest.len() == 0
                },
                StartupPhase::Finished => false,
            }
        }
    }

    /// A finished startup calls for nothing more, whatever is reported to it.
    pub proof fn lemma_finished_is_final(self, events: Seq<StartupEvent>)
        requires
            self.phase is Finished,
        ensures
            self.issued(events) == Seq::<StartupAction>::empty(),
        decreases events.len(),
    {
        if events.len() > 0 {
            self.lemma_finished_is_final(events.drop_first());
        }
    }

    /// Whatever is reported and in whatever order, the actions called for
    /// follow the course of a startup: no socket is bound twice, the TCP
    /// socket is bound only after the UDP socket, the server runs only after
    /// both, and a failed bind is the last thing that happens.
    pub proof fn lemma_actions_follow_the_course(self, events: Seq<StartupEvent>)
        ensures
            self.allows(self.issued(events)),
        decreases events.len(),
    {
        if events.len() > 0 {
            let (after, action) = self.next(events[0]);
            let rest = after.issued(events.drop_first());
            after.lemma_actions_follow_the_course(events.drop_first());
            if after.phase is Finished {
                after.lemma_finished_is_final(events.drop_first());
            }
            if let Some(first) = action {
                assert((seq![first] + rest).drop_first() =~= rest);
            }
        }
    }

    /// A step changes the phase and nothing else, and a finished startup
    /// stays finished.
    pub proof fn lemma_step_keeps_deployment(self, event: StartupEvent)
        ensures
            self.next(event).0.dedicated == self.dedicated,
            self.next(event).0.port == self.port,
            self.phase is Finished ==> self.next(event) == (self, None::<StartupAction>),
    {
    }

    /// The startup of a server with this configuration. It is dedicated
    /// exactly when it has no control link to a host.
    pub fn new(startup_config: &StartupConfiguration, ffi_channel: &Option<FfiChannelPair>) -> (startup:
        Startup)
        ensures
            startup.phase == StartupPhase::Configuring,
            startup.dedicated == (ffi_channel is None),
            startup.port == startup_config.bind_address.port,
    {
        Startup {
            phase: StartupPhase::Configuring,
            dedicated: ffi_channel.is_none(),
            port: startup_config.bind_address.port,
        }
    }

    /// What a failed bind of `socket` leads to.
    pub fn on_bind_failure(&self, socket: Socket) -> (action: StartupAction)
        ensures
            action == self.bind_failure(socket),
    {
        let privileged_port_hint = match socket {
            Socket::Udp => self.port < PRIVILEGED_PORT_LIMIT,
            Socket::Tcp => false,
        };
        if self.dedicated {
            StartupAction::Abort { socket, privileged_port_hint }
        } else {
            StartupAction::Fail { socket, privileged_port_hint }
        }
    }

    /// Takes what the caller reports and says what to do next. `None` means
    /// that the event does not belong to the current phase; nothing has
    /// changed then.
    pub fn step(&mut self, event: StartupEvent) -> (action: Option<StartupAction>)
        ensures
            (*final(self), action) == old(self).next(event),
    {
        match (self.phase, event) {
            (StartupPhase::Configuring, StartupEvent::Configured) => {
                self.phase = StartupPhase::BindingUdp;
                Some(StartupAction::Bind(Socket::Udp))
            },
            (StartupPhase::BindingUdp, StartupEvent::Bound) => {
                self.phase = StartupPhase::BindingTcp;
                Some(StartupAction::Bind(Socket::Tcp))
            },
            (StartupPhase::BindingUdp, StartupEvent::BindFailed) => {
                let action = self.on_bind_failure(Socket::Udp);
                self.phase = StartupPhase::Finished;
                Some(action)
            },
            (StartupPhase::BindingTcp, StartupEvent::Bound) => {
                self.phase = StartupPhase::Running;
                Some(StartupAction::RunServer)
            },
            (StartupPhase::BindingTcp, StartupEvent::BindFailed) => {
                let action = self.on_bind_failure(Socket::Tcp);
                self.phase = StartupPhase::Finished;
                Some(action)
            },
            (StartupPhase::Running, StartupEvent::ServerReturned) => {
                self.phase = StartupPhase::Finished;
                Some(StartupAction::Finish { expected: !self.dedicated })
            },
            _ => None,
        }
    }
}

} // verus!
