//! Starting an adapter, one step at a time.
//!
//! Starting an adapter alternates between work that only the caller can do
//! (finding a free port, spawning a process, sleeping, connecting a socket)
//! and decisions about what to do next. A [`Launcher`] makes the decisions:
//! it hands out a [`LaunchAction`], the caller performs it and reports back
//! with a [`LaunchEvent`].
use vstd::prelude::*;
use crate::dap::config::{DebugConnectionType, TCPHost};

verus! {

/// What is done with the adapter's three standard streams when it is spawned.
#[derive(Clone, Copy, Debug, PartialEq, Eq, Structural)]
pub enum StdioSetup {
    /// All three are pipes held by the client.
    Piped,
    /// All three are discarded; the adapter serves a socket.
    Null,
}

/// Which streams carry the protocol once the adapter is up.
#[derive(Clone, Copy, Debug, PartialEq, Eq, Structural)]
pub enum Streams {
    /// Read from the child's standard output, write to its standard input,
    /// and drain its standard error for diagnostics.
    ChildPipes,
    /// Read from and write to the two halves of the socket; there is no
    /// error stream.
    Socket,
}

/// Why an adapter could not be started.
#[derive(Clone, Copy, Debug, PartialEq, Eq, Structural)]
pub enum LaunchError {
    /// The executable could not be started.
    SpawnFailed,
    /// The child has no standard input pipe.
    MissingStdin,
    /// The child has no standard output pipe.
    MissingStdout,
    /// The child has no standard error pipe.
    MissingStderr,
    /// No port is configured and none could be found.
    NoPort,
    /// The socket could not be connected.
    ConnectFailed,
    /// The caller reported something that the last action cannot result in.
    OutOfOrder,
}

/// What the caller reports after performing an action.
#[derive(Clone, Copy, Debug, PartialEq, Eq, Structural)]
pub enum LaunchEvent {
    /// A free local port was found.
    PortAllocated(u16),
    /// No free local port could be found.
    PortUnavailable,
    /// The process runs; each flag says whether that pipe is present.
    Spawned { stdin: bool, stdout: bool, stderr: bool },
    /// The process could not be started.
    SpawnFailed,
    /// The startup delay has passed.
    DelayElapsed,
    /// The socket is connected.
    Connected,
    /// The socket could not be connected.
    ConnectFailed,
}

/// What the caller is to do next.
#[derive(Clone, Copy, Debug, PartialEq, Eq)]
pub enum LaunchAction {
    /// Bind an ephemeral listener on loopback, read its port and release it.
    AllocatePort,
    /// Spawn the adapter so that dropping its handle kills it.
    Spawn(StdioSetup),
    /// Suspend for this many milliseconds.
    Sleep(u64),
    /// Connect a socket to this address and split it into two halves.
    Connect { host: [u8; 4], port: u16 },
    /// The adapter is up; the protocol runs over these streams.
    Ready(Streams),
    /// Starting failed; the child, if any, is to be dropped.
    Fail(LaunchError),
}

/// Where a launch stands.
#[derive(Clone, Copy, Debug, PartialEq, Eq)]
pub enum Launcher {
    /// Waiting for a free port for the adapter at this address.
    AllocatingPort { host: [u8; 4], delay: Option<u64> },
    /// Waiting for the socket adapter to be spawned. The port is the
    /// configured or allocated one; there is none where none could be found.
    SpawningServer { host: [u8; 4], port: Option<u16>, delay: Option<u64> },
    /// Waiting for the startup delay to pass.
    Sleeping { host: [u8; 4], port: Option<u16> },
    /// Waiting for the socket to connect.
    Connecting,
    /// Waiting for the pipe adapter to be spawned.
    SpawningPiped,
    /// Nothing is left to do.
    Finished,
}

/// What is done when the time to connect has come: the socket is connected
/// to the port, and without a port the launch fails.
pub open spec fn connect_or_fail(host: [u8; 4], port: Option<u16>) -> (Launcher, LaunchAction) {
    match port {
        Some(port) => (Launcher::Connecting, LaunchAction::Connect { host, port }),
        None => (Launcher::Finished, LaunchAction::Fail(LaunchError::NoPort)),
    }
}

/// What follows the spawn of a socket adapter: the startup delay where one
/// is configured, else the connection.
pub open spec fn after_server_spawn(host: [u8; 4], port: Option<u16>, delay: Option<u64>) -> (
    Launcher,
    LaunchAction,
) {
    match delay {
        Some(ms) => (Launcher::Sleeping { host, port }, LaunchAction::Sleep(ms)),
        None => connect_or_fail(host, port),
    }
}

/// The first pipe that is missing, in the order input, output, error.
pub open spec fn missing_pipe(stdin: bool, stdout: bool, stderr: bool) -> Option<LaunchError> {
    if !stdin {
        Some(LaunchError::MissingStdin)
    } else if !stdout {
        Some(LaunchError::MissingStdout)
    } else if !stderr {
        Some(LaunchError::MissingStderr)
    } else {
        None
    }
}

/// The address to connect to: the configured one, or loopback.
pub open spec fn spec_host(tcp: TCPHost) -> [u8; 4] {
    match tcp.host {
        Some(h) => h,
        None => [127u8, 0u8, 0u8, 1u8],
    }
}

impl Launcher {
    /// The startup delay that a launch still has before it.
    pub open spec fn startup_delay(self) -> Option<u64> {
        match self {
            Launcher::AllocatingPort { delay, .. } => delay,
            Launcher::SpawningServer { delay, .. } => delay,
            _ => None,
        }
    }

    /// The port that a launch will connect to, where it has one.
    pub open spec fn port(self) -> Option<u16> {
        match self {
            Launcher::SpawningServer { port, .. } => port,
            Launcher::Sleeping { port, .. } => port,
            _ => None,
        }
    }

    /// The first state and action for a connection type.
    pub open spec fn spec_start(connection: DebugConnectionType) -> (Launcher, LaunchAction) {
        match connection {
            DebugConnectionType::STDIO => (
                Launcher::SpawningPiped,
                LaunchAction::Spawn(StdioSetup::Piped),
            ),
            DebugConnectionType::TCP(tcp) => match tcp.port {
                Some(port) => (
                    Launcher::SpawningServer {
                        host: spec_host(tcp),
                        port: Some(port),
                        delay: tcp.delay,
                    },
                    LaunchAction::Spawn(StdioSetup::Null),
                ),
                None => (
                    Launcher::AllocatingPort { host: spec_host(tcp), delay: tcp.delay },
                    LaunchAction::AllocatePort,
                ),
            },
        }
    }

    /// The state and action that follow an event.
    ///
    /// A port that could not be found does not stop the launch at once: the
    /// adapter is still spawned and given its startup delay, and the launch
    /// fails when the time to connect has come.
    pub open spec fn spec_advance(self, event: LaunchEvent) -> (Launcher, LaunchAction) {
        match (self, event) {
            (Launcher::AllocatingPort { host, delay }, LaunchEvent::PortAllocated(port)) => (
                Launcher::SpawningServer { host, port: Some(port), delay },
                LaunchAction::Spawn(StdioSetup::Null),
            ),
            (Launcher::AllocatingPort { host, delay }, LaunchEvent::PortUnavailable) => (
                Launcher::SpawningServer { host, port: None, delay },
                LaunchAction::Spawn(StdioSetup::Null),
            ),
            (Launcher::SpawningServer { host, port, delay }, LaunchEvent::Spawned { .. }) =>
                after_server_spawn(host, port, delay),
            (Launcher::SpawningServer { .. }, LaunchEvent::SpawnFailed) => (
                Launcher::Finished,
                LaunchAction::Fail(LaunchError::SpawnFailed),
            ),
            (Launcher::Sleeping { host, port }, LaunchEvent::DelayElapsed) => connect_or_fail(
                host,
                port,
            ),
            (Launcher::Connecting, LaunchEvent::Connected) => (
                Launcher::Finished,
                LaunchAction::Ready(Streams::Socket),
            ),
            (Launcher::Connecting, LaunchEvent::ConnectFailed) => (
                Launcher::Finished,
                LaunchAction::Fail(LaunchError::ConnectFailed),
            ),
            (Launcher::SpawningPiped, LaunchEvent::Spawned { stdin, stdout, stderr }) => (
                Launcher::Finished,
                match missing_pipe(stdin, stdout, stderr) {
                    Some(e) => LaunchAction::Fail(e),
                    None => LaunchAction::Ready(Streams::ChildPipes),
                },
            ),
            (Launcher::SpawningPiped, LaunchEvent::SpawnFailed) => (
                Launcher::Finished,
                LaunchAction::Fail(LaunchError::SpawnFailed),
            ),
            _ => (Launcher::Finished, LaunchAction::Fail(LaunchError::OutOfOrder)),
        }
    }

    /// Begins a launch: says what to do first for this connection type.
    pub fn start(connection: &DebugConnectionType) -> (r: (Launcher, LaunchAction))
        ensures
            r == Launcher::spec_start(*connection),
    {
        match connection {
            DebugConnectionType::STDIO => (
                Launcher::SpawningPiped,
                LaunchAction::Spawn(StdioSetup::Piped),
            ),
            DebugConnectionType::TCP(tcp) => {
                let host = host_or_loopback(tcp);
                match tcp.port {
                    Some(port) => (
                        Launcher::SpawningServer { host, port: Some(port), delay: tcp.delay },
                        LaunchAction::Spawn(StdioSetup::Null),
                    ),
                    None => (
                        Launcher::AllocatingPort { host, delay: tcp.delay },
                        LaunchAction::AllocatePort,
                    ),
                }
            },
        }
    }

    /// Takes the outcome of the last action and says what to do next.
    pub fn advance(self, event: LaunchEvent) -> (r: (Launcher, LaunchAction))
        ensures
            r == self.spec_advance(event),
    {
        match (self, event) {
            (Launcher::AllocatingPort { host, delay }, LaunchEvent::PortAllocated(port)) => (
                Launcher::SpawningServer { host, port: Some(port), delay },
                LaunchAction::Spawn(StdioSetup::Null),
            ),
            (Launcher::AllocatingPort { host, delay }, LaunchEvent::PortUnavailable) => (
                Launcher::SpawningServer { host, port: None, delay },
                LaunchAction::Spawn(StdioSetup::Null),
            ),
            (Launcher::SpawningServer { host, port, delay }, LaunchEvent::Spawned { .. }) => {
                match delay {
                    Some(ms) => (Launcher::Sleeping { host, port }, LaunchAction::Sleep(ms)),
                    None => connect(host, port),
                }
            },
            (Launcher::SpawningServer { .. }, LaunchEvent::SpawnFailed) => (
                Launcher::Finished,
                LaunchAction::Fail(LaunchError::SpawnFailed),
            ),
            (Launcher::Sleeping { host, port }, LaunchEvent::DelayElapsed) => connect(host, port),
            (Launcher::Connecting, LaunchEvent::Connected) => (
                Launcher::Finished,
                LaunchAction::Ready(Streams::Socket),
            ),
            (Launcher::Connecting, LaunchEvent::ConnectFailed) => (
                Launcher::Finished,
                LaunchAction::Fail(LaunchError::ConnectFailed),
            ),
            (Launcher::SpawningPiped, LaunchEvent::Spawned { stdin, stdout, stderr }) => {
                let action = if !stdin {
                    LaunchAction::Fail(LaunchError::MissingStdin)
                } else if !stdout {
                    LaunchAction::Fail(LaunchError::MissingStdout)
                } else if !stderr {
                    LaunchAction::Fail(LaunchError::MissingStderr)
                } else {
                    LaunchAction::Ready(Streams::ChildPipes)
                };
                (Launcher::Finished, action)
            },
            (Launcher::SpawningPiped, LaunchEvent::SpawnFailed) => (
                Launcher::Finished,
                LaunchAction::Fail(LaunchError::SpawnFailed),
            ),
            _ => (Launcher::Finished, LaunchAction::Fail(LaunchError::OutOfOrder)),
        }
    }
}

/// Connects to the port, or fails the launch where there is none.
fn connect(host: [u8; 4], port: Option<u16>) -> (r: (Launcher, LaunchAction))
    ensures
        r == connect_or_fail(host, port),
{
    match port {
        Some(port) => (Launcher::Connecting, LaunchAction::Connect { host, port }),
        None => (Launcher::Finished, LaunchAction::Fail(LaunchError::NoPort)),
    }
}

/// The configured address, or loopback when none is configured.
pub fn host_or_loopback(tcp: &TCPHost) -> (r: [u8; 4])
    ensures
        r == spec_host(*tcp),
{
    match tcp.host {
        Some(h) => h,
        None => [127u8, 0u8, 0u8, 1u8],
    }
}

/// The adapter counts as up only when its streams are there: over pipes
/// when the spawned child has all three of them, over a socket when the
/// socket is connected.
pub proof fn lemma_ready_only_with_streams(state: Launcher, event: LaunchEvent)
    ensures
        state.spec_advance(event).1 == LaunchAction::Ready(Streams::ChildPipes) <==> state
            is SpawningPiped && event == (LaunchEvent::Spawned {
            stdin: true,
            stdout: true,
            stderr: true,
        }),
        state.spec_advance(event).1 == LaunchAction::Ready(Streams::Socket) <==> state is Connecting
            && event is Connected,
{
}

/// A socket is connected to only after the adapter was spawned, and after
/// the startup delay where one is configured: the delay lies between the
/// spawn and the connection, never before or after. Nothing is connected to
/// without a port.
pub proof fn lemma_connect_follows_spawn_and_delay(state: Launcher, event: LaunchEvent)
    ensures
        state.spec_advance(event).1 is Connect <==> state.port() is Some && ((state
            is SpawningServer && state.startup_delay() is None && event is Spawned) || (state
            is Sleeping && event is DelayElapsed)),
        state.spec_advance(event).1 is Sleep <==> state is SpawningServer
            && state.startup_delay() is Some && event is Spawned,
        state.spec_advance(event).0 is Sleeping ==> state.spec_advance(event).1 is Sleep,
        state.spec_advance(event).0 is Connecting ==> state.spec_advance(event).1 is Connect,
{
}

/// Where no port is configured and none is found, the adapter is still
/// spawned and given its startup delay, and then the launch fails for want
/// of a port: no socket is ever connected.
pub proof fn lemma_launch_without_port(
    tcp: TCPHost,
    stdin: bool,
    stdout: bool,
    stderr: bool,
)
    requires
        tcp.port is None,
    ensures
        ({
            let spawned = LaunchEvent::Spawned { stdin, stdout, stderr };
            let (allocating, first) = Launcher::spec_start(DebugConnectionType::TCP(tcp));
            let (spawning, second) = allocating.spec_advance(LaunchEvent::PortUnavailable);
            let (waiting, third) = spawning.spec_advance(spawned);
            let no_port = (Launcher::Finished, LaunchAction::Fail(LaunchError::NoPort));
            &&& first == LaunchAction::AllocatePort
            &&& second == LaunchAction::Spawn(StdioSetup::Null)
            &&& match tcp.delay {
                Some(ms) => third == LaunchAction::Sleep(ms) && waiting.spec_advance(
                    LaunchEvent::DelayElapsed,
                ) == no_port,
                None => (waiting, third) == no_port,
            }
        }),
{
}

/// A launch ends: whatever the caller reports, after four reports nothing is
/// left to do, and from then on every report is out of order.
pub proof fn lemma_launch_ends(
    connection: DebugConnectionType,
    first: LaunchEvent,
    second: LaunchEvent,
    third: LaunchEvent,
    fourth: LaunchEvent,
    later: LaunchEvent,
)
    ensures
        ({
            let started = Launcher::spec_start(connection).0;
            let ended = started.spec_advance(first).0.spec_advance(second).0.spec_advance(
                third,
            ).0.spec_advance(fourth).0;
            &&& ended is Finished
            &&& ended.spec_advance(later) == (
                Launcher::Finished,
                LaunchAction::Fail(LaunchError::OutOfOrder),
            )
        }),
{
}

} // verus!
