//! How a debug adapter is reached and started.
use vstd::prelude::*;

verus! {

/// Where a TCP adapter listens and how long it needs to start listening.
#[derive(Clone, Copy, Debug, PartialEq, Eq)]
pub struct TCPHost {
    /// The port to connect to; when absent a free one is found first.
    pub port: Option<u16>,
    /// The IPv4 address to connect to; loopback when absent.
    pub host: Option<[u8; 4]>,
    /// Milliseconds to wait between starting the adapter and connecting.
    pub delay: Option<u64>,
}

/// The way the client talks to the adapter.
#[derive(Clone, Copy, Debug, PartialEq, Eq)]
pub enum DebugConnectionType {
    /// Over the adapter's standard input and output.
    STDIO,
    /// Over a TCP socket that the adapter opens.
    TCP(TCPHost),
}

/// Whether the debuggee is started by the adapter or already runs.
#[derive(Clone, Copy, Debug, PartialEq, Eq, Structural)]
pub enum DebugRequestType {
    Launch,
    Attach,
}

/// Adapter-specific arguments of the launch or attach request.
#[derive(Clone, Debug, PartialEq)]
pub struct DebugRequestArgs {
    pub args: serde_json::Value,
}

/// Everything the client is told about one adapter.
#[derive(Clone, Debug, PartialEq)]
pub struct DebugAdapterConfig {
    /// The adapter's identifier, sent to it when the session is initialised.
    pub id: String,
    pub connection: DebugConnectionType,
    pub request: DebugRequestType,
    pub request_args: Option<DebugRequestArgs>,
}

} // verus!
