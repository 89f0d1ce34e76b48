use vstd::prelude::*;

verus! {

// The desktop session-state presentation layer is an external collaborator:
// these are the values it holds about the tunnel this core serves.
// Timestamps are carried as seconds of the Unix epoch.

/// A node chosen as an entry or exit point.
#[derive(Clone, Debug, PartialEq)]
pub struct NodeConfig {
    pub id: String,
    pub country: String,
}

/// Where the tunnel stands.
#[derive(Clone, Copy, Debug, PartialEq, Eq, Structural)]
pub enum ConnectionState {
    Connected,
    Disconnected,
    Connecting,
    Disconnecting,
    Unknown,
}

impl Default for ConnectionState {
    /// An unconnected session is the starting point.
    fn default() -> (r: ConnectionState)
        ensures
            r == ConnectionState::Disconnected,
    {
        ConnectionState::Disconnected
    }
}

/// How traffic is routed: through the full mixnet, or over two hops only.
#[derive(Clone, Debug, PartialEq, Eq, Structural)]
pub enum VpnMode {
    Mixnet,
    TwoHop,
}

impl Default for VpnMode {
    /// The two-hop mode is the starting point.
    fn default() -> (r: VpnMode)
        ensures
            r == VpnMode::TwoHop,
    {
        VpnMode::TwoHop
    }
}

/// The tunnel the session currently drives.
#[derive(Clone, Debug, PartialEq)]
pub struct TunnelConfig {
    pub id: String,
    pub name: String,
}

/// Everything the presentation layer shows about the session.
#[derive(Clone, Debug, PartialEq)]
pub struct AppState {
    pub state: ConnectionState,
    pub error: Option<String>,
    pub vpn_mode: VpnMode,
    pub entry_node: Option<NodeConfig>,
    pub exit_node: Option<NodeConfig>,
    pub tunnel: Option<TunnelConfig>,
    /// Seconds of the Unix epoch at which the connection came up.
    pub connection_start_time: Option<i64>,
}

impl Default for AppState {
    /// A fresh session: disconnected, two-hop, with nothing chosen and no
    /// error to show.
    fn default() -> (r: AppState)
        ensures
            r.state == ConnectionState::Disconnected,
            r.error is None,
            r.vpn_mode == VpnMode::TwoHop,
            r.entry_node is None,
            r.exit_node is None,
            r.tunnel is None,
            r.connection_start_time is None,
    {
        AppState {
            state: ConnectionState::Disconnected,
            error: None,
            vpn_mode: VpnMode::TwoHop,
            entry_node: None,
            exit_node: None,
            tunnel: None,
            connection_start_time: None,
        }
    }
}

} // verus!
