//! Connectivity facts, kept apart from authorization: the state of the
//! relay pipe and the reachability of the local MCP endpoint are reported,
//! never consulted as authority.

use vstd::prelude::*;

verus! {

/// State of the relay transport pipe itself.
#[derive(Debug, Clone, Copy, PartialEq, Eq, Structural, Hash)]
pub enum TransportState {
    Disconnected,
    Connecting,
    Connected,
    Reconnecting,
    Failed,
}

/// Reachability of the local MCP endpoint, as last observed.
#[derive(Debug, Clone, Copy, PartialEq, Eq, Structural, Hash)]
pub enum CoreConnectionState {
    Unknown,
    Reachable,
    Unreachable,
}

} // verus!
