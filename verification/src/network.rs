//! The client's connection to the game server, as a state machine.
use vstd::prelude::*;
use crate::states::NetworkState;

verus! {

/// Keeps the connection to the game server.
#[derive(Clone, Copy, Debug, Default, PartialEq, Eq, Structural)]
pub struct NetworkPlugin;

/// Something that happens to the connection.
#[derive(Clone, Copy, Debug, PartialEq, Eq, Structural)]
pub enum NetworkEvent {
    /// The player asked to connect.
    ConnectRequested,
    /// The background task handed over an established connection.
    ConnectionEstablished,
}

impl NetworkPlugin {
    /// The network state after `event`: asking to connect while disconnected
    /// starts connecting, and an established connection while connecting
    /// makes the client connected; otherwise the state stays.
    pub fn next_network_state(current: NetworkState, event: NetworkEvent) -> (r: NetworkState)
        ensures
            r == (match (current, event) {
                (NetworkState::Disconnected, NetworkEvent::ConnectRequested) => NetworkState::Connecting,
                (NetworkState::Connecting, NetworkEvent::ConnectionEstablished) => NetworkState::Connected,
                _ => current,
            }),
    {
        match (current, event) {
            (NetworkState::Disconnected, NetworkEvent::ConnectRequested) => NetworkState::Connecting,
            (NetworkState::Connecting, NetworkEvent::ConnectionEstablished) => NetworkState::Connected,
            _ => current,
        }
    }
}

} // verus!
