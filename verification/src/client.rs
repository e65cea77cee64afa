//! Per-connection lifecycle data.

use vstd::prelude::*;
use crate::ids::ClientId;

verus! {

/// Why a client connection went away. A disconnect is a normal lifecycle
/// event, not an error.
#[derive(Clone, Copy, Debug, PartialEq, Eq, Structural)]
pub enum DisconnectReason {
    /// The client closed its end of the connection.
    ConnectionClosed,
    /// The connection was severed because the client broke the protocol.
    ProtocolError,
}

/// Data attached to each freshly accepted client connection: a no-op
/// lifecycle observer. Connect and disconnect are observed here but trigger
/// no cleanup beyond what the protocol layer itself performs; the real
/// invalidation of a disconnected client's windows and grab runs through
/// `state::State::client_disconnected`.
pub struct ClientState;

impl ClientState {
    /// Called once when the connection is registered.
    pub fn initialized(&self, _client: ClientId) {
    }

    /// Called once when the connection goes away.
    pub fn disconnected(&self, _client: ClientId, _reason: DisconnectReason) {
    }
}

} // verus!
