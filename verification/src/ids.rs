//! Identities handed out by the protocol layer: clients, surfaces and
//! request serials.

use vstd::prelude::*;

verus! {

/// Opaque identity of one client connection.
#[derive(Clone, Copy, Debug, PartialEq, Eq, Structural)]
pub struct ClientId(pub u64);

/// Protocol identity of a drawable surface. Like a protocol object id, it
/// carries its owning client, so two surfaces can be compared for shared
/// ownership without a side table.
#[derive(Clone, Copy, Debug, PartialEq, Eq, Structural)]
pub struct SurfaceId {
    pub client: ClientId,
    pub index: u64,
}

/// Monotonically increasing identifier issued per client-visible protocol
/// interaction; correlates a move/resize request with the pointer grab it
/// answers.
#[derive(Clone, Copy, Debug, PartialEq, Eq, Structural)]
pub struct Serial(pub u32);

impl SurfaceId {
    /// Whether both surfaces belong to the same client connection.
    pub fn same_client_as(&self, other: &SurfaceId) -> (r: bool)
        ensures
            r == (self.client == other.client),
    {
        self.client == other.client
    }
}

} // verus!
