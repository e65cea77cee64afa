//! The seat's pointer as the grab machinery reads it: the implicit
//! button-down grab the protocol layer is holding, and the normal-routing
//! focus target.

use vstd::prelude::*;
use crate::geometry::Point;
use crate::ids::{Serial, SurfaceId};

verus! {

/// What the protocol layer recorded when the pointer's implicit button-down
/// grab began: the surface that had pointer focus at that instant (if any)
/// and the pointer's location.
#[derive(Clone, Copy, Debug, PartialEq, Eq)]
pub struct GrabStartData {
    pub focus: Option<SurfaceId>,
    pub location: Point,
}

/// The pointer device of the seat.
#[derive(Clone, Copy, Debug, PartialEq, Eq)]
pub struct Pointer {
    /// Serial of the active implicit button-down grab, if one is being held.
    pub grab_serial: Option<Serial>,
    /// Start data recorded for that implicit grab.
    pub start_data: Option<GrabStartData>,
    /// Surface that normal (non-grab) input routing currently targets.
    pub focus: Option<SurfaceId>,
}

/// A seat: a group of input devices. Only the pointer matters to this core;
/// a seat need not have one.
#[derive(Clone, Copy, Debug, PartialEq, Eq)]
pub struct Seat {
    pub pointer: Option<Pointer>,
}

impl Pointer {
    /// A pointer holding no implicit grab and focusing no surface.
    pub fn idle() -> (r: Pointer)
        ensures
            r == (Pointer { grab_serial: None, start_data: None, focus: None }),
    {
        Pointer { grab_serial: None, start_data: None, focus: None }
    }
}

} // verus!
