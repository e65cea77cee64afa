//! The one explicit context object: all compositor state that reactor
//! callbacks read and mutate. Exactly one callback runs at a time, so a
//! single exclusive reference to this struct is the whole concurrency story.

use vstd::prelude::*;
use crate::geometry::Point;
use crate::grabs::GrabSession;
use crate::ids::{ClientId, Serial, SurfaceId};
use crate::seat::{GrabStartData, Pointer, Seat};
use crate::space::{has_surface, win_index, without_client, Output, Space, Window};

verus! {

/// The compositor core's state: the window space, the seat's pointer, the
/// active grab session (absence is the idle state) and the redraw counter
/// the frame timer decays.
pub struct State {
    pub space: Space,
    pub seat: Seat,
    pub grab: Option<GrabSession>,
    pub full_redraw: u8,
}

impl State {
    /// The space's invariant: every mapped window has exactly one placement.
    pub open spec fn wf(&self) -> bool {
        self.space.wf()
    }

    /// A fresh core: empty space, one seat with an idle pointer, no grab.
    pub fn new() -> (r: State)
        ensures
            r.space.windows@ =~= Seq::<Window>::empty(),
            r.space.outputs@ =~= Seq::<Output>::empty(),
            r.seat == (Seat {
                pointer: Some(Pointer { grab_serial: None, start_data: None, focus: None }),
            }),
            r.grab is None,
            r.full_redraw == 0,
            r.wf(),
    {
        State {
            space: Space::new(),
            seat: Seat { pointer: Some(Pointer::idle()) },
            grab: None,
            full_redraw: 0,
        }
    }

    /// Routes normal pointer focus to `focus`; a seat without a pointer
    /// ignores the event.
    pub fn set_pointer_focus(&mut self, focus: Option<SurfaceId>)
        ensures
            final(self).space == old(self).space,
            final(self).grab == old(self).grab,
            final(self).full_redraw == old(self).full_redraw,
            final(self).seat == (match old(self).seat.pointer {
                None => old(self).seat,
                Some(pt) => Seat { pointer: Some((Pointer { focus, ..pt })) },
            }),
    {
        match &mut self.seat.pointer {
            Some(pt) => {
                pt.focus = focus;
            },
            None => {},
        }
    }

    /// Records the protocol layer's implicit button-down grab: its serial
    /// and its start data (the focused surface and the pointer position at
    /// the press). A seat without a pointer ignores the event.
    pub fn pointer_button_down(
        &mut self,
        serial: Serial,
        focus: Option<SurfaceId>,
        location: Point,
    )
        ensures
            final(self).space == old(self).space,
            final(self).grab == old(self).grab,
            final(self).full_redraw == old(self).full_redraw,
            final(self).seat == (match old(self).seat.pointer {
                None => old(self).seat,
                Some(pt) => Seat {
                    pointer: Some(
                        (Pointer {
                            grab_serial: Some(serial),
                            start_data: Some((GrabStartData { focus, location })),
                            focus,
                        }),
                    ),
                },
            }),
    {
        match &mut self.seat.pointer {
            Some(pt) => {
                pt.grab_serial = Some(serial);
                pt.start_data = Some(GrabStartData { focus, location });
                pt.focus = focus;
            },
            None => {},
        }
    }

    /// A surface was destroyed: its window is unmapped and a grab session
    /// targeting it ends.
    pub fn surface_destroyed(&mut self, surface: SurfaceId)
        requires
            old(self).wf(),
        ensures
            final(self).wf(),
            final(self).seat == old(self).seat,
            final(self).full_redraw == old(self).full_redraw,
            final(self).space.outputs@ == old(self).space.outputs@,
            has_surface(old(self).space.windows@, surface) ==> final(self).space.windows@ == old(
                self,
            ).space.windows@.remove(win_index(old(self).space.windows@, surface)),
            !has_surface(old(self).space.windows@, surface) ==> final(self).space.windows@ == old(
                self,
            ).space.windows@,
            !has_surface(final(self).space.windows@, surface),
            final(self).grab == (match old(self).grab {
                Some(g) => if g.surface == surface {
                    None::<GrabSession>
                } else {
                    Some(g)
                },
                None => None::<GrabSession>,
            }),
    {
        self.space.unmap_surface(surface);
        let ended = match &self.grab {
            Some(g) => g.surface == surface,
            None => false,
        };
        if ended {
            self.grab = None;
        }
    }

    /// A client disconnected: every window it owned is unmapped and a grab
    /// session it held ends. Disconnect is a normal lifecycle event; the
    /// observing side of it lives in `client::ClientState`.
    pub fn client_disconnected(&mut self, client: ClientId)
        requires
            old(self).wf(),
        ensures
            final(self).wf(),
            final(self).seat == old(self).seat,
            final(self).full_redraw == old(self).full_redraw,
            final(self).space.outputs@ == old(self).space.outputs@,
            final(self).space.windows@ == without_client(old(self).space.windows@, client),
            final(self).grab == (match old(self).grab {
                Some(g) => if g.surface.client == client {
                    None::<GrabSession>
                } else {
                    Some(g)
                },
                None => None::<GrabSession>,
            }),
    {
        self.space.remove_client(client);
        let ended = match &self.grab {
            Some(g) => g.surface.client == client,
            None => false,
        };
        if ended {
            self.grab = None;
        }
    }
}

} // verus!
