//! The shell protocol handler: client lifecycle requests (new window,
//! move/resize request, popup stub), the serial validator that authorizes
//! grab starts, and the per-surface first-configure latch.

use vstd::prelude::*;
use crate::geometry::{Point, Rect, Size};
use crate::grabs::{GrabKind, GrabSession, ResizeEdges};
use crate::ids::{Serial, SurfaceId};
use crate::seat::{GrabStartData, Pointer, Seat};
use crate::space::{has_surface, lemma_win_index_unique, wf_windows, win_index, Space, Window};
use crate::state::State;

verus! {

/// A configure message for a toplevel: the geometry negotiation the client
/// must answer with a matching commit, and whether the toplevel is currently
/// being interactively resized.
#[derive(Clone, Copy, Debug, PartialEq, Eq)]
pub struct Configure {
    pub surface: SurfaceId,
    pub size: Size,
    pub resizing: bool,
}

/// How a move/resize request was answered. Unauthorized or stale requests
/// are silently ignored: they arise from ordinary request/event races and
/// must never surface to the client as an error.
#[derive(Clone, Copy, Debug, PartialEq, Eq, Structural)]
pub enum RequestOutcome {
    /// The request was authorized and a grab session is now active.
    Started,
    /// The request failed validation and was silently dropped.
    Ignored,
    /// The request was authorized but its surface has no mapped window: a
    /// broken internal invariant, reported as a typed error rather than
    /// aborting the process.
    MissingTarget,
}

/// What a surface commit triggered at the latch.
#[derive(Clone, Copy, Debug, PartialEq, Eq, Structural)]
pub enum CommitOutcome {
    /// The surface has no mapped window; the commit is ignored by this core.
    NotMapped,
    /// This was the first commit after mapping: the one implicit configure
    /// is to be sent now.
    FirstConfigure,
    /// The latch was already satisfied; no implicit configure.
    NoConfigure,
}

/// Whether a grab-start request is authorized: the seat has a pointer, that
/// pointer holds an implicit grab whose serial equals the request's, the
/// grab recorded a focus, and the focus belongs to the client owning the
/// target surface.
pub open spec fn grab_authorized(seat: Seat, surface: SurfaceId, serial: Serial) -> bool {
    &&& seat.pointer is Some
    &&& seat.pointer->0.grab_serial == Some(serial)
    &&& seat.pointer->0.start_data is Some
    &&& seat.pointer->0.start_data->0.focus is Some
    &&& seat.pointer->0.start_data->0.focus->0.client == surface.client
}

/// The grab-start data an authorized request captures.
pub open spec fn authorized_start_data(seat: Seat) -> GrabStartData {
    seat.pointer->0.start_data->0
}

/// The serial validator: yields the pointer's grab-start data iff the
/// request is authorized, and nothing otherwise - a failed check is a
/// soft-fail, not an error.
pub fn check_grab(seat: &Seat, surface: SurfaceId, serial: Serial) -> (r: Option<GrabStartData>)
    ensures
        grab_authorized(*seat, surface, serial) ==> r == Some(authorized_start_data(*seat)),
        !grab_authorized(*seat, surface, serial) ==> r is None,
{
    let pt = match &seat.pointer {
        None => {
            return None;
        },
        Some(pt) => pt,
    };
    match pt.grab_serial {
        Some(s) if s == serial => {},
        _ => {
            return None;
        },
    }
    let start_data = match &pt.start_data {
        None => {
            return None;
        },
        Some(sd) => *sd,
    };
    let focus = match &start_data.focus {
        None => {
            return None;
        },
        Some(f) => *f,
    };
    if !focus.same_client_as(&surface) {
        return None;
    }
    Some(start_data)
}

/// Law: a request whose serial differs from the pointer's active implicit
/// grab serial is never authorized, so it produces no grab session and no
/// space mutation.
pub proof fn lemma_stale_serial_unauthorized(seat: Seat, surface: SurfaceId, serial: Serial)
    requires
        seat.pointer matches Some(pt) ==> pt.grab_serial != Some(serial),
    ensures
        !grab_authorized(seat, surface, serial),
{
}

/// Law: a request whose matching grab recorded a focus owned by a different
/// client than the target surface's owner is never authorized.
pub proof fn lemma_foreign_focus_unauthorized(seat: Seat, surface: SurfaceId, serial: Serial)
    requires
        seat.pointer matches Some(pt) ==> (pt.start_data matches Some(sd) ==> (sd.focus
            matches Some(f) ==> f.client != surface.client)),
    ensures
        !grab_authorized(seat, surface, serial),
{
}

/// The window set a commit of `s` leaves behind: the latch of `s`'s window is
/// marked satisfied; anything else is untouched.
pub open spec fn commit_windows(ws: Seq<Window>, s: SurfaceId) -> Seq<Window> {
    if has_surface(ws, s) {
        let i = win_index(ws, s);
        if !ws[i].initial_configure_sent {
            ws.update(i, Window { initial_configure_sent: true, ..ws[i] })
        } else {
            ws
        }
    } else {
        ws
    }
}

/// What a commit of `s` triggers at the latch.
pub open spec fn commit_outcome(ws: Seq<Window>, s: SurfaceId) -> CommitOutcome {
    if has_surface(ws, s) {
        if !ws[win_index(ws, s)].initial_configure_sent {
            CommitOutcome::FirstConfigure
        } else {
            CommitOutcome::NoConfigure
        }
    } else {
        CommitOutcome::NotMapped
    }
}

/// The commit latch, run on every surface commit. Commits for surfaces
/// without a mapped window are ignored. The first commit of a mapped
/// toplevel triggers the one implicit configure and sets the latch; every
/// later commit passes through without a configure.
pub fn handle_commit(space: &mut Space, surface: SurfaceId) -> (r: CommitOutcome)
    requires
        old(space).wf(),
    ensures
        final(space).wf(),
        final(space).windows@ == commit_windows(old(space).windows@, surface),
        final(space).outputs@ == old(space).outputs@,
        r == commit_outcome(old(space).windows@, surface),
        r == CommitOutcome::FirstConfigure <==> (has_surface(old(space).windows@, surface)
            && !old(space).windows@[win_index(old(space).windows@, surface)].initial_configure_sent),
{
    let found = space.window_for_surface(surface);
    match found {
        None => CommitOutcome::NotMapped,
        Some(i) => {
            if !space.windows[i].initial_configure_sent {
                space.set_configure_sent(i);
                proof {
                    assert(wf_windows(space.windows@)) by {
                        assert(forall|k: int|
                            0 <= k < old(space).windows@.len() ==> space.windows@[k].surface == old(
                                space,
                            ).windows@[k].surface);
                    }
                }
                CommitOutcome::FirstConfigure
            } else {
                CommitOutcome::NoConfigure
            }
        },
    }
}

/// Law: the first commit of a mapped, never-configured toplevel triggers
/// exactly one implicit configure; after any commit, no later commit of the
/// same surface can trigger another.
pub proof fn lemma_commit_latch(ws: Seq<Window>, s: SurfaceId)
    requires
        wf_windows(ws),
    ensures
        (has_surface(ws, s) && !ws[win_index(ws, s)].initial_configure_sent)
            ==> commit_outcome(ws, s) == CommitOutcome::FirstConfigure,
        !has_surface(ws, s) ==> commit_outcome(ws, s) == CommitOutcome::NotMapped
            && commit_windows(ws, s) == ws,
        commit_outcome(commit_windows(ws, s), s) != CommitOutcome::FirstConfigure,
{
    let ws1 = commit_windows(ws, s);
    if has_surface(ws, s) {
        let i = win_index(ws, s);
        assert(0 <= i < ws.len() && ws[i].surface == s);
        if !ws[i].initial_configure_sent {
            assert(ws1[i].surface == s);
            assert(has_surface(ws1, s));
            assert(wf_windows(ws1)) by {
                assert(forall|k: int| 0 <= k < ws.len() ==> ws1[k].surface == ws[k].surface);
            }
            lemma_win_index_unique(ws1, s, i);
        }
    }
}

impl State {
    /// A client's new toplevel: a window wrapping `surface` is mapped into
    /// the space at placement (0,0), size not yet known, resize flag off and
    /// the configure latch unset. No configure is sent now: the first one goes
    /// out when the surface first commits. A surface that is already mapped
    /// cannot be mapped again; such a request leaves the space untouched.
    pub fn new_toplevel(&mut self, surface: SurfaceId)
        requires
            old(self).wf(),
        ensures
            final(self).wf(),
            final(self).seat == old(self).seat,
            final(self).grab == old(self).grab,
            final(self).full_redraw == old(self).full_redraw,
            final(self).space.outputs@ == old(self).space.outputs@,
            !has_surface(old(self).space.windows@, surface) ==> final(self).space.windows@ == old(
                self,
            ).space.windows@.push(
                (Window {
                    surface,
                    loc: (Point { x: 0, y: 0 }),
                    size: (Size { w: 0, h: 0 }),
                    resizing: false,
                    initial_configure_sent: false,
                }),
            ),
            has_surface(old(self).space.windows@, surface) ==> final(self).space.windows@ == old(
                self,
            ).space.windows@,
    {
        let found = self.space.window_for_surface(surface);
        if found.is_none() {
            self.space.map_window(
                Window {
                    surface,
                    loc: Point { x: 0, y: 0 },
                    size: Size { w: 0, h: 0 },
                    resizing: false,
                    initial_configure_sent: false,
                },
            );
        }
    }

    /// A client's new popup: accepted but not mapped into the space. Popup
    /// placement and popup grabs are outside this core.
    pub fn new_popup(&self, _surface: SurfaceId) {
    }

    /// A popup grab request: a documented stub, accepted and ignored.
    /// Popups are never mapped, so ignoring the grab breaks no protocol
    /// promise.
    pub fn grab(&self, _surface: SurfaceId, _serial: Serial) {
    }

    /// A client's request to start an interactive move of the toplevel
    /// wrapping `surface`. Runs the serial validator; an unauthorized or
    /// stale request is silently dropped and mutates nothing. An authorized
    /// request captures the current placement, installs a move grab session
    /// and clears pointer focus for the grab's duration, so grab motion is
    /// not misrouted to the surface under the pointer.
    pub fn move_request(&mut self, surface: SurfaceId, serial: Serial) -> (r: RequestOutcome)
        requires
            old(self).wf(),
        ensures
            final(self).wf(),
            final(self).space.windows@ == old(self).space.windows@,
            final(self).space.outputs@ == old(self).space.outputs@,
            final(self).full_redraw == old(self).full_redraw,
            !grab_authorized(old(self).seat, surface, serial) ==> {
                &&& r == RequestOutcome::Ignored
                &&& final(self).seat == old(self).seat
                &&& final(self).grab == old(self).grab
            },
            (grab_authorized(old(self).seat, surface, serial) && !has_surface(
                old(self).space.windows@,
                surface,
            )) ==> {
                &&& r == RequestOutcome::MissingTarget
                &&& final(self).seat == old(self).seat
                &&& final(self).grab == old(self).grab
            },
            (grab_authorized(old(self).seat, surface, serial) && has_surface(
                old(self).space.windows@,
                surface,
            )) ==> {
                let i = win_index(old(self).space.windows@, surface);
                &&& r == RequestOutcome::Started
                &&& final(self).grab == Some(
                    (GrabSession {
                        kind: GrabKind::Move,
                        surface,
                        start_pointer: authorized_start_data(old(self).seat).location,
                        initial_rect: (Rect {
                            loc: old(self).space.windows@[i].loc,
                            size: old(self).space.windows@[i].size,
                        }),
                    }),
                )
                &&& final(self).seat == (Seat {
                    pointer: Some((Pointer { focus: None, ..old(self).seat.pointer->0 })),
                })
            },
    {
        let start_data = match check_grab(&self.seat, surface, serial) {
            None => {
                return RequestOutcome::Ignored;
            },
            Some(sd) => sd,
        };
        let i = match self.space.window_for_surface(surface) {
            None => {
                return RequestOutcome::MissingTarget;
            },
            Some(i) => i,
        };
        let loc = self.space.window_location(i);
        let size = self.space.windows[i].size;
        self.grab = Some(
            GrabSession {
                kind: GrabKind::Move,
                surface,
                start_pointer: start_data.location,
                initial_rect: Rect { loc, size },
            },
        );
        match &mut self.seat.pointer {
            Some(pt) => {
                pt.focus = None;
            },
            None => {},
        }
        RequestOutcome::Started
    }

    /// A client's request to start an interactive resize. Validation is the
    /// same as for a move; additionally the target is marked as resizing and
    /// a configure announcing that state goes out before the grab session
    /// starts, so the client learns of the resize before any size update.
    /// `edges` decides which parts of the geometry later motion mutates.
    pub fn resize_request(&mut self, surface: SurfaceId, serial: Serial, edges: ResizeEdges) -> (r:
        (RequestOutcome, Option<Configure>))
        requires
            old(self).wf(),
        ensures
            final(self).wf(),
            final(self).space.outputs@ == old(self).space.outputs@,
            final(self).full_redraw == old(self).full_redraw,
            !grab_authorized(old(self).seat, surface, serial) ==> {
                &&& r == (RequestOutcome::Ignored, None::<Configure>)
                &&& final(self).seat == old(self).seat
                &&& final(self).grab == old(self).grab
                &&& final(self).space.windows@ == old(self).space.windows@
            },
            (grab_authorized(old(self).seat, surface, serial) && !has_surface(
                old(self).space.windows@,
                surface,
            )) ==> {
                &&& r == (RequestOutcome::MissingTarget, None::<Configure>)
                &&& final(self).seat == old(self).seat
                &&& final(self).grab == old(self).grab
                &&& final(self).space.windows@ == old(self).space.windows@
            },
            (grab_authorized(old(self).seat, surface, serial) && has_surface(
                old(self).space.windows@,
                surface,
            )) ==> {
                let i = win_index(old(self).space.windows@, surface);
                &&& r == (
                    RequestOutcome::Started,
                    Some(
                        (Configure {
                            surface,
                            size: old(self).space.windows@[i].size,
                            resizing: true,
                        }),
                    ),
                )
                &&& final(self).space.windows@ == old(self).space.windows@.update(
                    i,
                    (Window { resizing: true, ..old(self).space.windows@[i] }),
                )
                &&& final(self).grab == Some(
                    (GrabSession {
                        kind: GrabKind::Resize(edges),
                        surface,
                        start_pointer: authorized_start_data(old(self).seat).location,
                        initial_rect: (Rect {
                            loc: old(self).space.windows@[i].loc,
                            size: old(self).space.windows@[i].size,
                        }),
                    }),
                )
                &&& final(self).seat == (Seat {
                    pointer: Some((Pointer { focus: None, ..old(self).seat.pointer->0 })),
                })
            },
    {
        let start_data = match check_grab(&self.seat, surface, serial) {
            None => {
                return (RequestOutcome::Ignored, None);
            },
            Some(sd) => sd,
        };
        let i = match self.space.window_for_surface(surface) {
            None => {
                return (RequestOutcome::MissingTarget, None);
            },
            Some(i) => i,
        };
        let loc = self.space.window_location(i);
        let size = self.space.windows[i].size;
        self.space.set_window_resizing(i, true);
        proof {
            assert(wf_windows(self.space.windows@)) by {
                assert(forall|k: int|
                    0 <= k < old(self).space.windows@.len() ==> self.space.windows@[k].surface
                        == old(self).space.windows@[k].surface);
            }
        }
        self.grab = Some(
            GrabSession {
                kind: GrabKind::Resize(edges),
                surface,
                start_pointer: start_data.location,
                initial_rect: Rect { loc, size },
            },
        );
        match &mut self.seat.pointer {
            Some(pt) => {
                pt.focus = None;
            },
            None => {},
        }
        (RequestOutcome::Started, Some(Configure { surface, size, resizing: true }))
    }
}

} // verus!
