//! Interactive move/resize grab sessions: the state machine that consumes
//! pointer motion and button events while a grab is active.
//!
//! A session object exists only while a grab is active; absence of a session
//! is the idle state. Motion under a move grab translates the window by the
//! total pointer delta; motion under a resize grab applies the delta to the
//! flagged edges only. Geometry is applied unclamped: whether negative or
//! zero sizes should be clamped is deliberately left to callers.

use vstd::prelude::*;
use crate::geometry::{fits, Point, Rect, Size};
use crate::ids::SurfaceId;
use crate::seat::{Pointer, Seat};
use crate::shell::Configure;
use crate::space::{has_surface, wf_windows, win_index, lemma_win_index_unique, Window};
use crate::state::State;

verus! {

/// Which window edges an interactive resize drags. Any subset may be set.
#[derive(Clone, Copy, Debug, PartialEq, Eq, Structural)]
pub struct ResizeEdges {
    pub top: bool,
    pub bottom: bool,
    pub left: bool,
    pub right: bool,
}

/// What kind of interactive operation a grab session drives.
#[derive(Clone, Copy, Debug, PartialEq, Eq)]
pub enum GrabKind {
    Move,
    Resize(ResizeEdges),
}

/// An in-progress interactive move or resize. The target window is referred
/// to by its surface and re-validated on every event: it may be destroyed
/// while the session is active.
#[derive(Clone, Copy, Debug, PartialEq, Eq)]
pub struct GrabSession {
    pub kind: GrabKind,
    /// Surface of the target window.
    pub surface: SurfaceId,
    /// Pointer position when the grab started.
    pub start_pointer: Point,
    /// The target's placement and size when the grab started.
    pub initial_rect: Rect,
}

/// The x coordinate a motion event to `p` gives the target: moved by the
/// pointer delta under a move grab or when the left edge is dragged,
/// unchanged otherwise.
pub open spec fn motion_x(g: GrabSession, p: Point) -> int {
    match g.kind {
        GrabKind::Move => g.initial_rect.loc.x + (p.x - g.start_pointer.x),
        GrabKind::Resize(e) => if e.left {
            g.initial_rect.loc.x + (p.x - g.start_pointer.x)
        } else {
            g.initial_rect.loc.x as int
        },
    }
}

/// The y coordinate a motion event to `p` gives the target.
pub open spec fn motion_y(g: GrabSession, p: Point) -> int {
    match g.kind {
        GrabKind::Move => g.initial_rect.loc.y + (p.y - g.start_pointer.y),
        GrabKind::Resize(e) => if e.top {
            g.initial_rect.loc.y + (p.y - g.start_pointer.y)
        } else {
            g.initial_rect.loc.y as int
        },
    }
}

/// The width a motion event to `p` gives the target: shrunk when the left
/// edge moves right, grown when the right edge moves right, unchanged under
/// a move grab. Should both horizontal edges be flagged, the left one wins.
pub open spec fn motion_w(g: GrabSession, p: Point) -> int {
    match g.kind {
        GrabKind::Move => g.initial_rect.size.w as int,
        GrabKind::Resize(e) => if e.left {
            g.initial_rect.size.w - (p.x - g.start_pointer.x)
        } else if e.right {
            g.initial_rect.size.w + (p.x - g.start_pointer.x)
        } else {
            g.initial_rect.size.w as int
        },
    }
}

/// The height a motion event to `p` gives the target.
pub open spec fn motion_h(g: GrabSession, p: Point) -> int {
    match g.kind {
        GrabKind::Move => g.initial_rect.size.h as int,
        GrabKind::Resize(e) => if e.top {
            g.initial_rect.size.h - (p.y - g.start_pointer.y)
        } else if e.bottom {
            g.initial_rect.size.h + (p.y - g.start_pointer.y)
        } else {
            g.initial_rect.size.h as int
        },
    }
}

/// Whether the geometry a motion event to `p` computes is representable.
pub open spec fn motion_fits(g: GrabSession, p: Point) -> bool {
    &&& fits(motion_x(g, p))
    &&& fits(motion_y(g, p))
    &&& fits(motion_w(g, p))
    &&& fits(motion_h(g, p))
}

/// The full geometry a motion event to `p` gives the target.
pub open spec fn motion_rect(g: GrabSession, p: Point) -> Rect {
    Rect {
        loc: Point { x: motion_x(g, p) as i32, y: motion_y(g, p) as i32 },
        size: Size { w: motion_w(g, p) as i32, h: motion_h(g, p) as i32 },
    }
}

/// The window set after a motion event to `p` under session `g`: the
/// target's geometry is replaced if the target is still mapped; a vanished
/// target leaves the set untouched.
pub open spec fn motion_windows(ws: Seq<Window>, g: GrabSession, p: Point) -> Seq<Window> {
    if has_surface(ws, g.surface) {
        let i = win_index(ws, g.surface);
        ws.update(
            i,
            Window { loc: motion_rect(g, p).loc, size: motion_rect(g, p).size, ..ws[i] },
        )
    } else {
        ws
    }
}

/// Computes the geometry a motion event gives the grab target.
pub fn grab_motion_rect(g: &GrabSession, p: Point) -> (r: Rect)
    requires
        motion_fits(*g, p),
    ensures
        r == motion_rect(*g, p),
{
    let dx: i64 = (p.x as i64) - (g.start_pointer.x as i64);
    let dy: i64 = (p.y as i64) - (g.start_pointer.y as i64);
    let x0: i64 = g.initial_rect.loc.x as i64;
    let y0: i64 = g.initial_rect.loc.y as i64;
    let w0: i64 = g.initial_rect.size.w as i64;
    let h0: i64 = g.initial_rect.size.h as i64;
    match g.kind {
        GrabKind::Move => Rect {
            loc: Point { x: (x0 + dx) as i32, y: (y0 + dy) as i32 },
            size: g.initial_rect.size,
        },
        GrabKind::Resize(e) => {
            let nx: i64 = if e.left { x0 + dx } else { x0 };
            let ny: i64 = if e.top { y0 + dy } else { y0 };
            let nw: i64 = if e.left { w0 - dx } else if e.right { w0 + dx } else { w0 };
            let nh: i64 = if e.top { h0 - dy } else if e.bottom { h0 + dy } else { h0 };
            Rect {
                loc: Point { x: nx as i32, y: ny as i32 },
                size: Size { w: nw as i32, h: nh as i32 },
            }
        },
    }
}

/// Law: under a move grab, a motion event places the window at the initial
/// placement plus the total pointer delta, never changes its size, and a
/// motion back to the start position restores the initial geometry exactly.
pub proof fn lemma_move_motion(g: GrabSession, p: Point)
    requires
        g.kind is Move,
    ensures
        motion_fits(g, p) ==> motion_rect(g, p).loc.x == g.initial_rect.loc.x + (p.x
            - g.start_pointer.x),
        motion_fits(g, p) ==> motion_rect(g, p).loc.y == g.initial_rect.loc.y + (p.y
            - g.start_pointer.y),
        motion_rect(g, p).size == g.initial_rect.size,
        p == g.start_pointer ==> motion_rect(g, p) == g.initial_rect,
{
}

/// Law: under a move grab, the window set after any sequence of motion
/// events is the one the last motion alone produces - placement depends only
/// on the final pointer position.
pub proof fn lemma_move_motion_sequence(ws: Seq<Window>, g: GrabSession, p1: Point, p2: Point)
    requires
        wf_windows(ws),
    ensures
        motion_windows(motion_windows(ws, g, p1), g, p2) =~= motion_windows(ws, g, p2),
{
    if has_surface(ws, g.surface) {
        let i = win_index(ws, g.surface);
        let ws1 = motion_windows(ws, g, p1);
        assert(ws1[i].surface == g.surface);
        assert(has_surface(ws1, g.surface));
        assert(wf_windows(ws1)) by {
            assert(forall|k: int| 0 <= k < ws.len() ==> ws1[k].surface == ws[k].surface);
        }
        lemma_win_index_unique(ws1, g.surface, i);
    }
}

/// Law: a resize grab dragging the right and bottom edges keeps the origin
/// and grows the size by the pointer delta.
pub proof fn lemma_resize_right_bottom(g: GrabSession, p: Point)
    requires
        g.kind == GrabKind::Resize(
            ResizeEdges { top: false, bottom: true, left: false, right: true },
        ),
        motion_fits(g, p),
    ensures
        motion_rect(g, p).loc == g.initial_rect.loc,
        motion_rect(g, p).size.w == g.initial_rect.size.w + (p.x - g.start_pointer.x),
        motion_rect(g, p).size.h == g.initial_rect.size.h + (p.y - g.start_pointer.y),
{
}

/// Law: a resize grab dragging the left and top edges moves the origin by
/// the pointer delta and shrinks the size by the same amount.
pub proof fn lemma_resize_left_top(g: GrabSession, p: Point)
    requires
        g.kind == GrabKind::Resize(
            ResizeEdges { top: true, bottom: false, left: true, right: false },
        ),
        motion_fits(g, p),
    ensures
        motion_rect(g, p).loc.x == g.initial_rect.loc.x + (p.x - g.start_pointer.x),
        motion_rect(g, p).loc.y == g.initial_rect.loc.y + (p.y - g.start_pointer.y),
        motion_rect(g, p).size.w == g.initial_rect.size.w - (p.x - g.start_pointer.x),
        motion_rect(g, p).size.h == g.initial_rect.size.h - (p.y - g.start_pointer.y),
{
}

impl State {
    /// Consumes a pointer motion event. While a grab session is active and
    /// its target is still mapped, the target's geometry follows the
    /// pointer; a resize session additionally asks for a configure carrying
    /// the new size. A session whose target vanished ends on the spot. With
    /// no session active this is a no-op: normal focus routing is outside
    /// this core.
    pub fn pointer_motion(&mut self, p: Point) -> (r: Option<Configure>)
        requires
            old(self).wf(),
            old(self).grab matches Some(g) ==> motion_fits(g, p),
        ensures
            final(self).wf(),
            final(self).seat == old(self).seat,
            final(self).space.outputs@ == old(self).space.outputs@,
            final(self).full_redraw == old(self).full_redraw,
            match old(self).grab {
                None => {
                    &&& final(self).space.windows@ == old(self).space.windows@
                    &&& final(self).grab is None
                    &&& r is None
                },
                Some(g) => {
                    &&& final(self).space.windows@ == motion_windows(
                        old(self).space.windows@,
                        g,
                        p,
                    )
                    &&& if has_surface(old(self).space.windows@, g.surface) {
                        &&& final(self).grab == Some(g)
                        &&& r == (match g.kind {
                            GrabKind::Move => None::<Configure>,
                            GrabKind::Resize(_) => Some(
                                Configure {
                                    surface: g.surface,
                                    size: motion_rect(g, p).size,
                                    resizing: true,
                                },
                            ),
                        })
                    } else {
                        &&& final(self).grab is None
                        &&& r is None
                    }
                },
            },
    {
        let g = match &self.grab {
            None => {
                return None;
            },
            Some(g) => *g,
        };
        let found = self.space.window_for_surface(g.surface);
        match found {
            None => {
                self.grab = None;
                None
            },
            Some(i) => {
                let rect = grab_motion_rect(&g, p);
                self.space.set_window_rect(i, rect);
                proof {
                    assert(self.space.windows@ =~= motion_windows(
                        old(self).space.windows@,
                        g,
                        p,
                    ));
                    assert(wf_windows(self.space.windows@)) by {
                        assert(forall|k: int|
                            0 <= k < old(self).space.windows@.len()
                                ==> self.space.windows@[k].surface == old(
                                self,
                            ).space.windows@[k].surface);
                    }
                }
                match g.kind {
                    GrabKind::Move => None,
                    GrabKind::Resize(_) => Some(
                        Configure { surface: g.surface, size: rect.size, resizing: true },
                    ),
                }
            },
        }
    }

    /// Consumes a pointer button release. Any active grab session ends and
    /// the pointer's implicit grab is dropped, whether or not the target
    /// window still exists; a resize session whose target survives has its
    /// resize flag cleared and receives a final configure reflecting the
    /// committed geometry. Normal focus routing resumes once no grab is
    /// installed.
    pub fn pointer_button_release(&mut self) -> (r: Option<Configure>)
        requires
            old(self).wf(),
        ensures
            final(self).wf(),
            final(self).grab is None,
            final(self).space.outputs@ == old(self).space.outputs@,
            final(self).full_redraw == old(self).full_redraw,
            final(self).seat == (match old(self).seat.pointer {
                None => old(self).seat,
                Some(pt) => Seat {
                    pointer: Some(Pointer { grab_serial: None, start_data: None, ..pt }),
                },
            }),
            match old(self).grab {
                Some(g) => {
                    if g.kind is Resize && has_surface(old(self).space.windows@, g.surface) {
                        let i = win_index(old(self).space.windows@, g.surface);
                        &&& final(self).space.windows@ == old(self).space.windows@.update(
                            i,
                            (Window { resizing: false, ..old(self).space.windows@[i] }),
                        )
                        &&& r == Some(
                            Configure {
                                surface: g.surface,
                                size: old(self).space.windows@[i].size,
                                resizing: false,
                            },
                        )
                    } else {
                        &&& final(self).space.windows@ == old(self).space.windows@
                        &&& r is None
                    }
                },
                None => {
                    &&& final(self).space.windows@ == old(self).space.windows@
                    &&& r is None
                },
            },
    {
        match &mut self.seat.pointer {
            Some(pt) => {
                pt.grab_serial = None;
                pt.start_data = None;
            },
            None => {},
        }
        let g = match &self.grab {
            None => {
                return None;
            },
            Some(g) => *g,
        };
        self.grab = None;
        match g.kind {
            GrabKind::Move => None,
            GrabKind::Resize(_) => {
                let found = self.space.window_for_surface(g.surface);
                match found {
                    None => None,
                    Some(i) => {
                        let size = self.space.windows[i].size;
                        self.space.set_window_resizing(i, false);
                        proof {
                            assert(wf_windows(self.space.windows@)) by {
                                assert(forall|k: int|
                                    0 <= k < old(self).space.windows@.len()
                                        ==> self.space.windows@[k].surface == old(
                                        self,
                                    ).space.windows@[k].surface);
                            }
                        }
                        Some(Configure { surface: g.surface, size, resizing: false })
                    },
                }
            },
        }
    }
}

} // verus!
