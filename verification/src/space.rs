//! The window space: the ordered collection of mapped windows plus output
//! placement. Z-order is insertion order; every mapped window has exactly
//! one placement, enforced by keeping surfaces unique.

use vstd::prelude::*;
use crate::geometry::{Point, Rect, Size};
use crate::ids::{ClientId, SurfaceId};

verus! {

/// One mapped top-level window: the surface it wraps, its placement in the
/// shared coordinate space, its last-known size, the resize-in-progress
/// flag, and the first-configure latch.
#[derive(Clone, Copy, Debug, PartialEq, Eq, Structural)]
pub struct Window {
    pub surface: SurfaceId,
    pub loc: Point,
    pub size: Size,
    /// Announced to the client while an interactive resize is in progress.
    pub resizing: bool,
    /// Whether the mandatory first configure has been sent (the commit latch).
    pub initial_configure_sent: bool,
}

/// How an output's content is rotated or flipped before scan-out.
#[derive(Clone, Copy, Debug, PartialEq, Eq, Structural)]
pub enum Transform {
    Normal,
    Flipped180,
}

/// A display sink: its one mode (pixel size and refresh rate in
/// millihertz), its transform and its placement origin in the shared
/// coordinate space.
#[derive(Clone, Copy, Debug, PartialEq, Eq, Structural)]
pub struct Output {
    pub mode_size: Size,
    pub refresh_millihz: u32,
    pub transform: Transform,
    pub loc: Point,
}

/// The space itself: mapped windows in Z/insertion order, plus outputs.
pub struct Space {
    pub windows: Vec<Window>,
    pub outputs: Vec<Output>,
}

/// No surface is mapped twice: every mapped window has exactly one placement.
pub open spec fn wf_windows(ws: Seq<Window>) -> bool {
    forall|i: int, j: int|
        0 <= i < j < ws.len() ==> ws[i].surface != ws[j].surface
}

/// Some mapped window wraps `s`.
pub open spec fn has_surface(ws: Seq<Window>, s: SurfaceId) -> bool {
    exists|i: int| 0 <= i < ws.len() && ws[i].surface == s
}

/// The index of the window wrapping `s`; meaningful when `has_surface` and
/// `wf_windows` hold, in which case it is unique.
pub open spec fn win_index(ws: Seq<Window>, s: SurfaceId) -> int {
    choose|i: int| 0 <= i < ws.len() && ws[i].surface == s
}

/// The windows that survive the disconnect of client `c`, in order.
pub open spec fn without_client(ws: Seq<Window>, c: ClientId) -> Seq<Window>
    decreases ws.len(),
{
    if ws.len() == 0 {
        Seq::empty()
    } else {
        let rest = without_client(ws.drop_last(), c);
        if ws.last().surface.client == c {
            rest
        } else {
            rest.push(ws.last())
        }
    }
}

/// Under `wf_windows`, the index of a mapped surface is the unique position
/// holding it.
pub proof fn lemma_win_index_unique(ws: Seq<Window>, s: SurfaceId, i: int)
    requires
        wf_windows(ws),
        0 <= i < ws.len(),
        ws[i].surface == s,
    ensures
        win_index(ws, s) == i,
{
    let j = win_index(ws, s);
    assert(0 <= j < ws.len() && ws[j].surface == s);
}

/// No window of a disconnected client survives, and every other window
/// survives unchanged, in order.
pub proof fn lemma_without_client_membership(ws: Seq<Window>, c: ClientId, w: Window)
    ensures
        without_client(ws, c).contains(w) <==> (ws.contains(w) && w.surface.client != c),
    decreases ws.len(),
{
    if ws.len() > 0 {
        let rest = without_client(ws.drop_last(), c);
        lemma_without_client_membership(ws.drop_last(), c, w);
        assert(ws.contains(w) <==> (ws.drop_last().contains(w) || ws.last() == w)) by {
            if ws.contains(w) {
                let i = choose|i: int| 0 <= i < ws.len() && ws[i] == w;
                if i < ws.len() - 1 {
                    assert(ws.drop_last()[i] == w);
                }
            }
            if ws.drop_last().contains(w) {
                let i = choose|i: int| 0 <= i < ws.drop_last().len() && ws.drop_last()[i] == w;
                assert(ws[i] == w);
            }
        }
        if ws.last().surface.client != c {
            let out = rest.push(ws.last());
            assert(out.contains(w) <==> (rest.contains(w) || ws.last() == w)) by {
                if out.contains(w) {
                    let i = choose|i: int| 0 <= i < out.len() && out[i] == w;
                    if i < rest.len() {
                        assert(rest[i] == w);
                    }
                }
                if rest.contains(w) {
                    let i = choose|i: int| 0 <= i < rest.len() && rest[i] == w;
                    assert(out[i] == w);
                }
                assert(out[out.len() - 1] == ws.last());
            }
        }
    }
}

/// Removing a client's windows keeps the surfaces of the rest unique.
pub proof fn lemma_without_client_wf(ws: Seq<Window>, c: ClientId)
    requires
        wf_windows(ws),
    ensures
        wf_windows(without_client(ws, c)),
        forall|s: SurfaceId|
            has_surface(without_client(ws, c), s) ==> #[trigger] has_surface(ws, s),
    decreases ws.len(),
{
    let out = without_client(ws, c);
    if ws.len() > 0 {
        assert(wf_windows(ws.drop_last()));
        lemma_without_client_wf(ws.drop_last(), c);
        let rest = without_client(ws.drop_last(), c);
        assert forall|i: int| 0 <= i < rest.len() implies ws.drop_last().contains(#[trigger] rest[i]) by {
            lemma_without_client_membership(ws.drop_last(), c, rest[i]);
        }
        if ws.last().surface.client != c {
            assert forall|i: int, j: int| 0 <= i < j < out.len() implies out[i].surface != out[j].surface by {
                if j == out.len() - 1 {
                    let k = choose|k: int| 0 <= k < ws.drop_last().len() && ws.drop_last()[k] == rest[i];
                    assert(ws[k].surface != ws.last().surface);
                }
            }
        }
        assert forall|s: SurfaceId| has_surface(out, s) implies #[trigger] has_surface(ws, s) by {
            let i = choose|i: int| 0 <= i < out.len() && out[i].surface == s;
            lemma_without_client_membership(ws, c, out[i]);
            let k = choose|k: int| 0 <= k < ws.len() && ws[k] == out[i];
            assert(ws[k].surface == s);
        }
    }
}

impl Space {
    /// An empty space: no windows, no outputs.
    pub fn new() -> (r: Space)
        ensures
            r.windows@ =~= Seq::<Window>::empty(),
            r.outputs@ =~= Seq::<Output>::empty(),
    {
        Space { windows: Vec::new(), outputs: Vec::new() }
    }

    /// Every mapped window has exactly one placement.
    pub open spec fn wf(&self) -> bool {
        wf_windows(self.windows@)
    }

    /// Index of the window wrapping `surface`, if that surface is mapped.
    pub fn window_for_surface(&self, surface: SurfaceId) -> (r: Option<usize>)
        requires
            self.wf(),
        ensures
            match r {
                Some(i) => {
                    &&& has_surface(self.windows@, surface)
                    &&& 0 <= i < self.windows@.len()
                    &&& self.windows@[i as int].surface == surface
                    &&& i as int == win_index(self.windows@, surface)
                },
                None => !has_surface(self.windows@, surface),
            },
    {
        let n = self.windows.len();
        let mut i: usize = 0;
        while i < n
            invariant
                self.wf(),
                n == self.windows@.len(),
                0 <= i <= n,
                forall|k: int| 0 <= k < i ==> self.windows@[k].surface != surface,
            decreases n - i,
        {
            if self.windows[i].surface == surface {
                proof {
                    lemma_win_index_unique(self.windows@, surface, i as int);
                }
                return Some(i);
            }
            i = i + 1;
        }
        None
    }

    /// Maps a fresh window into the space at the end of the stacking order.
    pub fn map_window(&mut self, w: Window)
        requires
            old(self).wf(),
            !has_surface(old(self).windows@, w.surface),
        ensures
            final(self).windows@ == old(self).windows@.push(w),
            final(self).outputs@ == old(self).outputs@,
            final(self).wf(),
    {
        self.windows.push(w);
        proof {
            assert(self.windows@.drop_last() =~= old(self).windows@);
        }
    }

    /// Placement of the window at `i`.
    pub fn window_location(&self, i: usize) -> (r: Point)
        requires
            i < self.windows@.len(),
        ensures
            r == self.windows@[i as int].loc,
    {
        self.windows[i].loc
    }

    /// Replaces the geometry (placement and size) of the window at `i`.
    pub fn set_window_rect(&mut self, i: usize, r: Rect)
        requires
            i < old(self).windows@.len(),
        ensures
            final(self).windows@ == old(self).windows@.update(
                i as int,
                (Window { loc: r.loc, size: r.size, ..old(self).windows@[i as int] }),
            ),
            final(self).outputs@ == old(self).outputs@,
    {
        let w = self.windows[i];
        self.windows.set(i, Window { loc: r.loc, size: r.size, ..w });
    }

    /// Sets or clears the resize-in-progress flag of the window at `i`.
    pub fn set_window_resizing(&mut self, i: usize, resizing: bool)
        requires
            i < old(self).windows@.len(),
        ensures
            final(self).windows@ == old(self).windows@.update(
                i as int,
                (Window { resizing, ..old(self).windows@[i as int] }),
            ),
            final(self).outputs@ == old(self).outputs@,
    {
        let w = self.windows[i];
        self.windows.set(i, Window { resizing, ..w });
    }

    /// Marks the first configure of the window at `i` as sent.
    pub fn set_configure_sent(&mut self, i: usize)
        requires
            i < old(self).windows@.len(),
        ensures
            final(self).windows@ == old(self).windows@.update(
                i as int,
                (Window { initial_configure_sent: true, ..old(self).windows@[i as int] }),
            ),
            final(self).outputs@ == old(self).outputs@,
    {
        let w = self.windows[i];
        self.windows.set(i, Window { initial_configure_sent: true, ..w });
    }

    /// Unmaps the window wrapping `surface`, if it is mapped; otherwise the
    /// space is untouched.
    pub fn unmap_surface(&mut self, surface: SurfaceId)
        requires
            old(self).wf(),
        ensures
            has_surface(old(self).windows@, surface) ==> final(self).windows@
                == old(self).windows@.remove(win_index(old(self).windows@, surface)),
            !has_surface(old(self).windows@, surface) ==> final(self).windows@
                == old(self).windows@,
            final(self).outputs@ == old(self).outputs@,
            final(self).wf(),
            !has_surface(final(self).windows@, surface),
    {
        let found = self.window_for_surface(surface);
        match found {
            Some(i) => {
                self.windows.remove(i);
                proof {
                    let ws = old(self).windows@;
                    let rs = self.windows@;
                    assert forall|a: int, b: int| 0 <= a < b < rs.len() implies
                        rs[a].surface != rs[b].surface by {
                        let ia = if a < i as int { a } else { a + 1 };
                        let ib = if b < i as int { b } else { b + 1 };
                        assert(rs[a] == ws[ia] && rs[b] == ws[ib]);
                    }
                    assert forall|k: int| 0 <= k < rs.len() implies
                        rs[k].surface != surface by {
                        let ik = if k < i as int { k } else { k + 1 };
                        assert(rs[k] == ws[ik]);
                    }
                }
            },
            None => {},
        }
    }

    /// Unmaps every window owned by client `c` (its disconnect invalidates
    /// all of its surfaces).
    pub fn remove_client(&mut self, c: ClientId)
        requires
            old(self).wf(),
        ensures
            final(self).windows@ == without_client(old(self).windows@, c),
            final(self).outputs@ == old(self).outputs@,
            final(self).wf(),
    {
        let n = self.windows.len();
        let mut out: Vec<Window> = Vec::new();
        let mut i: usize = 0;
        while i < n
            invariant
                n == self.windows@.len(),
                0 <= i <= n,
                out@ =~= without_client(self.windows@.take(i as int), c),
            decreases n - i,
        {
            let w = self.windows[i];
            proof {
                let pre = self.windows@.take(i as int);
                let cur = self.windows@.take(i as int + 1);
                assert(cur.drop_last() =~= pre);
                assert(cur.last() == w);
            }
            if !(w.surface.client == c) {
                out.push(w);
            }
            i = i + 1;
        }
        proof {
            assert(self.windows@.take(n as int) =~= self.windows@);
            lemma_without_client_wf(self.windows@, c);
        }
        self.windows = out;
    }

    /// Maps an output into the space.
    pub fn map_output(&mut self, o: Output)
        ensures
            final(self).windows@ == old(self).windows@,
            final(self).outputs@ == old(self).outputs@.push(o),
    {
        self.outputs.push(o);
    }
}

} // verus!
