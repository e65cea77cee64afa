//! Decision logic of the event-loop driver's fixed-rate render tick: what
//! the backend events mean for the output, when the loop stops, what region
//! is damaged, and which surfaces get a frame-completion callback. The
//! reactor itself - sockets, timers, the renderer - performs what is decided
//! here.

use vstd::prelude::*;
use crate::geometry::{Point, Rect, Size};
use crate::ids::SurfaceId;
use crate::space::{Output, Transform, Window};
use crate::state::State;

verus! {

/// An event the windowing backend delivered since the last tick. Raw input
/// events are forwarded to the seat outside this core and carry no payload
/// here.
#[derive(Clone, Copy, Debug, PartialEq, Eq)]
pub enum BackendEvent {
    /// The physical output was resized to the given pixel size.
    Resized(Size),
    /// An input event, forwarded to the seat by the caller.
    Input,
    /// The backend window was closed: the reactor must stop.
    Closed,
}

/// What one render tick decided: whether the loop stops, the region to
/// repaint (always the full output), and the surfaces owed a
/// frame-completion callback, in Z/insertion order.
pub struct TickPlan {
    pub stop: bool,
    pub damage: Option<Rect>,
    pub frames: Vec<SurfaceId>,
}

/// The refresh rate of the single startup mode, in millihertz.
pub const REFRESH_MILLIHZ: u32 = 60_000;

/// The outputs after one backend event: a resize replaces the primary
/// output's mode, anything else leaves the outputs alone.
pub open spec fn apply_backend_event(outs: Seq<Output>, e: BackendEvent) -> Seq<Output> {
    match e {
        BackendEvent::Resized(sz) => if outs.len() > 0 {
            outs.update(
                0,
                Output { mode_size: sz, refresh_millihz: REFRESH_MILLIHZ, ..outs[0] },
            )
        } else {
            outs
        },
        _ => outs,
    }
}

/// The outputs after a whole batch of backend events, applied in order.
pub open spec fn apply_backend_events(outs: Seq<Output>, evs: Seq<BackendEvent>) -> Seq<Output>
    decreases evs.len(),
{
    if evs.len() == 0 {
        outs
    } else {
        apply_backend_event(apply_backend_events(outs, evs.drop_last()), evs.last())
    }
}

/// Whether the batch contains a close of the backend window.
pub open spec fn contains_closed(evs: Seq<BackendEvent>) -> bool {
    exists|i: int| 0 <= i < evs.len() && evs[i] is Closed
}

/// The surfaces of the mapped windows, in Z/insertion order.
pub open spec fn surfaces_of(ws: Seq<Window>) -> Seq<SurfaceId> {
    ws.map_values(|w: Window| w.surface)
}

/// The redraw counter after its per-tick decay: down one, never below zero.
pub open spec fn decayed(n: u8) -> u8 {
    if n > 0 {
        (n - 1) as u8
    } else {
        0
    }
}

impl State {
    /// Brings up the single output of the default configuration: one mode of
    /// the given pixel size at the startup refresh rate, flipped, placed at
    /// the origin of the shared coordinate space, and maps it into the
    /// space.
    pub fn init_output(&mut self, size: Size)
        ensures
            final(self).space.windows@ == old(self).space.windows@,
            final(self).seat == old(self).seat,
            final(self).grab == old(self).grab,
            final(self).full_redraw == old(self).full_redraw,
            final(self).space.outputs@ == old(self).space.outputs@.push(
                (Output {
                    mode_size: size,
                    refresh_millihz: REFRESH_MILLIHZ,
                    transform: Transform::Flipped180,
                    loc: (Point { x: 0, y: 0 }),
                }),
            ),
    {
        self.space.map_output(
            Output {
                mode_size: size,
                refresh_millihz: REFRESH_MILLIHZ,
                transform: Transform::Flipped180,
                loc: Point { x: 0, y: 0 },
            },
        );
    }

    /// One firing of the frame timer. The backend's pending events are
    /// applied first: resizes update the primary output's mode; a close asks
    /// the reactor to stop, in which case nothing is rendered. Otherwise the
    /// redraw counter decays, the whole primary output is damaged (no
    /// partial-damage tracking), and every mapped surface is owed a
    /// frame-completion callback, in stacking order. The caller re-arms the
    /// timer whatever happened.
    pub fn dispatch_tick(&mut self, events: &Vec<BackendEvent>) -> (r: TickPlan)
        ensures
            final(self).space.windows@ == old(self).space.windows@,
            final(self).seat == old(self).seat,
            final(self).grab == old(self).grab,
            final(self).space.outputs@ == apply_backend_events(
                old(self).space.outputs@,
                events@,
            ),
            r.stop == contains_closed(events@),
            r.stop ==> {
                &&& final(self).full_redraw == old(self).full_redraw
                &&& r.damage is None
                &&& r.frames@ =~= Seq::<SurfaceId>::empty()
            },
            !r.stop ==> {
                &&& final(self).full_redraw == decayed(old(self).full_redraw)
                &&& r.damage == (if final(self).space.outputs@.len() > 0 {
                    Some(
                        (Rect {
                            loc: (Point { x: 0, y: 0 }),
                            size: final(self).space.outputs@[0].mode_size,
                        }),
                    )
                } else {
                    None::<Rect>
                })
                &&& r.frames@ == surfaces_of(final(self).space.windows@)
            },
    {
        let n = events.len();
        let mut i: usize = 0;
        let mut stop = false;
        while i < n
            invariant
                n == events@.len(),
                0 <= i <= n,
                self.space.windows@ == old(self).space.windows@,
                self.seat == old(self).seat,
                self.grab == old(self).grab,
                self.full_redraw == old(self).full_redraw,
                self.space.outputs@ == apply_backend_events(
                    old(self).space.outputs@,
                    events@.take(i as int),
                ),
                stop == contains_closed(events@.take(i as int)),
            decreases n - i,
        {
            proof {
                assert(events@.take(i as int + 1).drop_last() =~= events@.take(i as int));
                assert(events@.take(i as int + 1).last() == events@[i as int]);
            }
            match events[i] {
                BackendEvent::Resized(sz) => {
                    if self.space.outputs.len() > 0 {
                        let o = self.space.outputs[0];
                        self.space.outputs.set(
                            0,
                            Output { mode_size: sz, refresh_millihz: REFRESH_MILLIHZ, ..o },
                        );
                    }
                },
                BackendEvent::Input => {},
                BackendEvent::Closed => {
                    stop = true;
                },
            }
            proof {
                if stop {
                    if contains_closed(events@.take(i as int)) {
                        let k = choose|k: int|
                            0 <= k < i as int && events@.take(i as int)[k] is Closed;
                        assert(events@.take(i as int + 1)[k] is Closed);
                    } else {
                        assert(events@.take(i as int + 1)[i as int] is Closed);
                    }
                }
            }
            i = i + 1;
        }
        proof {
            assert(events@.take(n as int) =~= events@);
        }
        if stop {
            return TickPlan { stop: true, damage: None, frames: Vec::new() };
        }
        if self.full_redraw > 0 {
            self.full_redraw = self.full_redraw - 1;
        }
        let damage = if self.space.outputs.len() > 0 {
            Some(Rect { loc: Point { x: 0, y: 0 }, size: self.space.outputs[0].mode_size })
        } else {
            None
        };
        let wn = self.space.windows.len();
        let mut frames: Vec<SurfaceId> = Vec::new();
        let mut j: usize = 0;
        while j < wn
            invariant
                wn == self.space.windows@.len(),
                0 <= j <= wn,
                frames@ =~= surfaces_of(self.space.windows@.take(j as int)),
            decreases wn - j,
        {
            frames.push(self.space.windows[j].surface);
            proof {
                assert(frames@ =~= surfaces_of(self.space.windows@.take(j as int + 1)));
            }
            j = j + 1;
        }
        proof {
            assert(self.space.windows@.take(wn as int) =~= self.space.windows@);
            assert(frames@ =~= surfaces_of(self.space.windows@));
        }
        TickPlan { stop: false, damage, frames }
    }
}

} // verus!
