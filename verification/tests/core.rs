use episk::client::{ClientState, DisconnectReason};
use episk::driver::BackendEvent;
use episk::geometry::{Point, Rect, Size};
use episk::grabs::{GrabKind, GrabSession, ResizeEdges};
use episk::ids::{ClientId, Serial, SurfaceId};
use episk::seat::{GrabStartData, Pointer, Seat};
use episk::shell::{check_grab, handle_commit, CommitOutcome, Configure, RequestOutcome};
use episk::state::State;

fn surface(client: u64, index: u64) -> SurfaceId {
    SurfaceId { client: ClientId(client), index }
}

fn seat_with_grab(serial: u32, focus: SurfaceId, location: Point) -> Seat {
    Seat {
        pointer: Some(Pointer {
            grab_serial: Some(Serial(serial)),
            start_data: Some(GrabStartData { focus: Some(focus), location }),
            focus: Some(focus),
        }),
    }
}

#[test]
fn check_grab_authorized() {
    let s = surface(7, 1);
    let seat = seat_with_grab(42, s, Point { x: 3, y: 4 });
    let r = check_grab(&seat, s, Serial(42));
    assert_eq!(
        r,
        Some(GrabStartData {
            focus: Some(s),
            location: Point { x: 3, y: 4 }
        })
    );
}

#[test]
fn check_grab_no_pointer() {
    let s = surface(7, 1);
    let seat = Seat { pointer: None };
    assert_eq!(check_grab(&seat, s, Serial(42)), None);
}

#[test]
fn check_grab_wrong_serial() {
    let s = surface(7, 1);
    let seat = seat_with_grab(42, s, Point { x: 0, y: 0 });
    assert_eq!(check_grab(&seat, s, Serial(41)), None);
}

#[test]
fn check_grab_no_start_data() {
    let s = surface(7, 1);
    let seat = Seat {
        pointer: Some(Pointer {
            grab_serial: Some(Serial(42)),
            start_data: None,
            focus: None,
        }),
    };
    assert_eq!(check_grab(&seat, s, Serial(42)), None);
}

#[test]
fn check_grab_no_focus() {
    let s = surface(7, 1);
    let seat = Seat {
        pointer: Some(Pointer {
            grab_serial: Some(Serial(42)),
            start_data: Some(GrabStartData {
                focus: None,
                location: Point { x: 0, y: 0 },
            }),
            focus: None,
        }),
    };
    assert_eq!(check_grab(&seat, s, Serial(42)), None);
}

#[test]
fn check_grab_foreign_focus() {
    let mine = surface(7, 1);
    let other = surface(8, 1);
    let seat = seat_with_grab(42, other, Point { x: 0, y: 0 });
    assert_eq!(check_grab(&seat, mine, Serial(42)), None);
}

#[test]
fn stale_serial_request_is_noop() {
    let s = surface(1, 1);
    let mut state = State::new();
    state.new_toplevel(s);
    state.pointer_button_down(Serial(10), Some(s), Point { x: 0, y: 0 });
    let windows_before = state.space.windows.clone();
    let r = state.move_request(s, Serial(11));
    assert_eq!(r, RequestOutcome::Ignored);
    assert!(state.grab.is_none());
    assert_eq!(state.space.windows, windows_before);
    let (r2, c2) = state.resize_request(
        s,
        Serial(11),
        ResizeEdges { top: false, bottom: true, left: false, right: true },
    );
    assert_eq!(r2, RequestOutcome::Ignored);
    assert_eq!(c2, None);
    assert!(state.grab.is_none());
    assert_eq!(state.space.windows, windows_before);
}

#[test]
fn foreign_focus_request_is_noop() {
    let mine = surface(1, 1);
    let other = surface(2, 1);
    let mut state = State::new();
    state.new_toplevel(mine);
    state.new_toplevel(other);
    // The active grab's focus belongs to client 2; client 1's surface asks.
    state.pointer_button_down(Serial(10), Some(other), Point { x: 0, y: 0 });
    let windows_before = state.space.windows.clone();
    let r = state.move_request(mine, Serial(10));
    assert_eq!(r, RequestOutcome::Ignored);
    assert!(state.grab.is_none());
    assert_eq!(state.space.windows, windows_before);
}

#[test]
fn authorized_but_unmapped_is_typed_error() {
    let s = surface(1, 1);
    let mut state = State::new();
    state.pointer_button_down(Serial(10), Some(s), Point { x: 0, y: 0 });
    let r = state.move_request(s, Serial(10));
    assert_eq!(r, RequestOutcome::MissingTarget);
    assert!(state.grab.is_none());
    assert!(state.space.windows.is_empty());
}

#[test]
fn new_toplevel_maps_at_origin() {
    let s = surface(1, 1);
    let mut state = State::new();
    state.new_toplevel(s);
    assert_eq!(state.space.windows.len(), 1);
    let w = state.space.windows[0];
    assert_eq!(w.surface, s);
    assert_eq!(w.loc, Point { x: 0, y: 0 });
    assert!(!w.resizing);
    assert!(!w.initial_configure_sent);
    // Mapping the same surface again leaves the space untouched.
    state.new_toplevel(s);
    assert_eq!(state.space.windows.len(), 1);
}

#[test]
fn move_grab_follows_pointer() {
    let s = surface(1, 1);
    let mut state = State::new();
    state.new_toplevel(s);
    state.space.set_window_rect(
        0,
        Rect { loc: Point { x: 100, y: 200 }, size: Size { w: 640, h: 480 } },
    );
    state.pointer_button_down(Serial(10), Some(s), Point { x: 5, y: 5 });
    assert_eq!(state.move_request(s, Serial(10)), RequestOutcome::Started);
    // Pointer focus is cleared for the grab's duration.
    assert_eq!(state.seat.pointer.unwrap().focus, None);
    // Two motions; placement follows the total delta of the last one.
    assert_eq!(state.pointer_motion(Point { x: 25, y: 5 }), None);
    assert_eq!(state.space.windows[0].loc, Point { x: 120, y: 200 });
    assert_eq!(state.pointer_motion(Point { x: 15, y: -35 }), None);
    assert_eq!(state.space.windows[0].loc, Point { x: 110, y: 160 });
    // Size never changes under a move grab.
    assert_eq!(state.space.windows[0].size, Size { w: 640, h: 480 });
    // Motion back to the start restores the initial placement exactly.
    assert_eq!(state.pointer_motion(Point { x: 5, y: 5 }), None);
    assert_eq!(state.space.windows[0].loc, Point { x: 100, y: 200 });
}

#[test]
fn resize_right_bottom_grows_size() {
    let s = surface(1, 1);
    let mut state = State::new();
    state.new_toplevel(s);
    state.space.set_window_rect(
        0,
        Rect { loc: Point { x: 10, y: 20 }, size: Size { w: 300, h: 400 } },
    );
    state.pointer_button_down(Serial(10), Some(s), Point { x: 0, y: 0 });
    let (r, c) = state.resize_request(
        s,
        Serial(10),
        ResizeEdges { top: false, bottom: true, left: false, right: true },
    );
    assert_eq!(r, RequestOutcome::Started);
    assert_eq!(c, Some(Configure { surface: s, size: Size { w: 300, h: 400 }, resizing: true }));
    assert!(state.space.windows[0].resizing);
    let c = state.pointer_motion(Point { x: 7, y: -3 });
    assert_eq!(c, Some(Configure { surface: s, size: Size { w: 307, h: 397 }, resizing: true }));
    assert_eq!(state.space.windows[0].loc, Point { x: 10, y: 20 });
    assert_eq!(state.space.windows[0].size, Size { w: 307, h: 397 });
}

#[test]
fn resize_left_top_moves_origin_and_shrinks() {
    let s = surface(1, 1);
    let mut state = State::new();
    state.new_toplevel(s);
    state.space.set_window_rect(
        0,
        Rect { loc: Point { x: 10, y: 20 }, size: Size { w: 300, h: 400 } },
    );
    state.pointer_button_down(Serial(10), Some(s), Point { x: 0, y: 0 });
    let (r, _) = state.resize_request(
        s,
        Serial(10),
        ResizeEdges { top: true, bottom: false, left: true, right: false },
    );
    assert_eq!(r, RequestOutcome::Started);
    let c = state.pointer_motion(Point { x: 7, y: -3 });
    assert_eq!(c, Some(Configure { surface: s, size: Size { w: 293, h: 403 }, resizing: true }));
    assert_eq!(state.space.windows[0].loc, Point { x: 17, y: 17 });
    assert_eq!(state.space.windows[0].size, Size { w: 293, h: 403 });
}

#[test]
fn resize_release_clears_flag_and_sends_final_configure() {
    let s = surface(1, 1);
    let mut state = State::new();
    state.new_toplevel(s);
    state.space.set_window_rect(
        0,
        Rect { loc: Point { x: 0, y: 0 }, size: Size { w: 100, h: 100 } },
    );
    state.pointer_button_down(Serial(10), Some(s), Point { x: 0, y: 0 });
    state.resize_request(
        s,
        Serial(10),
        ResizeEdges { top: false, bottom: true, left: false, right: true },
    );
    state.pointer_motion(Point { x: 50, y: 60 });
    let c = state.pointer_button_release();
    assert_eq!(c, Some(Configure { surface: s, size: Size { w: 150, h: 160 }, resizing: false }));
    assert!(state.grab.is_none());
    assert!(!state.space.windows[0].resizing);
    // The implicit button-down grab is gone too.
    assert_eq!(state.seat.pointer.unwrap().grab_serial, None);
}

#[test]
fn commit_latch_fires_exactly_once() {
    let s = surface(1, 1);
    let mut state = State::new();
    // A commit for a surface with no mapped window is ignored.
    assert_eq!(handle_commit(&mut state.space, s), CommitOutcome::NotMapped);
    state.new_toplevel(s);
    // A toplevel that has never committed has received no implicit configure.
    assert!(!state.space.windows[0].initial_configure_sent);
    // The first commit triggers exactly one implicit configure.
    assert_eq!(handle_commit(&mut state.space, s), CommitOutcome::FirstConfigure);
    assert!(state.space.windows[0].initial_configure_sent);
    // Later commits trigger none.
    assert_eq!(handle_commit(&mut state.space, s), CommitOutcome::NoConfigure);
    assert_eq!(handle_commit(&mut state.space, s), CommitOutcome::NoConfigure);
}

#[test]
fn release_after_target_destroyed_ends_grab() {
    let s = surface(1, 1);
    let mut state = State::new();
    state.new_toplevel(s);
    state.pointer_button_down(Serial(10), Some(s), Point { x: 0, y: 0 });
    assert_eq!(state.move_request(s, Serial(10)), RequestOutcome::Started);
    assert!(state.grab.is_some());
    state.surface_destroyed(s);
    assert!(state.space.windows.is_empty());
    assert!(state.grab.is_none());
    // Releasing the button afterwards is still safe and leaves no grab.
    let c = state.pointer_button_release();
    assert_eq!(c, None);
    assert!(state.grab.is_none());
}

#[test]
fn motion_after_target_vanished_ends_grab() {
    let s = surface(1, 1);
    let mut state = State::new();
    state.new_toplevel(s);
    state.pointer_button_down(Serial(10), Some(s), Point { x: 0, y: 0 });
    assert_eq!(state.move_request(s, Serial(10)), RequestOutcome::Started);
    // The window vanishes without the grab being told first.
    state.space.unmap_surface(s);
    let c = state.pointer_motion(Point { x: 9, y: 9 });
    assert_eq!(c, None);
    assert!(state.grab.is_none());
}

#[test]
fn disconnect_removes_windows_and_ends_grab() {
    let a1 = surface(1, 1);
    let a2 = surface(1, 2);
    let b1 = surface(2, 1);
    let mut state = State::new();
    state.new_toplevel(a1);
    state.new_toplevel(b1);
    state.new_toplevel(a2);
    state.pointer_button_down(Serial(10), Some(a1), Point { x: 0, y: 0 });
    assert_eq!(state.move_request(a1, Serial(10)), RequestOutcome::Started);
    state.client_disconnected(ClientId(1));
    assert_eq!(state.space.windows.len(), 1);
    assert_eq!(state.space.windows[0].surface, b1);
    assert!(state.grab.is_none());
}

#[test]
fn tick_applies_resize_and_plans_frames() {
    let s1 = surface(1, 1);
    let s2 = surface(1, 2);
    let mut state = State::new();
    state.init_output(Size { w: 800, h: 600 });
    assert_eq!(state.space.outputs[0].mode_size, Size { w: 800, h: 600 });
    assert_eq!(state.space.outputs[0].refresh_millihz, 60_000);
    state.new_toplevel(s1);
    state.new_toplevel(s2);
    state.full_redraw = 2;
    let events = vec![BackendEvent::Input, BackendEvent::Resized(Size { w: 1024, h: 768 })];
    let plan = state.dispatch_tick(&events);
    assert!(!plan.stop);
    assert_eq!(state.space.outputs[0].mode_size, Size { w: 1024, h: 768 });
    assert_eq!(
        plan.damage,
        Some(Rect { loc: Point { x: 0, y: 0 }, size: Size { w: 1024, h: 768 } })
    );
    assert_eq!(plan.frames, vec![s1, s2]);
    assert_eq!(state.full_redraw, 1);
    // The decay saturates at zero.
    let plan = state.dispatch_tick(&Vec::new());
    assert!(!plan.stop);
    assert_eq!(state.full_redraw, 0);
    let plan = state.dispatch_tick(&Vec::new());
    assert_eq!(state.full_redraw, 0);
    assert_eq!(plan.frames.len(), 2);
}

#[test]
fn tick_stops_on_close_without_rendering() {
    let s1 = surface(1, 1);
    let mut state = State::new();
    state.init_output(Size { w: 800, h: 600 });
    state.new_toplevel(s1);
    let events = vec![
        BackendEvent::Resized(Size { w: 640, h: 480 }),
        BackendEvent::Closed,
    ];
    let plan = state.dispatch_tick(&events);
    assert!(plan.stop);
    assert_eq!(plan.damage, None);
    assert!(plan.frames.is_empty());
    // Resizes delivered before the close were still applied.
    assert_eq!(state.space.outputs[0].mode_size, Size { w: 640, h: 480 });
}

#[test]
fn popup_requests_are_accepted_and_ignored() {
    let s = surface(1, 1);
    let mut state = State::new();
    state.new_popup(s);
    state.grab(s, Serial(3));
    assert!(state.space.windows.is_empty());
    assert!(state.grab.is_none());
}

#[test]
fn client_lifecycle_observer_is_noop() {
    let cs = ClientState;
    cs.initialized(ClientId(1));
    cs.disconnected(ClientId(1), DisconnectReason::ConnectionClosed);
    cs.disconnected(ClientId(2), DisconnectReason::ProtocolError);
}

#[test]
fn end_to_end_move_session() {
    // A client connects and creates one toplevel surface.
    let s = surface(1, 1);
    let mut state = State::new();
    state.init_output(Size { w: 800, h: 600 });
    state.new_toplevel(s);
    // It commits once and receives exactly one configure.
    assert_eq!(handle_commit(&mut state.space, s), CommitOutcome::FirstConfigure);
    assert_eq!(handle_commit(&mut state.space, s), CommitOutcome::NoConfigure);
    let initial = state.space.windows[0].loc;
    // A button press gives the pointer an implicit grab with a serial.
    state.pointer_button_down(Serial(77), Some(s), Point { x: 400, y: 300 });
    // The client requests a move with that serial.
    assert_eq!(state.move_request(s, Serial(77)), RequestOutcome::Started);
    assert_eq!(
        state.grab,
        Some(GrabSession {
            kind: GrabKind::Move,
            surface: s,
            start_pointer: Point { x: 400, y: 300 },
            initial_rect: Rect { loc: initial, size: state.space.windows[0].size },
        })
    );
    // Two motion deltas: (+10, +0) then (+0, +10).
    state.pointer_motion(Point { x: 410, y: 300 });
    state.pointer_motion(Point { x: 410, y: 310 });
    // Button release ends the session.
    assert_eq!(state.pointer_button_release(), None);
    assert!(state.grab.is_none());
    // Final placement is the initial one plus (10, 10).
    let moved = state.space.windows[0].loc;
    assert_eq!(moved, Point { x: initial.x + 10, y: initial.y + 10 });
    // No further placement changes occur after release.
    state.pointer_motion(Point { x: 500, y: 500 });
    let plan = state.dispatch_tick(&vec![BackendEvent::Input]);
    assert_eq!(plan.frames, vec![s]);
    assert_eq!(state.space.windows[0].loc, moved);
}

#[test]
fn focus_routing_events_reach_the_pointer() {
    let s = surface(1, 1);
    let mut state = State::new();
    state.set_pointer_focus(Some(s));
    assert_eq!(state.seat.pointer.unwrap().focus, Some(s));
    state.set_pointer_focus(None);
    assert_eq!(state.seat.pointer.unwrap().focus, None);
}
