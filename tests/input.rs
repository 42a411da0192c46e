use gst_wayland_display::constraints::{ConstraintError, Lifetime, PointerConstraintsState};
use gst_wayland_display::geometry::{Point, Position, Rect, Size, SUBPIXEL};
use gst_wayland_display::input::{
    AxisAmount, AxisEmit, AxisSource, KeyOutcome, Modifiers, KEY_Q, KEY_TAB,
};
use gst_wayland_display::region::{RectKind, Region, RegionRect};
use gst_wayland_display::state::{State, VideoFormat};
use gst_wayland_display::window::{FocusTarget, Window};
use gst_wayland_display::xwm::{WmWindowType, X11Window};

const CHORD: Modifiers = Modifiers { ctrl: true, shift: true, alt: false, logo: false };
const NONE: Modifiers = Modifiers { ctrl: false, shift: false, alt: false, logo: false };

fn px(x: i64, y: i64) -> Position {
    Position { x: x * SUBPIXEL, y: y * SUBPIXEL }
}

fn rect(x: i32, y: i32, w: i32, h: i32) -> Rect {
    Rect { loc: Point { x, y }, size: Size { w, h } }
}

fn region(r: Rect) -> Option<Region> {
    Some(Region::new(vec![RegionRect { kind: RectKind::Add, rect: r }]))
}

/// An output of 1000 x 1000 with one window covering (100, 100) .. (600, 600),
/// the pointer at (200, 200).
fn scene() -> State {
    let mut s = State::new();
    s.set_video_format(VideoFormat { width: 1000, height: 1000, fps_n: 30, fps_d: 1 });
    s.map_window_request(X11Window {
        id: 42,
        window_type: Some(WmWindowType::Dialog),
        geometry: rect(100, 100, 500, 500),
        max_size: None,
    });
    s.absolute_motion(px(200, 200), 0);
    s
}

#[test]
fn tab_chord_raises_bottom_window_and_release_is_swallowed_once() {
    let mut s = scene();
    s.map_window_request(X11Window {
        id: 43,
        window_type: Some(WmWindowType::Dialog),
        geometry: rect(0, 0, 10, 10),
        max_size: None,
    });
    assert_eq!(s.space.elements[0].window, Window::X11(42));
    let r = s.keyboard_key(KEY_TAB, true, CHORD);
    assert_eq!(r, KeyOutcome::FocusWindow(Window::X11(42)));
    assert_eq!(s.space.elements[1].window, Window::X11(42));
    assert_eq!(s.space.elements[1].loc, Point { x: 100, y: 100 });
    assert_eq!(s.keyboard_focus, Some(FocusTarget::X11(42)));
    assert_eq!(s.keyboard_key(KEY_TAB, false, CHORD), KeyOutcome::Swallow);
    assert_eq!(s.keyboard_key(KEY_TAB, false, CHORD), KeyOutcome::Forward);
}

#[test]
fn tab_chord_with_empty_space_is_forwarded() {
    let mut s = State::new();
    assert_eq!(s.keyboard_key(KEY_TAB, true, CHORD), KeyOutcome::Forward);
    assert_eq!(s.keyboard_key(KEY_TAB, false, CHORD), KeyOutcome::Forward);
}

#[test]
fn tab_with_alt_is_forwarded() {
    let mut s = scene();
    let m = Modifiers { alt: true, ..CHORD };
    assert_eq!(s.keyboard_key(KEY_TAB, true, m), KeyOutcome::Forward);
    assert_eq!(s.keyboard_key(KEY_TAB, true, NONE), KeyOutcome::Forward);
}

#[test]
fn close_chord_closes_native_window_only() {
    let mut s = State::new();
    s.keyboard_focus = Some(FocusTarget::Wayland(5));
    assert_eq!(s.keyboard_key(KEY_Q, true, CHORD), KeyOutcome::CloseWindow(5));
    assert_eq!(s.keyboard_key(KEY_Q, false, CHORD), KeyOutcome::Swallow);
    s.keyboard_focus = Some(FocusTarget::X11(6));
    assert_eq!(s.keyboard_key(KEY_Q, true, CHORD), KeyOutcome::Forward);
    assert_eq!(s.keyboard_key(KEY_Q, false, CHORD), KeyOutcome::Forward);
    s.keyboard_focus = None;
    assert_eq!(s.keyboard_key(KEY_Q, true, CHORD), KeyOutcome::Forward);
}

#[test]
fn unconstrained_motion_is_clamped_to_output() {
    let mut s = scene();
    assert_eq!(s.relative_motion(px(10, -5), 1), None);
    assert_eq!(s.pointer_location, px(210, 195));
    s.relative_motion(px(5000, -5000), 2);
    assert_eq!(s.pointer_location, px(1000, 0));
    assert_eq!(s.last_pointer_movement, 2);
}

#[test]
fn locked_pointer_activates_then_stays() {
    let mut s = scene();
    assert_eq!(s.constraints.lock_pointer(42, None, Lifetime::Persistent), Ok(()));
    // No region: the first motion activates the lock and does not move.
    assert_eq!(s.relative_motion(px(10, 10), 1), Some(42));
    assert_eq!(s.pointer_location, px(200, 200));
    assert!(s.constraints.get(42).unwrap().is_active());
    for i in 0..5 {
        assert_eq!(s.relative_motion(px(37, -12), 2 + i), None);
        assert_eq!(s.pointer_location, px(200, 200));
    }
    // Once deactivated, motion is free again.
    assert!(s.constraints.deactivate(42));
    assert!(s.constraints.has_constraint(42));
    s.constraints.remove_constraint(42);
    s.relative_motion(px(1, 1), 9);
    assert_eq!(s.pointer_location, px(201, 201));
}

#[test]
fn locked_pointer_outside_its_region_moves_freely() {
    let mut s = scene();
    // Region in window coordinates: (300, 300) .. (310, 310) of the window.
    s.constraints.lock_pointer(42, region(rect(300, 300, 10, 10)), Lifetime::Oneshot).unwrap();
    assert_eq!(s.relative_motion(px(10, 0), 1), None);
    assert_eq!(s.pointer_location, px(210, 200));
    // A motion landing inside the region activates the lock, without moving.
    assert_eq!(s.relative_motion(px(195, 205), 2), Some(42));
    assert_eq!(s.pointer_location, px(210, 200));
    // A one-shot lock is removed when deactivated.
    assert!(s.constraints.deactivate(42));
    assert!(!s.constraints.has_constraint(42));
}

#[test]
fn confined_pointer_rejects_deltas_leaving_region() {
    let mut s = scene();
    // Window-local (50, 50) .. (150, 150) is (150, 150) .. (250, 250) on the output.
    s.constraints.confine_pointer(42, region(rect(50, 50, 100, 100)), Lifetime::Persistent).unwrap();
    assert_eq!(s.relative_motion(px(10, 10), 1), Some(42));
    assert_eq!(s.pointer_location, px(210, 210));
    assert_eq!(s.relative_motion(px(100, 0), 2), None);
    assert_eq!(s.pointer_location, px(210, 210));
    assert_eq!(s.relative_motion(px(-20, 30), 3), None);
    assert_eq!(s.pointer_location, px(190, 240));
}

#[test]
fn second_constraint_is_refused_and_first_kept() {
    let mut c = PointerConstraintsState::new();
    assert_eq!(c.confine_pointer(3, None, Lifetime::Persistent), Ok(()));
    assert_eq!(c.activate(3), true);
    assert_eq!(
        c.lock_pointer(3, None, Lifetime::Oneshot),
        Err(ConstraintError::AlreadyConstrained)
    );
    let kept = c.get(3).unwrap();
    assert!(!kept.is_locked());
    assert!(kept.is_active());
    assert_eq!(kept.lifetime(), Lifetime::Persistent);
    assert_eq!(
        c.confine_pointer(3, None, Lifetime::Oneshot),
        Err(ConstraintError::AlreadyConstrained)
    );
}

#[test]
fn constraint_region_takes_effect_on_commit() {
    let mut c = PointerConstraintsState::new();
    c.lock_pointer(8, None, Lifetime::Persistent).unwrap();
    c.set_region(8, true, region(rect(0, 0, 5, 5)));
    c.set_cursor_position_hint(8, px(1, 2));
    assert!(c.get(8).unwrap().region().is_none());
    c.commit(8);
    let r = c.get(8).unwrap().region().as_ref().unwrap();
    assert!(r.contains(Point { x: 4, y: 4 }));
    assert!(!r.contains(Point { x: 5, y: 4 }));
    // A region for the other kind of constraint is ignored.
    c.set_region(8, false, None);
    c.commit(8);
    assert!(c.get(8).unwrap().region().is_some());
}

#[test]
fn region_subtraction() {
    let r = Region::new(vec![
        RegionRect { kind: RectKind::Add, rect: rect(0, 0, 10, 10) },
        RegionRect { kind: RectKind::Subtract, rect: rect(2, 2, 3, 3) },
    ]);
    assert!(r.contains(Point { x: 1, y: 1 }));
    assert!(!r.contains(Point { x: 3, y: 3 }));
    assert!(!r.contains(Point { x: 10, y: 0 }));
}

#[test]
fn button_press_raises_and_focuses_window_under_pointer() {
    let mut s = scene();
    s.map_window_request(X11Window {
        id: 43,
        window_type: Some(WmWindowType::Dialog),
        geometry: rect(800, 800, 10, 10),
        max_size: None,
    });
    assert_eq!(s.pointer_button(true, 1), Some(Window::X11(42)));
    assert_eq!(s.space.elements[1].window, Window::X11(42));
    assert_eq!(s.keyboard_focus, Some(FocusTarget::X11(42)));
    assert_eq!(s.pointer_button(false, 2), None);
    s.pointer_grabbed = true;
    assert_eq!(s.pointer_button(true, 3), None);
}

#[test]
fn axis_frame_values_and_stops() {
    let mut s = State::new();
    let h = AxisAmount { continuous: None, discrete: Some(3) };
    let v = AxisAmount { continuous: Some(0), discrete: None };
    let (eh, ev) = s.pointer_axis(AxisSource::Wheel, h, v, 4);
    assert_eq!(eh, AxisEmit::Value { amount: 3 * 2 * SUBPIXEL, discrete: Some(3) });
    assert_eq!(ev, AxisEmit::Omit);
    let (_, ev) = s.pointer_axis(AxisSource::Finger, h, v, 5);
    assert_eq!(ev, AxisEmit::Stop);
    let c = AxisAmount { continuous: Some(-77), discrete: None };
    let (eh, _) = s.pointer_axis(AxisSource::Continuous, c, v, 6);
    assert_eq!(eh, AxisEmit::Value { amount: -77, discrete: None });
    assert_eq!(s.last_pointer_movement, 6);
}
