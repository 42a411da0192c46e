use gst_wayland_display::geometry::{centered, fit_size, Point, Rect, Size};
use gst_wayland_display::shell::{CommitAction, ToplevelInfo};
use gst_wayland_display::state::{State, VideoFormat};
use gst_wayland_display::window::{FocusTarget, Window};
use gst_wayland_display::xwm::{placement, FullscreenAction, WmWindowType, X11Window};

fn size(w: i32, h: i32) -> Size {
    Size { w, h }
}

fn rect(x: i32, y: i32, w: i32, h: i32) -> Rect {
    Rect { loc: Point { x, y }, size: size(w, h) }
}

fn state_with_output(w: u32, h: u32) -> State {
    let mut s = State::new();
    s.set_video_format(VideoFormat { width: w, height: h, fps_n: 30, fps_d: 1 });
    s
}

#[test]
fn centering_full_hd() {
    assert_eq!(centered(size(1920, 1080), size(800, 600)), Point { x: 560, y: 240 });
}

#[test]
fn centering_odd_difference_rounds_toward_zero() {
    assert_eq!(centered(size(101, 51), size(10, 10)), Point { x: 45, y: 20 });
}

#[test]
fn centering_window_larger_than_output() {
    assert_eq!(centered(size(800, 600), size(1001, 700)), Point { x: -100, y: -50 });
}

#[test]
fn fit_size_takes_component_minimum() {
    assert_eq!(fit_size(size(640, 2000), size(1280, 720)), size(640, 720));
}

#[test]
fn rect_intersection_and_empty_overlap() {
    assert_eq!(rect(0, 0, 100, 100).intersection(&rect(50, 60, 100, 100)), Some(rect(50, 60, 50, 40)));
    assert_eq!(rect(0, 0, 100, 100).intersection(&rect(100, 0, 10, 10)), None);
    assert_eq!(rect(0, 0, 0, 0).intersection(&rect(0, 0, 10, 10)), None);
}

#[test]
fn toplevel_configured_once_then_centered() {
    let mut s = state_with_output(1920, 1080);
    s.new_toplevel(7);
    let no_max = ToplevelInfo { max_size: size(0, 0), size: None };
    let first = s.commit(7, no_max);
    assert_eq!(
        first,
        CommitAction::Configure { surface: 7, size: Some(size(1920, 1080)), fullscreen: true }
    );
    assert!(s.space.elements.is_empty());
    let acked = ToplevelInfo { max_size: size(0, 0), size: Some(size(800, 600)) };
    let second = s.commit(7, acked);
    assert_eq!(second, CommitAction::Place { surface: 7, loc: Point { x: 560, y: 240 } });
    assert_eq!(s.space.elements.len(), 1);
    assert_eq!(s.space.elements[0].window, Window::Wayland(7));
    assert_eq!(s.keyboard_focus, Some(FocusTarget::Wayland(7)));
    // Later commits send nothing more.
    assert_eq!(s.commit(7, acked), CommitAction::Nothing);
    assert!(s.pending_windows.is_empty());
}

#[test]
fn toplevel_with_max_size_chooses_its_own_size() {
    let mut s = state_with_output(1280, 720);
    s.new_toplevel(3);
    let info = ToplevelInfo { max_size: size(400, 300), size: None };
    assert_eq!(
        s.commit(3, info),
        CommitAction::Configure { surface: 3, size: None, fullscreen: false }
    );
}

#[test]
fn toplevel_waits_for_an_output() {
    let mut s = State::new();
    s.new_toplevel(9);
    let info = ToplevelInfo { max_size: size(0, 0), size: None };
    assert_eq!(s.commit(9, info), CommitAction::Nothing);
    assert_eq!(s.pending_windows.len(), 1);
    assert!(!s.pending_windows[0].configured);
    s.set_video_format(VideoFormat { width: 640, height: 480, fps_n: 60, fps_d: 1 });
    assert_eq!(
        s.commit(9, info),
        CommitAction::Configure { surface: 9, size: Some(size(640, 480)), fullscreen: true }
    );
}

#[test]
fn popup_initial_configure_sent_on_first_commit_only() {
    let mut s = State::new();
    s.new_popup(11);
    let info = ToplevelInfo { max_size: size(0, 0), size: None };
    assert_eq!(s.commit(11, info), CommitAction::PopupConfigure { surface: 11 });
    assert_eq!(s.commit(11, info), CommitAction::Nothing);
}

#[test]
fn unknown_surface_commit_does_nothing() {
    let mut s = state_with_output(640, 480);
    let info = ToplevelInfo { max_size: size(0, 0), size: None };
    assert_eq!(s.commit(99, info), CommitAction::Nothing);
}

#[test]
fn destroyed_surface_leaves_everything() {
    let mut s = state_with_output(640, 480);
    s.new_toplevel(1);
    let info = ToplevelInfo { max_size: size(0, 0), size: Some(size(640, 480)) };
    s.commit(1, info);
    s.commit(1, info);
    assert_eq!(s.space.elements.len(), 1);
    s.surface_destroyed(1);
    assert!(s.space.elements.is_empty());
    assert_eq!(s.keyboard_focus, None);
}

fn x11(id: u64, t: Option<WmWindowType>, geo: Rect, max: Option<Size>) -> X11Window {
    X11Window { id, window_type: t, geometry: geo, max_size: max }
}

#[test]
fn x11_splash_keeps_its_size_and_is_not_fullscreen() {
    let w = x11(5, Some(WmWindowType::Splash), rect(10, 20, 300, 200), None);
    let p = placement(Some(size(1920, 1080)), w);
    assert_eq!(p.geometry, rect(810, 440, 300, 200));
    assert!(!p.fullscreen);
}

#[test]
fn x11_normal_window_fills_output_up_to_max_size() {
    let out = Some(size(1920, 1080));
    let p = placement(out, x11(5, Some(WmWindowType::Normal), rect(0, 0, 10, 10), None));
    assert_eq!(p.geometry, rect(0, 0, 1920, 1080));
    assert!(p.fullscreen);
    let q = placement(out, x11(6, None, rect(0, 0, 10, 10), Some(size(800, 600))));
    assert_eq!(q.geometry, rect(560, 240, 800, 600));
    assert!(q.fullscreen);
}

#[test]
fn x11_menu_keeps_requested_geometry() {
    let w = x11(8, Some(WmWindowType::PopupMenu), rect(33, 44, 120, 300), None);
    let p = placement(Some(size(1920, 1080)), w);
    assert_eq!(p.geometry, rect(33, 44, 120, 300));
    assert!(!p.fullscreen);
}

#[test]
fn x11_without_output_uses_fallback_size() {
    let p = placement(None, x11(5, Some(WmWindowType::Utility), rect(0, 0, 10, 10), None));
    assert_eq!(p.geometry, rect(0, 0, 800, 600));
}

#[test]
fn x11_map_unmap_and_configure() {
    let mut s = state_with_output(1280, 720);
    let w = x11(21, None, rect(0, 0, 100, 100), Some(size(640, 360)));
    let p = s.map_window_request(w);
    assert_eq!(p.geometry, rect(320, 180, 640, 360));
    assert_eq!(s.keyboard_focus, Some(FocusTarget::X11(21)));
    // Mapped: a configure request keeps the position, takes the size.
    let g = s.configure_request(21, p.geometry, Some(5), Some(6), Some(50), None);
    assert_eq!(g, rect(320, 180, 50, 360));
    assert!(s.unmapped_window(21, false));
    assert!(s.space.elements.is_empty());
    // Not mapped: the position is honored too.
    let g = s.configure_request(21, p.geometry, Some(5), Some(6), Some(u32::MAX), None);
    assert_eq!(g, rect(5, 6, i32::MAX, 360));
}

#[test]
fn x11_override_redirect_notify_moves_without_raising() {
    let mut s = state_with_output(1280, 720);
    s.map_window_request(x11(1, Some(WmWindowType::Tooltip), rect(0, 0, 10, 10), None));
    s.map_window_request(x11(2, None, rect(0, 0, 10, 10), None));
    s.configure_notify(1, true, rect(40, 50, 10, 10));
    assert_eq!(s.space.elements[0].window, Window::X11(1));
    assert_eq!(s.space.elements[0].loc, Point { x: 40, y: 50 });
    // Not override-redirect: ignored.
    s.configure_notify(2, false, rect(1, 1, 1, 1));
    assert_eq!(s.space.elements[1].loc, Point { x: 0, y: 0 });
    assert!(!s.unmapped_window(1, true));
}

#[test]
fn x11_fullscreen_request() {
    let mut s = state_with_output(1280, 720);
    assert_eq!(s.fullscreen_request(4, rect(0, 0, 10, 10)), FullscreenAction::Ignore);
    s.map_window_request(x11(4, Some(WmWindowType::Dialog), rect(5, 5, 10, 10), None));
    s.map_window_request(x11(6, Some(WmWindowType::Dialog), rect(7, 7, 10, 10), None));
    assert_eq!(
        s.fullscreen_request(4, rect(5, 5, 10, 10)),
        FullscreenAction::Cover(rect(0, 0, 1280, 720))
    );
    assert_eq!(s.space.elements[1].window, Window::X11(4));
    assert_eq!(s.keyboard_focus, Some(FocusTarget::X11(4)));
    assert_eq!(s.fullscreen_request(4, rect(0, 0, 1280, 720)), FullscreenAction::MarkOnly);
}

#[test]
fn x11_override_redirect_map_goes_on_top_without_focus() {
    let mut s = state_with_output(1280, 720);
    s.map_window_request(x11(2, None, rect(0, 0, 10, 10), None));
    s.mapped_override_redirect_window(3, rect(7, 8, 20, 30));
    assert_eq!(s.space.elements[1].window, Window::X11(3));
    assert_eq!(s.space.elements[1].loc, Point { x: 7, y: 8 });
    assert_eq!(s.keyboard_focus, Some(FocusTarget::X11(2)));
}
