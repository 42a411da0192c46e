use gst_wayland_display::cache::DisplayCache;
use gst_wayland_display::drm::{
    advertises_prime, check_prime_buffer, drm_formats, handle_request, import_outcome,
    prime_buffer_request, DrmError, DrmRequest, DrmResponse, Format, ImportResult,
    INVALID_FORMAT, INVALID_NAME, MODIFIER_INVALID,
};
use gst_wayland_display::engine::{
    frame_interval, frame_outcome, refresh_mhz, renegotiated_size, CursorElement, FlowError,
    FrameDecision, FrameReply, SwapError, CURSOR_TIMEOUT, NANOS_PER_SEC,
};
use gst_wayland_display::geometry::{Point, Position, Size, SUBPIXEL};
use gst_wayland_display::log::{wayland_display_env, DebugLevel, GstLayer, Level, StringVisitor};
use gst_wayland_display::state::{CursorStatus, State, VideoFormat};
use gst_wayland_display::target::{DevEntry, RenderTarget, NVIDIA_MAJOR};
use gst_wayland_display::window::{FocusTarget, Window};

/// The codes of two formats that the fourcc table knows.
const XRGB8888: u32 = 0x3432_5258;
const ARGB8888: u32 = 0x3432_5241;

fn fmt(width: u32, height: u32, fps_n: u32, fps_d: u32) -> VideoFormat {
    VideoFormat { width, height, fps_n, fps_d }
}

#[test]
fn second_back_to_back_frame_waits_a_frame_interval() {
    let mut s = State::new();
    s.set_video_format(fmt(1280, 720, 30, 1));
    let t0 = 5 * NANOS_PER_SEC;
    assert_eq!(s.buffer_request(t0), FrameDecision::RenderNow);
    s.frame_delivered(t0);
    match s.buffer_request(t0) {
        FrameDecision::RenderAfter(wait) => {
            assert!(wait >= 33_000_000);
            assert_eq!(wait, 33_333_334);
        }
        other => panic!("expected a wait, got {:?}", other),
    }
}

#[test]
fn frame_wait_shrinks_with_elapsed_time() {
    let mut s = State::new();
    s.set_video_format(fmt(640, 480, 60, 1));
    s.frame_delivered(1_000);
    assert_eq!(s.buffer_request(1_000 + 10_000_000), FrameDecision::RenderAfter(6_666_667));
    assert_eq!(s.buffer_request(1_000 + 16_666_667), FrameDecision::RenderNow);
    // A clock reading before the last frame counts as no time passed.
    assert_eq!(s.buffer_request(0), FrameDecision::RenderAfter(16_666_667));
}

#[test]
fn frame_request_without_format() {
    let s = State::new();
    assert_eq!(s.buffer_request(0), FrameDecision::NoFormat);
}

#[test]
fn frame_interval_rounds_up() {
    assert_eq!(frame_interval(fmt(1, 1, 30, 1)), 33_333_334);
    assert_eq!(frame_interval(fmt(1, 1, 30000, 1001)), 33_366_667);
    assert_eq!(frame_interval(fmt(1, 1, 1, 2)), 2 * NANOS_PER_SEC);
}

#[test]
fn refresh_in_millihertz() {
    assert_eq!(refresh_mhz(fmt(1, 1, 60, 1)), 60_000);
    assert_eq!(refresh_mhz(fmt(1, 1, 30000, 1001)), 29_970);
}

#[test]
fn video_format_sets_output_and_centers_pointer() {
    let mut s = State::new();
    s.set_video_format(fmt(1280, 720, 30, 1));
    assert_eq!(s.output, Some(Size { w: 1280, h: 720 }));
    assert_eq!(s.pointer_location, Position { x: 640 * SUBPIXEL, y: 360 * SUBPIXEL });
}

#[test]
fn renegotiated_window_sizes() {
    let out = Size { w: 1280, h: 720 };
    assert_eq!(renegotiated_size(None, out), Some(out));
    assert_eq!(renegotiated_size(Some(Size { w: 640, h: 2000 }), out), Some(Size { w: 640, h: 720 }));
    assert_eq!(renegotiated_size(Some(Size { w: 0, h: 0 }), out), None);
}

#[test]
fn frame_outcomes() {
    assert_eq!(frame_outcome(FrameReply::Frame(7u8)), Ok(7));
    assert_eq!(frame_outcome::<u8>(FrameReply::Failed(SwapError::ContextLost)), Err(FlowError::Eos));
    assert_eq!(
        frame_outcome::<u8>(FrameReply::Failed(SwapError::TemporaryFailure)),
        Err(FlowError::Error)
    );
    assert_eq!(
        frame_outcome::<u8>(FrameReply::Failed(SwapError::AlreadySwapped)),
        Err(FlowError::Error)
    );
    assert_eq!(frame_outcome::<u8>(FrameReply::NotSent), Err(FlowError::Eos));
    assert_eq!(frame_outcome::<u8>(FrameReply::Disconnected), Err(FlowError::Error));
}

#[test]
fn cursor_hidden_after_timeout() {
    let mut s = State::new();
    s.set_video_format(fmt(100, 100, 30, 1));
    s.absolute_motion(Position { x: 10 * SUBPIXEL + 128, y: 20 * SUBPIXEL + 127 }, 0);
    assert_eq!(s.cursor_element(CURSOR_TIMEOUT - 1), CursorElement::Default(Point { x: 11, y: 20 }));
    assert_eq!(s.cursor_element(CURSOR_TIMEOUT), CursorElement::Nothing);
    s.cursor = CursorStatus::Surface(4);
    assert_eq!(s.cursor_element(1), CursorElement::Surface(4, Point { x: 11, y: 20 }));
    s.cursor = CursorStatus::Hidden;
    assert_eq!(s.cursor_element(1), CursorElement::Nothing);
}

#[test]
fn quit_request_sets_flag() {
    let mut s = State::new();
    assert!(!s.should_quit);
    s.request_quit();
    assert!(s.should_quit);
}

#[test]
fn drm_offers_formats_without_modifier() {
    let formats = vec![
        Format { code: XRGB8888, modifier: MODIFIER_INVALID },
        Format { code: ARGB8888, modifier: 0 },
        Format { code: ARGB8888, modifier: MODIFIER_INVALID },
    ];
    assert_eq!(drm_formats(&formats), vec![XRGB8888, ARGB8888]);
    assert!(advertises_prime(2));
    assert!(!advertises_prime(1));
}

#[test]
fn drm_prime_buffer_checks() {
    let offered = vec![XRGB8888];
    assert_eq!(prime_buffer_request(XRGB8888, &offered, 64, 64), Ok(XRGB8888));
    assert_eq!(prime_buffer_request(0, &offered, 64, 64), Err(DrmError::UnknownFormat));
    assert_eq!(prime_buffer_request(ARGB8888, &offered, 64, 64), Err(DrmError::FormatNotOffered));
    assert_eq!(prime_buffer_request(XRGB8888, &offered, 0, 64), Err(DrmError::BadDimensions));
    assert_eq!(prime_buffer_request(XRGB8888, &offered, 64, -1), Err(DrmError::BadDimensions));
    assert_eq!(check_prime_buffer(Some(5), &vec![5], 1, 1), Ok(5));
    assert_eq!(check_prime_buffer(None, &vec![5], 1, 1), Err(DrmError::UnknownFormat));
}

#[test]
fn drm_requests() {
    let offered = vec![XRGB8888];
    assert_eq!(handle_request(DrmRequest::Authenticate, &offered), DrmResponse::Authenticated);
    assert_eq!(
        handle_request(DrmRequest::CreateBuffer, &offered),
        DrmResponse::Refuse(DrmError::FlinkUnsupported)
    );
    assert_eq!(
        handle_request(DrmRequest::CreatePlanarBuffer, &offered),
        DrmResponse::Refuse(DrmError::FlinkUnsupported)
    );
    let req = DrmRequest::CreatePrimeBuffer { format: XRGB8888, width: 10, height: 10 };
    assert_eq!(handle_request(req, &offered), DrmResponse::Import(XRGB8888));
    assert_eq!(DrmError::FlinkUnsupported.code(), INVALID_NAME);
    assert_eq!(DrmError::BadDimensions.code(), INVALID_FORMAT);
}

#[test]
fn drm_import_outcomes() {
    assert_eq!(import_outcome(ImportResult::Imported), Ok(()));
    assert_eq!(import_outcome(ImportResult::InvalidFormat), Err(DrmError::ImportInvalidFormat));
    assert_eq!(DrmError::ImportInvalidFormat.code(), INVALID_FORMAT);
    assert_eq!(import_outcome(ImportResult::Failed), Err(DrmError::ImportFailed));
    assert_eq!(DrmError::ImportFailed.code(), INVALID_NAME);
    assert_eq!(import_outcome(ImportResult::NotBuilt), Err(DrmError::BufferIncomplete));
}

#[test]
fn log_levels_and_fields() {
    let layer = GstLayer;
    assert_eq!(layer.debug_level(Level::Warn), DebugLevel::Warning);
    assert_eq!(layer.debug_level(Level::Trace), DebugLevel::Trace);
    let loc = layer.source_location(None, Some("comp"), None);
    assert_eq!(loc.file, "<unknown file>");
    assert_eq!(loc.module, "comp");
    assert_eq!(loc.line, 0);
    let mut v = StringVisitor::new();
    v.record_debug("path", "\"/dev/input/event3\"");
    v.record_debug("n", "2");
    assert_eq!(v.string, "path = \"/dev/input/event3\"; n = 2; ");
}

#[test]
fn wayland_display_environment() {
    assert_eq!(wayland_display_env("wayland-1"), "WAYLAND_DISPLAY=wayland-1");
}

#[test]
fn render_target_parsing_and_devices() {
    assert!(matches!(RenderTarget::from_str("software"), RenderTarget::Software));
    match RenderTarget::from_str("/dev/dri/renderD129") {
        RenderTarget::Hardware(p) => assert_eq!(p, "/dev/dri/renderD129"),
        RenderTarget::Software => panic!("expected a device"),
    }
    match RenderTarget::default_target() {
        RenderTarget::Hardware(p) => assert_eq!(p, "/dev/dri/renderD128"),
        RenderTarget::Software => panic!("expected a device"),
    }
    let entries = vec![
        DevEntry { path: String::from("/dev/nvidia0"), is_char_device: true, major: NVIDIA_MAJOR },
        DevEntry { path: String::from("/dev/null"), is_char_device: true, major: 1 },
        DevEntry { path: String::from("/dev/nvidiactl"), is_char_device: true, major: NVIDIA_MAJOR },
        DevEntry { path: String::from("/dev/nvidia-file"), is_char_device: false, major: NVIDIA_MAJOR },
    ];
    let hw = RenderTarget::from_str("/dev/dri/renderD128");
    let devs = hw.as_devices(
        Some(String::from("/dev/dri/card0")),
        Some(String::from("/dev/dri/renderD128")),
        true,
        &entries,
    );
    assert_eq!(devs, vec!["/dev/dri/card0", "/dev/dri/renderD128", "/dev/nvidia0", "/dev/nvidiactl"]);
    let devs = hw.as_devices(None, Some(String::from("/dev/dri/renderD128")), false, &entries);
    assert_eq!(devs, vec!["/dev/dri/renderD128"]);
    let sw = RenderTarget::Software;
    assert!(sw.as_devices(Some(String::from("x")), None, true, &entries).is_empty());
}

#[test]
fn window_commit_hook_and_focus_surfaces() {
    assert!(Window::Wayland(1).on_commit());
    assert!(!Window::X11(1).on_commit());
    assert_eq!(FocusTarget::from_window(Window::X11(3)), FocusTarget::X11(3));
    assert_eq!(FocusTarget::Popup(9).wl_surface(), 9);
}

#[test]
fn display_cache_shares_until_last_release() {
    let mut c = DisplayCache::new();
    assert_eq!(c.acquire(Some(226), 1), (1, true));
    assert_eq!(c.acquire(Some(226), 2), (1, false));
    assert_eq!(c.acquire(None, 3), (3, true));
    assert!(!c.release(Some(226)));
    assert!(c.release(Some(226)));
    assert!(!c.release(Some(226)));
    assert_eq!(c.acquire(Some(226), 4), (4, true));
    assert!(c.release(None));
}
