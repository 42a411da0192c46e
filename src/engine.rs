use vstd::prelude::*;

use crate::geometry::{round_subpixel, Point, Position, Rect, Size, POS_LIMIT, SUBPIXEL};
use crate::state::{CursorStatus, State, VideoFormat};

verus! {

pub const NANOS_PER_SEC: u64 = 1_000_000_000;

/// How long the cursor stays drawn after the pointer last moved.
pub const CURSOR_TIMEOUT: u64 = 5 * NANOS_PER_SEC;

/// The shortest time between two frames at the format's rate, in nanoseconds:
/// `fps_d / fps_n` seconds, rounded up.
pub open spec fn frame_interval_spec(v: VideoFormat) -> int {
    (v.fps_d * NANOS_PER_SEC + v.fps_n - 1) / (v.fps_n as int)
}

pub fn frame_interval(v: VideoFormat) -> (r: u64)
    requires
        v.wf(),
    ensures
        r == frame_interval_spec(v),
        r * v.fps_n >= v.fps_d * NANOS_PER_SEC,
{
    let num: u64 = v.fps_d as u64 * NANOS_PER_SEC + v.fps_n as u64 - 1;
    let r = num / v.fps_n as u64;
    proof {
        let n = v.fps_n as int;
        let q = num as int / n;
        let m = num as int % n;
        assert(num as int == q * n + m) by (nonlinear_arith)
            requires
                n > 0,
                q == num as int / n,
                m == num as int % n,
        ;
        assert(0 <= m < n) by (nonlinear_arith)
            requires
                n > 0,
                m == num as int % n,
        ;
    }
    r
}

/// How long a frame request must wait: the rest of the frame interval since
/// the last delivered frame, or nothing where that has passed or no frame was
/// delivered yet.
pub open spec fn frame_wait_spec(last: Option<u64>, now: u64, v: VideoFormat) -> Option<int> {
    match last {
        None => None,
        Some(l) => {
            let passed = if now >= l {
                now - l
            } else {
                0
            };
            if passed < frame_interval_spec(v) {
                Some(frame_interval_spec(v) - passed)
            } else {
                None
            }
        },
    }
}

/// What a frame request leads to.
#[derive(Clone, Copy, Debug, PartialEq, Eq, Structural)]
pub enum FrameDecision {
    /// No video format was negotiated yet: there is nothing to render into.
    NoFormat,
    RenderNow,
    /// Render once this many nanoseconds have passed.
    RenderAfter(u64),
}

/// Why rendering a frame failed.
#[derive(Clone, Copy, Debug, PartialEq, Eq, Structural)]
pub enum SwapError {
    AlreadySwapped,
    /// The GPU context was lost.
    ContextLost,
    TemporaryFailure,
}

/// What the host is told where no frame comes.
#[derive(Clone, Copy, Debug, PartialEq, Eq, Structural)]
pub enum FlowError {
    /// End of stream: going on needs a new negotiation.
    Eos,
    /// A failure the host may retry.
    Error,
}

/// How a frame request ended, as the host sees it.
pub enum FrameReply<B> {
    Frame(B),
    Failed(SwapError),
    /// The request could not be sent to the engine.
    NotSent,
    /// The engine went away without replying.
    Disconnected,
}

/// The host's result for a frame request: a lost context or an engine that
/// cannot be reached ends the stream; other failures may be retried.
pub fn frame_outcome<B>(reply: FrameReply<B>) -> (r: Result<B, FlowError>)
    ensures
        match reply {
            FrameReply::Frame(b) => r == Ok::<B, FlowError>(b),
            FrameReply::Failed(SwapError::ContextLost) => r == Err::<B, FlowError>(FlowError::Eos),
            FrameReply::Failed(_) => r == Err::<B, FlowError>(FlowError::Error),
            FrameReply::NotSent => r == Err::<B, FlowError>(FlowError::Eos),
            FrameReply::Disconnected => r == Err::<B, FlowError>(FlowError::Error),
        },
{
    match reply {
        FrameReply::Frame(b) => Ok(b),
        FrameReply::Failed(SwapError::ContextLost) => Err(FlowError::Eos),
        FrameReply::Failed(_) => Err(FlowError::Error),
        FrameReply::NotSent => Err(FlowError::Eos),
        FrameReply::Disconnected => Err(FlowError::Error),
    }
}

/// The output's refresh rate in millihertz: `1000 * fps_n / fps_d`, rounded.
pub open spec fn refresh_spec(v: VideoFormat) -> int {
    (1000 * v.fps_n + v.fps_d / 2) / (v.fps_d as int)
}

pub fn refresh_mhz(v: VideoFormat) -> (r: u64)
    requires
        v.wf(),
    ensures
        r == refresh_spec(v),
{
    (1000 * v.fps_n as u64 + v.fps_d as u64 / 2) / v.fps_d as u64
}

/// The size a mapped native toplevel is offered after the output changed: its
/// maximum size (the whole output where it has none) cut to the output, or
/// `None` (the client chooses) where that leaves no area.
pub open spec fn renegotiated_size_spec(max: Option<Size>, output: Size) -> Option<Size> {
    let m = match max {
        Some(m) => m,
        None => output,
    };
    match (Rect { loc: Point { x: 0, y: 0 }, size: m }).intersection_spec(
        Rect { loc: Point { x: 0, y: 0 }, size: output },
    ) {
        Some(r) => Some(r.size),
        None => None,
    }
}

pub fn renegotiated_size(max: Option<Size>, output: Size) -> (r: Option<Size>)
    requires
        max matches Some(m) ==> m.wf(),
        output.wf(),
    ensures
        r == renegotiated_size_spec(max, output),
{
    let m = match max {
        Some(m) => m,
        None => output,
    };
    match Rect::from_size(m).intersection(&Rect::from_size(output)) {
        Some(r) => Some(r.size),
        None => None,
    }
}

/// What is drawn for the cursor.
#[derive(Clone, Copy, Debug, PartialEq, Eq, Structural)]
pub enum CursorElement {
    Nothing,
    /// The built-in cursor image at this pixel.
    Default(Point),
    /// The client's cursor surface at this pixel.
    Surface(u64, Point),
}

/// `v` held within the range of a pixel coordinate.
pub open spec fn saturate_i32(v: int) -> i32 {
    if v < i32::MIN {
        i32::MIN
    } else if v > i32::MAX {
        i32::MAX
    } else {
        v as i32
    }
}

/// The pixel nearest to the pointer, each coordinate held within range.
pub open spec fn cursor_pixel(p: Position) -> Point {
    Point { x: saturate_i32(round_subpixel(p.x as int)), y: saturate_i32(round_subpixel(p.y as int)) }
}

fn pixel_of(v: i64) -> (r: i32)
    requires
        -POS_LIMIT <= v <= POS_LIMIT,
    ensures
        r == saturate_i32(round_subpixel(v as int)),
{
    let q = if v >= 0 {
        (v + SUBPIXEL / 2) / SUBPIXEL
    } else {
        -((-v + SUBPIXEL / 2) / SUBPIXEL)
    };
    if q < i32::MIN as i64 {
        i32::MIN
    } else if q > i32::MAX as i64 {
        i32::MAX
    } else {
        q as i32
    }
}

impl State {
    /// Applies a negotiated video format: the output takes its size, the
    /// pointer goes to its center.
    pub fn set_video_format(&mut self, v: VideoFormat)
        requires
            old(self).wf(),
            v.wf(),
        ensures
            final(self).wf(),
            final(self).video == Some(v),
            final(self).output == Some(Size { w: v.width as i32, h: v.height as i32 }),
            final(self).pointer_location == (Position {
                x: (v.width * (SUBPIXEL / 2)) as i64,
                y: (v.height * (SUBPIXEL / 2)) as i64,
            }),
            final(self).space@ == old(self).space@,
            final(self).pending_windows@ == old(self).pending_windows@,
            final(self).popups@ == old(self).popups@,
            final(self).last_render == old(self).last_render,
    {
        self.output = Some(Size { w: v.width as i32, h: v.height as i32 });
        self.video = Some(v);
        self.pointer_location = Position {
            x: v.width as i64 * (SUBPIXEL / 2),
            y: v.height as i64 * (SUBPIXEL / 2),
        };
    }

    /// Decides when a requested frame is rendered, so that frames are never
    /// delivered faster than the negotiated rate.
    pub fn buffer_request(&self, now: u64) -> (r: FrameDecision)
        requires
            self.wf(),
        ensures
            self.video is None ==> r == FrameDecision::NoFormat,
            self.video matches Some(v) ==> match frame_wait_spec(self.last_render, now, v) {
                None => r == FrameDecision::RenderNow,
                Some(w) => r == FrameDecision::RenderAfter(w as u64),
            },
    {
        let v = match self.video {
            None => return FrameDecision::NoFormat,
            Some(v) => v,
        };
        match self.last_render {
            None => FrameDecision::RenderNow,
            Some(l) => {
                let passed = if now >= l {
                    now - l
                } else {
                    0
                };
                let interval = frame_interval(v);
                if passed < interval {
                    FrameDecision::RenderAfter(interval - passed)
                } else {
                    FrameDecision::RenderNow
                }
            },
        }
    }

    /// Records that a frame was delivered at `now`.
    pub fn frame_delivered(&mut self, now: u64)
        requires
            old(self).wf(),
        ensures
            final(self).wf(),
            final(self).last_render == Some(now),
            final(self).space@ == old(self).space@,
            final(self).video == old(self).video,
    {
        self.last_render = Some(now);
    }

    /// The reply to a frame request could not be handed back, or an event
    /// source could not be set up: the engine stops.
    pub fn request_quit(&mut self)
        requires
            old(self).wf(),
        ensures
            final(self).wf(),
            final(self).should_quit,
            final(self).space@ == old(self).space@,
    {
        self.should_quit = true;
    }

    /// What to draw for the cursor at time `now`: nothing once the pointer has
    /// been still for the timeout, else the cursor image or the client's cursor
    /// surface at the pointer's pixel.
    pub fn cursor_element(&self, now: u64) -> (r: CursorElement)
        requires
            self.wf(),
        ensures
            (now >= self.last_pointer_movement && now - self.last_pointer_movement
                >= CURSOR_TIMEOUT) ==> r == CursorElement::Nothing,
            !(now >= self.last_pointer_movement && now - self.last_pointer_movement
                >= CURSOR_TIMEOUT) ==> r == match self.cursor {
                CursorStatus::Hidden => CursorElement::Nothing,
                CursorStatus::Default => CursorElement::Default(cursor_pixel(self.pointer_location)),
                CursorStatus::Surface(s) => CursorElement::Surface(
                    s,
                    cursor_pixel(self.pointer_location),
                ),
            },
    {
        if now >= self.last_pointer_movement && now - self.last_pointer_movement >= CURSOR_TIMEOUT {
            return CursorElement::Nothing;
        }
        let p = self.pointer_location;
        let px = Point { x: pixel_of(p.x), y: pixel_of(p.y) };
        match self.cursor {
            CursorStatus::Hidden => CursorElement::Nothing,
            CursorStatus::Default => CursorElement::Default(px),
            CursorStatus::Surface(s) => CursorElement::Surface(s, px),
        }
    }
}

/// Frames are never delivered closer together than the negotiated rate
/// allows: a frame rendered no earlier than the decided wait after the
/// request comes at least `fps_d / fps_n` seconds after the previous one.
pub proof fn lemma_frames_paced(v: VideoFormat, last: u64, now: u64, t: int)
    requires
        v.wf(),
        now >= last,
        t >= now + match frame_wait_spec(Some(last), now, v) {
            Some(w) => w,
            None => 0,
        },
    ensures
        (t - last) * v.fps_n >= v.fps_d * NANOS_PER_SEC,
{
    let n = v.fps_n as int;
    let num = v.fps_d * NANOS_PER_SEC + n - 1;
    let i = frame_interval_spec(v);
    assert(i * n >= v.fps_d * NANOS_PER_SEC) by (nonlinear_arith)
        requires
            n > 0,
            i == num / n,
            num == v.fps_d * NANOS_PER_SEC + n - 1,
    ;
    assert(t - last >= i);
    assert((t - last) * n >= i * n) by (nonlinear_arith)
        requires
            t - last >= i,
            n > 0,
    ;
}

/// Width and height of the built-in cursor image, in pixels.
pub const CURSOR_SIZE: u32 = 64;

/// Rows the arrow of the built-in cursor spans.
pub const ARROW_HEIGHT: u32 = 40;

/// Whether pixel `(x, y)` is inside the arrow: its tip at the origin, its
/// width growing by one pixel every second row.
pub open spec fn in_arrow(x: int, y: int) -> bool {
    0 <= x && 2 * x <= y && y < ARROW_HEIGHT
}

/// The arrow's outline: its left edge, its slanted edge and its last row.
pub open spec fn on_arrow_edge(x: int, y: int) -> bool {
    in_arrow(x, y) && (x == 0 || 2 * x + 1 >= y || y == ARROW_HEIGHT - 1)
}

/// Pixel `(x, y)` of the built-in cursor as `0xRRGGBBAA`: a white arrow with
/// a black outline on a transparent ground.
pub open spec fn cursor_pixel_spec(x: int, y: int) -> u32 {
    if on_arrow_edge(x, y) {
        0x0000_00ff
    } else if in_arrow(x, y) {
        0xffff_ffff
    } else {
        0
    }
}

/// The built-in cursor image, row by row, one `0xRRGGBBAA` value per pixel.
pub fn cursor_image() -> (r: Vec<u32>)
    ensures
        r@.len() == CURSOR_SIZE * CURSOR_SIZE,
        forall|x: int, y: int|
            0 <= x < CURSOR_SIZE && 0 <= y < CURSOR_SIZE ==> #[trigger] r@[CURSOR_SIZE * y + x]
                == cursor_pixel_spec(x, y),
{
    let mut v: Vec<u32> = Vec::new();
    let mut y: u32 = 0;
    while y < CURSOR_SIZE
        invariant
            y <= CURSOR_SIZE,
            v@.len() == CURSOR_SIZE * y,
            forall|px: int, py: int|
                0 <= px < CURSOR_SIZE && 0 <= py < y ==> #[trigger] v@[CURSOR_SIZE * py + px]
                    == cursor_pixel_spec(px, py),
        decreases CURSOR_SIZE - y,
    {
        let mut x: u32 = 0;
        while x < CURSOR_SIZE
            invariant
                y < CURSOR_SIZE,
                x <= CURSOR_SIZE,
                v@.len() == CURSOR_SIZE * y + x,
                forall|px: int, py: int|
                    0 <= px < CURSOR_SIZE && 0 <= py < y ==> #[trigger] v@[CURSOR_SIZE * py + px]
                        == cursor_pixel_spec(px, py),
                forall|px: int| 0 <= px < x ==> #[trigger] v@[CURSOR_SIZE * y + px] == cursor_pixel_spec(px, y as int),
            decreases CURSOR_SIZE - x,
        {
            let inside = 2 * x <= y && y < ARROW_HEIGHT;
            let edge = inside && (x == 0 || 2 * x + 1 >= y || y == ARROW_HEIGHT - 1);
            let px: u32 = if edge {
                0x0000_00ff
            } else if inside {
                0xffff_ffff
            } else {
                0
            };
            v.push(px);
            x = x + 1;
        }
        y = y + 1;
    }
    v
}

} // verus!
