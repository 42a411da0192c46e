use vstd::prelude::*;

use std::collections::HashSet;

use crate::constraints::PointerConstraintsState;
use crate::geometry::{pos_wf, Position, Size};
use crate::space::{holds, Space};
use crate::window::{FocusTarget, Window};

verus! {

broadcast use vstd::std_specs::hash::group_hash_axioms;

/// The negotiated video format: frame size in pixels and the frame rate as
/// the fraction `fps_n / fps_d` frames per second.
#[derive(Clone, Copy, Debug, PartialEq, Eq, Structural)]
pub struct VideoFormat {
    pub width: u32,
    pub height: u32,
    pub fps_n: u32,
    pub fps_d: u32,
}

impl VideoFormat {
    pub open spec fn wf(self) -> bool {
        self.width <= i32::MAX && self.height <= i32::MAX && self.fps_n > 0 && self.fps_d > 0
    }
}

/// A native toplevel waiting for its first configure to be acknowledged;
/// `configured` once that configure was sent.
#[derive(Clone, Copy, Debug, PartialEq, Eq, Structural)]
pub struct PendingWindow {
    pub surface: u64,
    pub configured: bool,
}

/// A tracked popup; `configured` once its initial configure was sent.
#[derive(Clone, Copy, Debug, PartialEq, Eq, Structural)]
pub struct TrackedPopup {
    pub surface: u64,
    pub configured: bool,
}

/// What the cursor looks like.
#[derive(Clone, Copy, Debug, PartialEq, Eq, Structural)]
pub enum CursorStatus {
    Default,
    Surface(u64),
    Hidden,
}

/// The engine's state: the output, the windows, the seat and the frame clock.
pub struct State {
    /// Logical size of the output, once a video format is known.
    pub output: Option<Size>,
    pub video: Option<VideoFormat>,
    pub space: Space,
    pub pending_windows: Vec<PendingWindow>,
    pub popups: Vec<TrackedPopup>,
    pub pointer_location: Position,
    /// Time of the last pointer event, in nanoseconds since start.
    pub last_pointer_movement: u64,
    pub cursor: CursorStatus,
    pub suppressed_keys: HashSet<u32>,
    pub keyboard_focus: Option<FocusTarget>,
    pub pointer_grabbed: bool,
    pub keyboard_grabbed: bool,
    pub constraints: PointerConstraintsState,
    /// Time the last frame was delivered, in nanoseconds since start.
    pub last_render: Option<u64>,
    pub should_quit: bool,
}

pub open spec fn pending_surfaces(p: Seq<PendingWindow>) -> Seq<u64> {
    p.map_values(|w: PendingWindow| w.surface)
}

pub open spec fn popup_surfaces(p: Seq<TrackedPopup>) -> Seq<u64> {
    p.map_values(|w: TrackedPopup| w.surface)
}

impl State {
    /// The engine state's invariant: windows are in at most one of the pending
    /// queue and the space, each at most once; sizes are non-negative.
    pub open spec fn wf(&self) -> bool {
        &&& self.space.wf()
        &&& pending_surfaces(self.pending_windows@).no_duplicates()
        &&& popup_surfaces(self.popups@).no_duplicates()
        &&& forall|i: int|
            0 <= i < self.pending_windows@.len() ==> !holds(
                self.space@,
                Window::Wayland(#[trigger] self.pending_windows@[i].surface),
            )
        &&& pos_wf(self.pointer_location)
        &&& (self.output matches Some(o) ==> o.wf())
        &&& (self.video matches Some(v) ==> v.wf())
    }

    pub fn new() -> (r: State)
        ensures
            r.wf(),
            r.output is None,
            r.video is None,
            r.space@.len() == 0,
            r.pending_windows@.len() == 0,
            r.popups@.len() == 0,
            r.pointer_location == (Position { x: 0, y: 0 }),
            r.suppressed_keys@ == Set::<u32>::empty(),
            r.keyboard_focus is None,
            r.constraints.view() == Map::<u64, crate::constraints::ConstraintModel>::empty(),
            r.last_render is None,
            !r.should_quit,
    {
        State {
            output: None,
            video: None,
            space: Space::new(),
            pending_windows: Vec::new(),
            popups: Vec::new(),
            pointer_location: Position { x: 0, y: 0 },
            last_pointer_movement: 0,
            cursor: CursorStatus::Default,
            suppressed_keys: HashSet::new(),
            keyboard_focus: None,
            pointer_grabbed: false,
            keyboard_grabbed: false,
            constraints: PointerConstraintsState::new(),
            last_render: None,
            should_quit: false,
        }
    }
}

} // verus!
