use vstd::prelude::*;

use crate::constraints::ConstraintModel;
use crate::geometry::{
    pixel_relative, pixel_relative_fits, pixel_relative_spec, pos_wf, Point, Position, Size,
    POS_LIMIT, SUBPIXEL,
};
use crate::region::{region_contains, within_region, RegionRect};
use crate::space::{raised, under_index, SpaceEntry};
use crate::state::State;
use crate::window::{focus_of, FocusTarget, Window};

verus! {

broadcast use vstd::std_specs::hash::group_hash_axioms;

/// Opens and closes input device nodes for the input backend, by path and
/// open flags, with no privileges beyond the engine's own.
#[derive(Clone, Copy, Debug)]
pub struct NixInterface;

/// The keysym of the Tab key.
pub const KEY_TAB: u32 = 0xff09;

/// The keysym of the Q key with shift held.
pub const KEY_Q: u32 = 0x0051;

#[derive(Clone, Copy, Debug, PartialEq, Eq, Structural)]
pub struct Modifiers {
    pub ctrl: bool,
    pub shift: bool,
    pub alt: bool,
    pub logo: bool,
}

/// What becomes of a key event.
#[derive(Clone, Copy, Debug, PartialEq, Eq, Structural)]
pub enum KeyOutcome {
    /// Handed on to the focused client.
    Forward,
    /// Kept from the clients.
    Swallow,
    /// Kept from the clients; the window was raised and given keyboard focus.
    FocusWindow(Window),
    /// Kept from the clients; the native toplevel of this surface must be asked
    /// to close.
    CloseWindow(u64),
}

/// Control and shift held, alt and logo not.
pub open spec fn is_chord(m: Modifiers) -> bool {
    m.ctrl && m.shift && !m.alt && !m.logo
}

/// The keyboard filter: the suppressed keys afterwards, and the outcome.
pub open spec fn key_filter_spec(
    suppressed: Set<u32>,
    bottom: Option<Window>,
    focus: Option<FocusTarget>,
    sym: u32,
    pressed: bool,
    m: Modifiers,
) -> (Set<u32>, KeyOutcome) {
    if pressed {
        if is_chord(m) && sym == KEY_TAB && bottom is Some {
            (suppressed.insert(KEY_TAB), KeyOutcome::FocusWindow(bottom->0))
        } else if is_chord(m) && sym == KEY_Q && focus matches Some(FocusTarget::Wayland(_)) {
            (suppressed.insert(KEY_Q), KeyOutcome::CloseWindow(focus->0->Wayland_0))
        } else {
            (suppressed, KeyOutcome::Forward)
        }
    } else if suppressed.contains(sym) {
        (suppressed.remove(sym), KeyOutcome::Swallow)
    } else {
        (suppressed, KeyOutcome::Forward)
    }
}

pub open spec fn bottom_window(space: Seq<SpaceEntry>) -> Option<Window> {
    if space.len() == 0 {
        None
    } else {
        Some(space[0].window)
    }
}

pub open spec fn delta_wf(d: Position) -> bool {
    -POS_LIMIT <= d.x <= POS_LIMIT && -POS_LIMIT <= d.y <= POS_LIMIT
}

pub open spec fn moved(p: Position, d: Position) -> Position {
    Position { x: (p.x + d.x) as i64, y: (p.y + d.y) as i64 }
}

pub open spec fn clamp_axis(v: int, hi: int) -> int {
    if v < 0 {
        0
    } else if v > hi {
        hi
    } else {
        v
    }
}

/// `p` held within the output: `0 ..= width` and `0 ..= height`.
pub open spec fn clamp_spec(p: Position, o: Size) -> Position {
    Position {
        x: clamp_axis(p.x as int, o.w * SUBPIXEL) as i64,
        y: clamp_axis(p.y as int, o.h * SUBPIXEL) as i64,
    }
}

/// Where unconstrained motion from `p` to `pending` ends: held within the
/// output, or dropped where there is no output and it leaves the valid range.
pub open spec fn free_move(p: Position, pending: Position, output: Option<Size>) -> Position {
    match output {
        Some(o) => clamp_spec(pending, o),
        None => if pos_wf(pending) {
            pending
        } else {
            p
        },
    }
}

/// Whether `p`, rounded to a pixel and taken relative to `origin`, is in the
/// region; an absent region holds every point.
pub open spec fn in_constraint_region(
    region: Option<Seq<RegionRect>>,
    p: Position,
    origin: Point,
) -> bool {
    pos_wf(p) && match region {
        None => true,
        Some(r) => pixel_relative_fits(p, origin) && region_contains(
            r,
            pixel_relative_spec(p, origin),
        ),
    }
}

/// One relative motion by `d` from `p`: the new pointer location, and the
/// surface whose constraint became active, if any.
pub open spec fn relative_motion_spec(
    space: Seq<SpaceEntry>,
    cons: Map<u64, ConstraintModel>,
    output: Option<Size>,
    p: Position,
    d: Position,
) -> (Position, Option<u64>) {
    let pending = moved(p, d);
    let u = under_index(space, p);
    if u >= 0 && cons.contains_key(space[u].window.surface_spec()) {
        let s = space[u].window.surface_spec();
        let c = cons[s];
        let inside = in_constraint_region(c.region, pending, space[u].loc);
        if c.locked {
            if c.active {
                (p, None)
            } else if inside {
                (p, Some(s))
            } else {
                (free_move(p, pending, output), None)
            }
        } else if inside {
            (pending, if c.active {
                None
            } else {
                Some(s)
            })
        } else {
            (p, None)
        }
    } else {
        (free_move(p, pending, output), None)
    }
}

/// The constraints after a motion that activated `activated`.
pub open spec fn after_activation(cons: Map<u64, ConstraintModel>, activated: Option<u64>) -> Map<
    u64,
    ConstraintModel,
> {
    match activated {
        None => cons,
        Some(s) => cons.insert(s, ConstraintModel { active: true, ..cons[s] }),
    }
}

/// The pointer location after each of `ds` in turn, with the constraints that
/// the motions activate.
pub open spec fn motions_spec(
    space: Seq<SpaceEntry>,
    cons: Map<u64, ConstraintModel>,
    output: Option<Size>,
    p: Position,
    ds: Seq<Position>,
) -> Position
    decreases ds.len(),
{
    if ds.len() == 0 {
        p
    } else {
        let (q, a) = relative_motion_spec(space, cons, output, p, ds[0]);
        motions_spec(space, after_activation(cons, a), output, q, ds.drop_first())
    }
}

/// The window that a button press focuses: the topmost one under the pointer,
/// unless an input grab is held.
pub open spec fn button_focus_spec(space: Seq<SpaceEntry>, p: Position, grabbed: bool) -> Option<
    Window,
> {
    if grabbed || under_index(space, p) < 0 {
        None
    } else {
        Some(space[under_index(space, p)].window)
    }
}

/// Where an axis event comes from.
#[derive(Clone, Copy, Debug, PartialEq, Eq, Structural)]
pub enum AxisSource {
    Wheel,
    Finger,
    Continuous,
    WheelTilt,
}

/// The scroll amount of one axis: continuous, in sub-pixel units, and in
/// discrete wheel steps.
#[derive(Clone, Copy, Debug, PartialEq, Eq, Structural)]
pub struct AxisAmount {
    pub continuous: Option<i64>,
    pub discrete: Option<i32>,
}

/// What the axis frame carries for one axis.
#[derive(Clone, Copy, Debug, PartialEq, Eq, Structural)]
pub enum AxisEmit {
    Omit,
    Value { amount: i64, discrete: Option<i32> },
    Stop,
}

/// Sub-pixel units scrolled per discrete wheel step where no continuous
/// amount is given.
pub const DISCRETE_STEP: i64 = 2 * SUBPIXEL;

pub open spec fn axis_value(a: AxisAmount) -> int {
    match a.continuous {
        Some(c) => c as int,
        None => match a.discrete {
            Some(d) => d * DISCRETE_STEP,
            None => 0,
        },
    }
}

/// A non-zero amount is sent with its discrete steps; a zero amount from a
/// finger is sent as an explicit stop, and otherwise left out.
pub open spec fn axis_emit_spec(source: AxisSource, a: AxisAmount) -> AxisEmit {
    if axis_value(a) != 0 {
        AxisEmit::Value { amount: axis_value(a) as i64, discrete: a.discrete }
    } else if source == AxisSource::Finger {
        AxisEmit::Stop
    } else {
        AxisEmit::Omit
    }
}

pub fn axis_emit(source: AxisSource, a: AxisAmount) -> (r: AxisEmit)
    ensures
        r == axis_emit_spec(source, a),
{
    let value: i64 = match a.continuous {
        Some(c) => c,
        None => match a.discrete {
            Some(d) => d as i64 * DISCRETE_STEP,
            None => 0,
        },
    };
    if value != 0 {
        AxisEmit::Value { amount: value, discrete: a.discrete }
    } else if source == AxisSource::Finger {
        AxisEmit::Stop
    } else {
        AxisEmit::Omit
    }
}

fn clamp_value(v: i64, hi: i64) -> (r: i64)
    ensures
        r == clamp_axis(v as int, hi as int),
{
    if v < 0 {
        0
    } else if v > hi {
        hi
    } else {
        v
    }
}

fn free_move_exec(p: Position, pending: Position, output: Option<Size>) -> (r: Position)
    requires
        output matches Some(o) ==> o.wf(),
        pos_wf(p),
    ensures
        r == free_move(p, pending, output),
        pos_wf(r),
{
    match output {
        Some(o) => Position {
            x: clamp_value(pending.x, o.w as i64 * SUBPIXEL),
            y: clamp_value(pending.y, o.h as i64 * SUBPIXEL),
        },
        None => if -POS_LIMIT <= pending.x && pending.x <= POS_LIMIT && -POS_LIMIT <= pending.y
            && pending.y <= POS_LIMIT {
            pending
        } else {
            p
        },
    }
}

fn in_region_exec(region: &Option<crate::region::Region>, p: Position, origin: Point) -> (r: bool)
    ensures
        r == in_constraint_region(crate::region::region_model(*region), p, origin),
{
    if !(-POS_LIMIT <= p.x && p.x <= POS_LIMIT && -POS_LIMIT <= p.y && p.y <= POS_LIMIT) {
        return false;
    }
    match region {
        None => true,
        Some(_) => match pixel_relative(p, origin) {
            None => false,
            Some(q) => within_region(region, q),
        },
    }
}

impl State {
    /// A key press or release, run through the keyboard filter. Control+Shift+Tab
    /// raises the bottom-most window and focuses it; Control+Shift+Q asks the
    /// focused native window to close. Either key's release is then swallowed
    /// once.
    pub fn keyboard_key(&mut self, sym: u32, pressed: bool, mods: Modifiers) -> (r: KeyOutcome)
        requires
            old(self).wf(),
        ensures
            final(self).wf(),
            (final(self).suppressed_keys@, r) == key_filter_spec(
                old(self).suppressed_keys@,
                bottom_window(old(self).space@),
                old(self).keyboard_focus,
                sym,
                pressed,
                mods,
            ),
            r matches KeyOutcome::FocusWindow(w) ==> final(self).space@ == raised(
                old(self).space@,
                w,
            ) && final(self).keyboard_focus == Some(focus_of(w)),
            !(r is FocusWindow) ==> final(self).space@ == old(self).space@
                && final(self).keyboard_focus == old(self).keyboard_focus,
            final(self).pending_windows@ == old(self).pending_windows@,
            final(self).popups@ == old(self).popups@,
            final(self).pointer_location == old(self).pointer_location,
            final(self).output == old(self).output,
            final(self).video == old(self).video,
            final(self).constraints.view() == old(self).constraints.view(),
    {
        let chord = mods.ctrl && mods.shift && !mods.alt && !mods.logo;
        if pressed {
            if chord && sym == KEY_TAB {
                if let Some(w) = self.space.bottom() {
                    self.suppressed_keys.insert(KEY_TAB);
                    self.space.raise_element(w);
                    self.keyboard_focus = Some(FocusTarget::from_window(w));
                    proof {
                        self.lemma_raise_keeps_wf(*old(self), w);
                    }
                    return KeyOutcome::FocusWindow(w);
                }
            }
            if chord && sym == KEY_Q {
                if let Some(FocusTarget::Wayland(s)) = self.keyboard_focus {
                    self.suppressed_keys.insert(KEY_Q);
                    return KeyOutcome::CloseWindow(s);
                }
            }
            KeyOutcome::Forward
        } else if self.suppressed_keys.remove(&sym) {
            KeyOutcome::Swallow
        } else {
            KeyOutcome::Forward
        }
    }

    proof fn lemma_raise_keeps_wf(&self, before: State, w: Window)
        requires
            before.wf(),
            self.space.wf(),
            self.space@ == raised(before.space@, w),
            self.pending_windows@ == before.pending_windows@,
            self.popups@ == before.popups@,
            self.pointer_location == before.pointer_location,
            self.output == before.output,
            self.video == before.video,
        ensures
            self.wf(),
    {
        assert forall|i: int| 0 <= i < self.pending_windows@.len() implies !crate::space::holds(
            self.space@,
            Window::Wayland(#[trigger] self.pending_windows@[i].surface),
        ) by {
            let x = Window::Wayland(self.pending_windows@[i].surface);
            assert(!crate::space::holds(before.space@, x));
            let s = before.space@;
            let k = crate::space::index_of(s, w);
            if k >= 0 {
                assert forall|j: int| 0 <= j < self.space@.len() implies self.space@[j].window
                    != x by {
                    if j < s.len() - 1 {
                        let j0 = if j < k { j } else { j + 1 };
                        assert(s[j0].window != x);
                    } else {
                        assert(s[k].window != x);
                    }
                }
            }
        }
    }

    /// A relative pointer motion by `delta` at time `now`. Under an active lock
    /// the pointer stays put; under a confinement it moves only within the
    /// region; otherwise it moves, held within the output. Returns the surface
    /// whose constraint this motion activated, so that its client is told.
    pub fn relative_motion(&mut self, delta: Position, now: u64) -> (r: Option<u64>)
        requires
            old(self).wf(),
            delta_wf(delta),
        ensures
            final(self).wf(),
            (final(self).pointer_location, r) == relative_motion_spec(
                old(self).space@,
                old(self).constraints.view(),
                old(self).output,
                old(self).pointer_location,
                delta,
            ),
            final(self).constraints.view() == after_activation(old(self).constraints.view(), r),
            final(self).last_pointer_movement == now,
            final(self).space@ == old(self).space@,
            final(self).pending_windows@ == old(self).pending_windows@,
            final(self).popups@ == old(self).popups@,
            final(self).keyboard_focus == old(self).keyboard_focus,
            final(self).suppressed_keys@ == old(self).suppressed_keys@,
            final(self).output == old(self).output,
            final(self).video == old(self).video,
    {
        self.last_pointer_movement = now;
        let p = self.pointer_location;
        let pending = Position { x: p.x + delta.x, y: p.y + delta.y };
        let under = self.space.element_under(p);
        proof {
            crate::space::lemma_under_index_range(self.space@, p);
        }
        match under {
            None => {
                self.pointer_location = free_move_exec(p, pending, self.output);
                None
            },
            Some(e) => {
                let s = e.window.surface();
                let (locked, active, inside) = match self.constraints.get(s) {
                    None => {
                        self.pointer_location = free_move_exec(p, pending, self.output);
                        return None;
                    },
                    Some(c) => (c.is_locked(), c.is_active(), in_region_exec(c.region(), pending, e.loc)),
                };
                if locked {
                    if active {
                        None
                    } else if inside {
                        self.constraints.activate(s);
                        Some(s)
                    } else {
                        self.pointer_location = free_move_exec(p, pending, self.output);
                        None
                    }
                } else if inside {
                    self.pointer_location = pending;
                    if active {
                        None
                    } else {
                        self.constraints.activate(s);
                        Some(s)
                    }
                } else {
                    None
                }
            },
        }
    }

    /// An absolute pointer motion to `location`, already mapped onto the output;
    /// ignored while there is no output.
    pub fn absolute_motion(&mut self, location: Position, now: u64)
        requires
            old(self).wf(),
            pos_wf(location),
        ensures
            final(self).wf(),
            final(self).pointer_location == (if old(self).output is Some {
                location
            } else {
                old(self).pointer_location
            }),
            final(self).last_pointer_movement == now,
            final(self).space@ == old(self).space@,
            final(self).keyboard_focus == old(self).keyboard_focus,
            final(self).constraints.view() == old(self).constraints.view(),
    {
        self.last_pointer_movement = now;
        if self.output.is_some() {
            self.pointer_location = location;
        }
    }

    /// A pointer button event. A press, unless an input grab is held, raises
    /// the window under the pointer and gives it keyboard focus; that window is
    /// returned.
    pub fn pointer_button(&mut self, pressed: bool, now: u64) -> (r: Option<Window>)
        requires
            old(self).wf(),
        ensures
            final(self).wf(),
            r == (if pressed {
                button_focus_spec(
                    old(self).space@,
                    old(self).pointer_location,
                    old(self).pointer_grabbed || old(self).keyboard_grabbed,
                )
            } else {
                None
            }),
            r matches Some(w) ==> final(self).space@ == raised(old(self).space@, w)
                && final(self).keyboard_focus == Some(focus_of(w)),
            r is None ==> final(self).space@ == old(self).space@ && final(self).keyboard_focus
                == old(self).keyboard_focus,
            final(self).last_pointer_movement == now,
            final(self).pointer_location == old(self).pointer_location,
            final(self).constraints.view() == old(self).constraints.view(),
    {
        self.last_pointer_movement = now;
        if !pressed || self.pointer_grabbed || self.keyboard_grabbed {
            return None;
        }
        proof {
            crate::space::lemma_under_index_range(self.space@, self.pointer_location);
        }
        match self.space.element_under(self.pointer_location) {
            None => None,
            Some(e) => {
                let w = e.window;
                self.space.raise_element(w);
                self.keyboard_focus = Some(FocusTarget::from_window(w));
                proof {
                    self.lemma_raise_keeps_wf(*old(self), w);
                }
                Some(w)
            },
        }
    }

    /// A scroll event: what the frame carries for the horizontal and the
    /// vertical axis.
    pub fn pointer_axis(
        &mut self,
        source: AxisSource,
        horizontal: AxisAmount,
        vertical: AxisAmount,
        now: u64,
    ) -> (r: (AxisEmit, AxisEmit))
        requires
            old(self).wf(),
        ensures
            final(self).wf(),
            r == (axis_emit_spec(source, horizontal), axis_emit_spec(source, vertical)),
            final(self).last_pointer_movement == now,
            final(self).pointer_location == old(self).pointer_location,
            final(self).space@ == old(self).space@,
    {
        self.last_pointer_movement = now;
        (axis_emit(source, horizontal), axis_emit(source, vertical))
    }
}

/// Once the lock on the window under the pointer is active, relative motion
/// leaves the pointer where it is, whatever the deltas, for as long as the
/// lock stays.
pub proof fn lemma_lock_freezes_pointer(
    space: Seq<SpaceEntry>,
    cons: Map<u64, ConstraintModel>,
    output: Option<Size>,
    p: Position,
    ds: Seq<Position>,
)
    requires
        under_index(space, p) >= 0,
        cons.contains_key(space[under_index(space, p)].window.surface_spec()),
        cons[space[under_index(space, p)].window.surface_spec()].locked,
        cons[space[under_index(space, p)].window.surface_spec()].active,
    ensures
        motions_spec(space, cons, output, p, ds) == p,
    decreases ds.len(),
{
    if ds.len() > 0 {
        lemma_lock_freezes_pointer(space, cons, output, p, ds.drop_first());
    }
}

/// Under a confinement of the window under the pointer, a delta that would
/// leave the region is refused and the pointer stays; a delta that stays
/// inside is applied.
pub proof fn lemma_confine_clips_motion(
    space: Seq<SpaceEntry>,
    cons: Map<u64, ConstraintModel>,
    output: Option<Size>,
    p: Position,
    d: Position,
)
    requires
        under_index(space, p) >= 0,
        cons.contains_key(space[under_index(space, p)].window.surface_spec()),
        !cons[space[under_index(space, p)].window.surface_spec()].locked,
    ensures
        ({
            let e = space[under_index(space, p)];
            let c = cons[e.window.surface_spec()];
            let q = relative_motion_spec(space, cons, output, p, d).0;
            &&& in_constraint_region(c.region, moved(p, d), e.loc) ==> q == moved(p, d)
            &&& !in_constraint_region(c.region, moved(p, d), e.loc) ==> q == p
        }),
{
}

/// Control+Shift+Tab, pressed and released, then released again: the press
/// raises and focuses the bottom-most window, the first release is swallowed,
/// the second goes to the client.
pub proof fn lemma_tab_release_swallowed_once(
    suppressed: Set<u32>,
    bottom: Window,
    focus: Option<FocusTarget>,
    m: Modifiers,
    m2: Modifiers,
    m3: Modifiers,
)
    requires
        is_chord(m),
    ensures
        ({
            let (s1, o1) = key_filter_spec(suppressed, Some(bottom), focus, KEY_TAB, true, m);
            let (s2, o2) = key_filter_spec(
                s1,
                Some(bottom),
                Some(focus_of(bottom)),
                KEY_TAB,
                false,
                m2,
            );
            let (s3, o3) = key_filter_spec(
                s2,
                Some(bottom),
                Some(focus_of(bottom)),
                KEY_TAB,
                false,
                m3,
            );
            &&& o1 == KeyOutcome::FocusWindow(bottom)
            &&& o2 == KeyOutcome::Swallow
            &&& o3 == KeyOutcome::Forward
        }),
{
    let (s1, o1) = key_filter_spec(suppressed, Some(bottom), focus, KEY_TAB, true, m);
    assert(s1.contains(KEY_TAB));
    let (s2, o2) = key_filter_spec(s1, Some(bottom), Some(focus_of(bottom)), KEY_TAB, false, m2);
    assert(!s2.contains(KEY_TAB));
}

} // verus!
