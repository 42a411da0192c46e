use vstd::prelude::*;

use crate::geometry::{centered, centered_spec, Point, Size};
use crate::space::{holds, SpaceEntry};
use crate::state::{pending_surfaces, popup_surfaces, PendingWindow, State, TrackedPopup};
use crate::window::{FocusTarget, Window};

verus! {

/// What the client of a native toplevel declared, as its commit stands: its
/// maximum size (`0 x 0` where it set none) and the size it acknowledged.
#[derive(Clone, Copy, Debug, PartialEq, Eq, Structural)]
pub struct ToplevelInfo {
    pub max_size: Size,
    pub size: Option<Size>,
}

impl ToplevelInfo {
    pub open spec fn wf(self) -> bool {
        self.max_size.wf() && (self.size matches Some(s) ==> s.wf())
    }
}

/// What a surface commit asks of the shell.
#[derive(Clone, Copy, Debug, PartialEq, Eq, Structural)]
pub enum CommitAction {
    Nothing,
    /// Send the toplevel its initial configure, marked activated, with this
    /// size (`None`: the client chooses) and fullscreen where asked.
    Configure { surface: u64, size: Option<Size>, fullscreen: bool },
    /// The toplevel was placed in the space at `loc`, raised and focused.
    Place { surface: u64, loc: Point },
    /// Send the popup its initial configure.
    PopupConfigure { surface: u64 },
}

/// Where a native toplevel stands in its initial-configure sequence.
#[derive(Clone, Copy, Debug, PartialEq, Eq, Structural)]
pub enum Phase {
    /// Created; no configure sent yet.
    Unconfigured,
    /// The initial configure was sent; waiting for the next commit.
    Configured,
    /// Placed in the space.
    Mapped,
    /// Not a native toplevel that the shell knows.
    Unknown,
}

pub open spec fn in_pending(p: Seq<PendingWindow>, s: u64) -> bool {
    exists|i: int| 0 <= i < p.len() && p[i].surface == s
}

pub open spec fn pending_index(p: Seq<PendingWindow>, s: u64) -> int {
    if in_pending(p, s) {
        choose|i: int| 0 <= i < p.len() && p[i].surface == s
    } else {
        -1
    }
}

pub open spec fn in_popups(p: Seq<TrackedPopup>, s: u64) -> bool {
    exists|i: int| 0 <= i < p.len() && p[i].surface == s
}

pub open spec fn popup_index(p: Seq<TrackedPopup>, s: u64) -> int {
    if in_popups(p, s) {
        choose|i: int| 0 <= i < p.len() && p[i].surface == s
    } else {
        -1
    }
}

pub open spec fn phase_of(p: Seq<PendingWindow>, space: Seq<SpaceEntry>, s: u64) -> Phase {
    if in_pending(p, s) {
        if p[pending_index(p, s)].configured {
            Phase::Configured
        } else {
            Phase::Unconfigured
        }
    } else if holds(space, Window::Wayland(s)) {
        Phase::Mapped
    } else {
        Phase::Unknown
    }
}

/// A commit of a native toplevel in phase `ph`: its next phase, and whether
/// the commit sends its initial configure (`1`) or maps it (`2`).
pub open spec fn phase_step(ph: Phase, has_output: bool) -> (Phase, int) {
    match ph {
        Phase::Unconfigured => if has_output {
            (Phase::Configured, 1)
        } else {
            (Phase::Unconfigured, 0)
        },
        Phase::Configured => if has_output {
            (Phase::Mapped, 2)
        } else {
            (Phase::Configured, 0)
        },
        _ => (ph, 0),
    }
}

/// The events (`1` configure, `2` map, `0` none) that a run of commits of one
/// toplevel produces, given whether an output exists at each.
pub open spec fn phase_run(ph: Phase, outputs: Seq<bool>) -> Seq<int>
    decreases outputs.len(),
{
    if outputs.len() == 0 {
        Seq::empty()
    } else {
        let (next, ev) = phase_step(ph, outputs[0]);
        seq![ev].add(phase_run(next, outputs.drop_first()))
    }
}

pub open spec fn count_of(s: Seq<int>, v: int) -> nat
    decreases s.len(),
{
    if s.len() == 0 {
        0
    } else {
        (if s[0] == v {
            1nat
        } else {
            0nat
        }) + count_of(s.drop_first(), v)
    }
}

/// The commit's action for a toplevel's initial-configure sequence.
pub open spec fn toplevel_action(ph: Phase, s: u64, output: Size, info: ToplevelInfo) -> CommitAction {
    if ph == Phase::Unconfigured {
        let full = info.max_size.w == 0 && info.max_size.h == 0;
        CommitAction::Configure {
            surface: s,
            size: if full {
                Some(output)
            } else {
                None
            },
            fullscreen: full,
        }
    } else {
        CommitAction::Place { surface: s, loc: centered_spec(output, window_size(info)) }
    }
}

pub open spec fn window_size(info: ToplevelInfo) -> Size {
    match info.size {
        Some(s) => s,
        None => Size { w: 0, h: 0 },
    }
}

/// Whether a popup may take its grab: where the seat already holds a grab,
/// the popup's serial, or the serial of the grab it extends, must be that
/// grab's.
#[derive(Clone, Copy, Debug, PartialEq, Eq, Structural)]
pub struct GrabCheck {
    pub grabbed: bool,
    pub has_serial: bool,
    pub has_previous_serial: bool,
}

#[derive(Clone, Copy, Debug, PartialEq, Eq, Structural)]
pub enum GrabDecision {
    /// The popup's root is no mapped window: nothing is done.
    Ignore,
    /// The keyboard refused: the popup grab is dismissed.
    UngrabAtKeyboard,
    /// The keyboard took the grab, the pointer refused: the popup grab is
    /// dismissed.
    UngrabAtPointer,
    /// Keyboard and pointer take the grab.
    Grant,
}

pub open spec fn grab_ok(c: GrabCheck) -> bool {
    !c.grabbed || c.has_serial || c.has_previous_serial
}

pub fn grab_allowed(c: GrabCheck) -> (r: bool)
    ensures
        r == grab_ok(c),
{
    !c.grabbed || c.has_serial || c.has_previous_serial
}

/// Decides a popup's grab request from whether its root is mapped and what the
/// keyboard and pointer report.
pub fn popup_grab(root_mapped: bool, keyboard: GrabCheck, pointer: GrabCheck) -> (r: GrabDecision)
    ensures
        r == (if !root_mapped {
            GrabDecision::Ignore
        } else if !grab_ok(keyboard) {
            GrabDecision::UngrabAtKeyboard
        } else if !grab_ok(pointer) {
            GrabDecision::UngrabAtPointer
        } else {
            GrabDecision::Grant
        }),
{
    if !root_mapped {
        GrabDecision::Ignore
    } else if !grab_allowed(keyboard) {
        GrabDecision::UngrabAtKeyboard
    } else if !grab_allowed(pointer) {
        GrabDecision::UngrabAtPointer
    } else {
        GrabDecision::Grant
    }
}

proof fn lemma_pending_index(p: Seq<PendingWindow>, s: u64, i: int)
    requires
        pending_surfaces(p).no_duplicates(),
        0 <= i < p.len(),
        p[i].surface == s,
    ensures
        pending_index(p, s) == i,
{
    let j = pending_index(p, s);
    assert(pending_surfaces(p)[i] == s);
    assert(pending_surfaces(p)[j] == s);
}

proof fn lemma_popup_index(p: Seq<TrackedPopup>, s: u64, i: int)
    requires
        popup_surfaces(p).no_duplicates(),
        0 <= i < p.len(),
        p[i].surface == s,
    ensures
        popup_index(p, s) == i,
{
    let j = popup_index(p, s);
    assert(popup_surfaces(p)[i] == s);
    assert(popup_surfaces(p)[j] == s);
}

/// Removing entry `i` keeps every other surface's entry.
proof fn lemma_pending_remove(p: Seq<PendingWindow>, i: int, t: u64)
    requires
        pending_surfaces(p).no_duplicates(),
        0 <= i < p.len(),
    ensures
        pending_surfaces(p.remove(i)).no_duplicates(),
        t != p[i].surface ==> in_pending(p.remove(i), t) == in_pending(p, t),
        t != p[i].surface && in_pending(p, t) ==> p.remove(i)[pending_index(p.remove(i), t)]
            == p[pending_index(p, t)],
        !in_pending(p.remove(i), p[i].surface),
{
    let q = p.remove(i);
    assert(pending_surfaces(q) =~= pending_surfaces(p).remove(i));
    assert forall|a: int, b: int|
        0 <= a < b < pending_surfaces(q).len() implies pending_surfaces(q)[a]
        != pending_surfaces(q)[b] by {
        let a0 = if a < i { a } else { a + 1 };
        let b0 = if b < i { b } else { b + 1 };
        assert(pending_surfaces(p)[a0] != pending_surfaces(p)[b0]);
    }
    if t != p[i].surface && in_pending(p, t) {
        let j = pending_index(p, t);
        let j1 = if j < i { j } else { j - 1 };
        assert(j != i);
        assert(q[j1] == p[j]);
        lemma_pending_index(q, t, j1);
    }
    if t != p[i].surface && in_pending(q, t) {
        let k = pending_index(q, t);
        let k0 = if k < i { k } else { k + 1 };
        assert(p[k0].surface == t);
    }
    assert forall|k: int| 0 <= k < q.len() implies q[k].surface != p[i].surface by {
        let k0 = if k < i { k } else { k + 1 };
        assert(pending_surfaces(p)[k0] != pending_surfaces(p)[i]);
    }
}

impl State {
    pub open spec fn phase(&self, s: u64) -> Phase {
        phase_of(self.pending_windows@, self.space@, s)
    }

    pub open spec fn knows(&self, s: u64) -> bool {
        in_pending(self.pending_windows@, s) || in_popups(self.popups@, s) || holds(
            self.space@,
            Window::Wayland(s),
        ) || holds(self.space@, Window::X11(s))
    }

    /// The shell's invariant: no surface is both a pending toplevel and a popup.
    pub open spec fn shell_wf(&self) -> bool {
        &&& self.wf()
        &&& forall|s: u64| !(#[trigger] in_pending(self.pending_windows@, s) && in_popups(self.popups@, s))
    }

    fn find_pending(&self, s: u64) -> (r: Option<usize>)
        requires
            self.wf(),
        ensures
            match r {
                Some(i) => i < self.pending_windows@.len() && i == pending_index(
                    self.pending_windows@,
                    s,
                ) && in_pending(self.pending_windows@, s),
                None => !in_pending(self.pending_windows@, s),
            },
    {
        let mut i: usize = 0;
        while i < self.pending_windows.len()
            invariant
                self.wf(),
                i <= self.pending_windows@.len(),
                forall|j: int| 0 <= j < i ==> self.pending_windows@[j].surface != s,
            decreases self.pending_windows@.len() - i,
        {
            if self.pending_windows[i].surface == s {
                proof {
                    lemma_pending_index(self.pending_windows@, s, i as int);
                }
                return Some(i);
            }
            i = i + 1;
        }
        None
    }

    fn find_popup(&self, s: u64) -> (r: Option<usize>)
        requires
            self.wf(),
        ensures
            match r {
                Some(i) => i < self.popups@.len() && i == popup_index(self.popups@, s) && in_popups(
                    self.popups@,
                    s,
                ),
                None => !in_popups(self.popups@, s),
            },
    {
        let mut i: usize = 0;
        while i < self.popups.len()
            invariant
                self.wf(),
                i <= self.popups@.len(),
                forall|j: int| 0 <= j < i ==> self.popups@[j].surface != s,
            decreases self.popups@.len() - i,
        {
            if self.popups[i].surface == s {
                proof {
                    lemma_popup_index(self.popups@, s, i as int);
                }
                return Some(i);
            }
            i = i + 1;
        }
        None
    }

    /// A new native toplevel: it joins the pending queue, unconfigured.
    pub fn new_toplevel(&mut self, surface: u64)
        requires
            old(self).shell_wf(),
            !old(self).knows(surface),
        ensures
            final(self).shell_wf(),
            final(self).pending_windows@ == old(self).pending_windows@.push(
                PendingWindow { surface, configured: false },
            ),
            final(self).phase(surface) == Phase::Unconfigured,
            final(self).space@ == old(self).space@,
            final(self).popups@ == old(self).popups@,
    {
        let pw = PendingWindow { surface, configured: false };
        self.pending_windows.push(pw);
        proof {
            let p = old(self).pending_windows@;
            let q = self.pending_windows@;
            assert(pending_surfaces(q) =~= pending_surfaces(p).push(surface));
            assert forall|a: int, b: int|
                0 <= a < b < pending_surfaces(q).len() implies pending_surfaces(q)[a]
                != pending_surfaces(q)[b] by {
                if b == p.len() {
                    assert(p[a].surface != surface);
                } else {
                    assert(pending_surfaces(p)[a] != pending_surfaces(p)[b]);
                }
            }
            lemma_pending_index(q, surface, p.len() as int);
            assert forall|s: u64| !(#[trigger] in_pending(q, s) && in_popups(self.popups@, s)) by {
                if in_pending(q, s) && s != surface {
                    let k = choose|k: int| 0 <= k < q.len() && q[k].surface == s;
                    assert(p[k].surface == s);
                    assert(in_pending(p, s));
                }
            }
        }
    }

    /// A new popup: it is tracked, its initial configure not yet sent.
    pub fn new_popup(&mut self, surface: u64)
        requires
            old(self).shell_wf(),
            !old(self).knows(surface),
        ensures
            final(self).shell_wf(),
            final(self).popups@ == old(self).popups@.push(TrackedPopup { surface, configured: false }),
            final(self).pending_windows@ == old(self).pending_windows@,
            final(self).space@ == old(self).space@,
    {
        self.popups.push(TrackedPopup { surface, configured: false });
        proof {
            let p = old(self).popups@;
            let q = self.popups@;
            assert(popup_surfaces(q) =~= popup_surfaces(p).push(surface));
            assert forall|a: int, b: int|
                0 <= a < b < popup_surfaces(q).len() implies popup_surfaces(q)[a]
                != popup_surfaces(q)[b] by {
                if b == p.len() {
                    assert(p[a].surface != surface);
                } else {
                    assert(popup_surfaces(p)[a] != popup_surfaces(p)[b]);
                }
            }
            assert forall|s: u64| !(#[trigger] in_pending(self.pending_windows@, s) && in_popups(q, s)) by {
                if in_popups(q, s) && s != surface {
                    let k = choose|k: int| 0 <= k < q.len() && q[k].surface == s;
                    assert(p[k].surface == s);
                    assert(in_popups(p, s));
                }
            }
        }
    }

    /// A surface commit. A pending toplevel gets its initial configure on its
    /// first commit once an output exists (fullscreen at the output's size
    /// where it declared no maximum size), and on the commit after that it is
    /// centered on the output, placed on top of the space and focused. A
    /// tracked popup gets its initial configure on its first commit.
    pub fn commit(&mut self, surface: u64, info: ToplevelInfo) -> (r: CommitAction)
        requires
            old(self).shell_wf(),
            info.wf(),
        ensures
            final(self).shell_wf(),
            in_pending(old(self).pending_windows@, surface) ==> {
                let ph = old(self).phase(surface);
                &&& final(self).phase(surface) == phase_step(ph, old(self).output is Some).0
                &&& (old(self).output matches Some(o) ==> r == toplevel_action(ph, surface, o, info))
                &&& (old(self).output is None ==> r == CommitAction::Nothing)
            },
            in_pending(old(self).pending_windows@, surface) && old(self).output is Some
                && old(self).phase(surface) == Phase::Configured ==> final(self).space@ == old(
                self,
            ).space@.push(
                SpaceEntry {
                    window: Window::Wayland(surface),
                    loc: centered_spec(old(self).output->0, window_size(info)),
                    size: window_size(info),
                },
            ) && final(self).keyboard_focus == Some(FocusTarget::Wayland(surface)),
            !(in_pending(old(self).pending_windows@, surface) && old(self).output is Some
                && old(self).phase(surface) == Phase::Configured) ==> final(self).space@ == old(
                self,
            ).space@ && final(self).keyboard_focus == old(self).keyboard_focus,
            forall|t: u64| t != surface ==> #[trigger] final(self).phase(t) == old(self).phase(t),
            !in_pending(old(self).pending_windows@, surface) ==> final(self).pending_windows@
                == old(self).pending_windows@,
            !in_pending(old(self).pending_windows@, surface) && in_popups(old(self).popups@, surface)
                ==> {
                let i = popup_index(old(self).popups@, surface);
                &&& r == (if old(self).popups@[i].configured {
                    CommitAction::Nothing
                } else {
                    CommitAction::PopupConfigure { surface }
                })
                &&& final(self).popups@ == old(self).popups@.update(
                    i,
                    TrackedPopup { surface, configured: true },
                )
            },
            !in_pending(old(self).pending_windows@, surface) && !in_popups(old(self).popups@, surface)
                ==> r == CommitAction::Nothing,
            in_pending(old(self).pending_windows@, surface) ==> final(self).popups@ == old(
                self,
            ).popups@,
            final(self).output == old(self).output,
            final(self).pointer_location == old(self).pointer_location,
            final(self).constraints.view() == old(self).constraints.view(),
    {
        match self.find_pending(surface) {
            Some(idx) => {
                let output = match self.output {
                    None => return CommitAction::Nothing,
                    Some(o) => o,
                };
                let pw = self.pending_windows.remove(idx);
                proof {
                    lemma_pending_remove(old(self).pending_windows@, idx as int, surface);
                    assert forall|t: u64| t != surface implies in_pending(
                        self.pending_windows@,
                        t,
                    ) == in_pending(old(self).pending_windows@, t) && (in_pending(
                        old(self).pending_windows@,
                        t,
                    ) ==> self.pending_windows@[pending_index(self.pending_windows@, t)] == old(
                        self,
                    ).pending_windows@[pending_index(old(self).pending_windows@, t)]) by {
                        lemma_pending_remove(old(self).pending_windows@, idx as int, t);
                    }
                }
                if !pw.configured {
                    let full = info.max_size.w == 0 && info.max_size.h == 0;
                    let ghost mid = self.pending_windows@;
                    self.pending_windows.push(PendingWindow { surface, configured: true });
                    proof {
                        let q = self.pending_windows@;
                        assert(pending_surfaces(q) =~= pending_surfaces(mid).push(surface));
                        assert forall|a: int, b: int|
                            0 <= a < b < pending_surfaces(q).len() implies pending_surfaces(q)[a]
                            != pending_surfaces(q)[b] by {
                            if b == mid.len() {
                                assert(mid[a].surface != surface);
                            } else {
                                assert(pending_surfaces(mid)[a] != pending_surfaces(mid)[b]);
                            }
                        }
                        lemma_pending_index(q, surface, mid.len() as int);
                        assert forall|t: u64| t != surface implies #[trigger] phase_of(
                            q,
                            self.space@,
                            t,
                        ) == phase_of(old(self).pending_windows@, old(self).space@, t) by {
                            if in_pending(mid, t) {
                                let k = pending_index(mid, t);
                                assert(q[k] == mid[k]);
                                lemma_pending_index(q, t, k);
                            }
                            if in_pending(q, t) {
                                let k = choose|k: int| 0 <= k < q.len() && q[k].surface == t;
                                assert(mid[k].surface == t);
                            }
                        }
                        assert forall|i: int| 0 <= i < q.len() implies !holds(
                            self.space@,
                            Window::Wayland(#[trigger] q[i].surface),
                        ) by {
                            if i < mid.len() {
                                let k = choose|k: int|
                                    0 <= k < old(self).pending_windows@.len() && old(
                                        self,
                                    ).pending_windows@[k].surface == mid[i].surface;
                                assert(in_pending(mid, mid[i].surface));
                                assert(old(self).pending_windows@[k].surface == mid[i].surface);
                            } else {
                                assert(old(self).pending_windows@[idx as int].surface == surface);
                            }
                        }
                        assert forall|s: u64| !(#[trigger] in_pending(q, s) && in_popups(self.popups@, s)) by {
                            if in_pending(q, s) && s != surface {
                                assert(in_pending(mid, s));
                            }
                            if s == surface {
                                assert(in_pending(old(self).pending_windows@, surface));
                            }
                        }
                    }
                    CommitAction::Configure {
                        surface,
                        size: if full {
                            Some(output)
                        } else {
                            None
                        },
                        fullscreen: full,
                    }
                } else {
                    let size = match info.size {
                        Some(s) => s,
                        None => Size { w: 0, h: 0 },
                    };
                    let loc = centered(output, size);
                    let w = Window::Wayland(surface);
                    proof {
                        assert(!holds(old(self).space@, w)) by {
                            assert(old(self).pending_windows@[idx as int].surface == surface);
                        }
                    }
                    self.space.map_element(w, loc, size, true);
                    self.keyboard_focus = Some(FocusTarget::Wayland(surface));
                    proof {
                        let mid = self.pending_windows@;
                        assert forall|t: u64| t != surface implies #[trigger] phase_of(
                            mid,
                            self.space@,
                            t,
                        ) == phase_of(old(self).pending_windows@, old(self).space@, t) by {
                            assert(holds(self.space@, Window::Wayland(t)) == holds(
                                old(self).space@,
                                Window::Wayland(t),
                            )) by {
                                if holds(self.space@, Window::Wayland(t)) {
                                    let k = choose|k: int|
                                        0 <= k < self.space@.len() && self.space@[k].window
                                            == Window::Wayland(t);
                                    assert(k < old(self).space@.len());
                                    assert(old(self).space@[k].window == Window::Wayland(t));
                                }
                                if holds(old(self).space@, Window::Wayland(t)) {
                                    let k = choose|k: int|
                                        0 <= k < old(self).space@.len() && old(self).space@[k].window
                                            == Window::Wayland(t);
                                    assert(self.space@[k].window == Window::Wayland(t));
                                }
                            }
                        }
                        assert(self.space@[old(self).space@.len() as int].window == w);
                        assert forall|i: int| 0 <= i < mid.len() implies !holds(
                            self.space@,
                            Window::Wayland(#[trigger] mid[i].surface),
                        ) by {
                            assert(in_pending(mid, mid[i].surface));
                            assert(in_pending(old(self).pending_windows@, mid[i].surface));
                            let k = pending_index(old(self).pending_windows@, mid[i].surface);
                            assert(old(self).pending_windows@[k].surface == mid[i].surface);
                            assert(!holds(old(self).space@, Window::Wayland(mid[i].surface)));
                            assert(mid[i].surface != surface);
                            if holds(self.space@, Window::Wayland(mid[i].surface)) {
                                let j = choose|j: int|
                                    0 <= j < self.space@.len() && self.space@[j].window
                                        == Window::Wayland(mid[i].surface);
                                assert(j < old(self).space@.len());
                                assert(old(self).space@[j].window == Window::Wayland(
                                    mid[i].surface,
                                ));
                            }
                        }
                        assert forall|s: u64| !(#[trigger] in_pending(mid, s) && in_popups(self.popups@, s)) by {
                            if in_pending(mid, s) {
                                assert(in_pending(old(self).pending_windows@, s));
                            }
                        }
                    }
                    CommitAction::Place { surface, loc }
                }
            },
            None => {
                match self.find_popup(surface) {
                    None => CommitAction::Nothing,
                    Some(i) => {
                        let was = self.popups[i].configured;
                        self.popups.set(i, TrackedPopup { surface, configured: true });
                        proof {
                            assert(popup_surfaces(self.popups@) =~= popup_surfaces(old(self).popups@));
                            assert forall|s: u64| !(#[trigger] in_pending(self.pending_windows@, s) && in_popups(self.popups@, s)) by {
                                if in_popups(self.popups@, s) {
                                    let k = choose|k: int| 0 <= k < self.popups@.len() && self.popups@[k].surface == s;
                                    assert(old(self).popups@[k].surface == s);
                                    assert(in_popups(old(self).popups@, s));
                                }
                            }
                        }
                        if was {
                            CommitAction::Nothing
                        } else {
                            CommitAction::PopupConfigure { surface }
                        }
                    },
                }
            },
        }
    }
}

/// A native toplevel's initial configure is sent exactly once over its
/// commits, once any of them finds an output (never more, whatever follows),
/// and it is placed in the space only on a commit after the one that sent it.
pub proof fn lemma_initial_configure_once(outputs: Seq<bool>)
    ensures
        count_of(phase_run(Phase::Unconfigured, outputs), 1) <= 1,
        (exists|i: int| 0 <= i < outputs.len() && outputs[i]) ==> count_of(
            phase_run(Phase::Unconfigured, outputs),
            1,
        ) == 1,
        forall|j: int|
            0 <= j < outputs.len() && #[trigger] phase_run(Phase::Unconfigured, outputs)[j] == 2
                ==> exists|i: int| 0 <= i < j && phase_run(Phase::Unconfigured, outputs)[i] == 1,
    decreases outputs.len(),
{
    lemma_phase_run_len(Phase::Unconfigured, outputs);
    if outputs.len() > 0 {
        let rest = outputs.drop_first();
        let run = phase_run(Phase::Unconfigured, outputs);
        if outputs[0] {
            lemma_no_configure_after(Phase::Configured, rest);
            lemma_phase_run_len(Phase::Configured, rest);
            assert(run.drop_first() =~= phase_run(Phase::Configured, rest));
            assert forall|j: int|
                0 <= j < outputs.len() && #[trigger] run[j] == 2 implies exists|i: int|
                0 <= i < j && run[i] == 1 by {
                assert(run[0] == 1);
                assert(j != 0);
            }
        } else {
            lemma_initial_configure_once(rest);
            lemma_phase_run_len(Phase::Unconfigured, rest);
            assert(run.drop_first() =~= phase_run(Phase::Unconfigured, rest));
            if exists|i: int| 0 <= i < outputs.len() && outputs[i] {
                let i = choose|i: int| 0 <= i < outputs.len() && outputs[i];
                assert(i != 0);
                assert(rest[i - 1]);
            }
            assert forall|j: int|
                0 <= j < outputs.len() && #[trigger] run[j] == 2 implies exists|i: int|
                0 <= i < j && run[i] == 1 by {
                assert(run[0] == 0);
                assert(j != 0);
                assert(phase_run(Phase::Unconfigured, rest)[j - 1] == 2);
                let i0 = choose|i: int| 0 <= i < j - 1 && phase_run(Phase::Unconfigured, rest)[i] == 1;
                assert(run[i0 + 1] == 1);
            }
        }
    }
}

proof fn lemma_phase_run_len(ph: Phase, outputs: Seq<bool>)
    ensures
        phase_run(ph, outputs).len() == outputs.len(),
    decreases outputs.len(),
{
    if outputs.len() > 0 {
        lemma_phase_run_len(phase_step(ph, outputs[0]).0, outputs.drop_first());
    }
}

proof fn lemma_no_configure_after(ph: Phase, outputs: Seq<bool>)
    requires
        ph != Phase::Unconfigured,
    ensures
        count_of(phase_run(ph, outputs), 1) == 0,
    decreases outputs.len(),
{
    if outputs.len() > 0 {
        let next = phase_step(ph, outputs[0]).0;
        lemma_no_configure_after(next, outputs.drop_first());
        assert(phase_run(ph, outputs).drop_first() =~= phase_run(next, outputs.drop_first()));
    }
}

proof fn lemma_popup_remove(p: Seq<TrackedPopup>, i: int, t: u64)
    requires
        popup_surfaces(p).no_duplicates(),
        0 <= i < p.len(),
    ensures
        popup_surfaces(p.remove(i)).no_duplicates(),
        t != p[i].surface ==> in_popups(p.remove(i), t) == in_popups(p, t),
        !in_popups(p.remove(i), p[i].surface),
{
    let q = p.remove(i);
    assert(popup_surfaces(q) =~= popup_surfaces(p).remove(i));
    assert forall|a: int, b: int|
        0 <= a < b < popup_surfaces(q).len() implies popup_surfaces(q)[a]
        != popup_surfaces(q)[b] by {
        let a0 = if a < i { a } else { a + 1 };
        let b0 = if b < i { b } else { b + 1 };
        assert(popup_surfaces(p)[a0] != popup_surfaces(p)[b0]);
    }
    if t != p[i].surface && in_popups(p, t) {
        let j = choose|j: int| 0 <= j < p.len() && p[j].surface == t;
        let j1 = if j < i { j } else { j - 1 };
        assert(q[j1] == p[j]);
    }
    if t != p[i].surface && in_popups(q, t) {
        let k = choose|k: int| 0 <= k < q.len() && q[k].surface == t;
        let k0 = if k < i { k } else { k + 1 };
        assert(p[k0].surface == t);
    }
    assert forall|k: int| 0 <= k < q.len() implies q[k].surface != p[i].surface by {
        let k0 = if k < i { k } else { k + 1 };
        assert(popup_surfaces(p)[k0] != popup_surfaces(p)[i]);
    }
}

impl State {
    /// A client destroyed `surface`: the window, popup, constraint and focus
    /// that it backed are gone.
    pub fn surface_destroyed(&mut self, surface: u64)
        requires
            old(self).shell_wf(),
        ensures
            final(self).shell_wf(),
            !final(self).knows(surface),
            !final(self).constraints.view().contains_key(surface),
            final(self).constraints.view() == old(self).constraints.view().remove(surface),
            forall|t: u64| t != surface ==> #[trigger] final(self).phase(t) == old(self).phase(t),
            forall|t: u64|
                t != surface ==> #[trigger] in_popups(final(self).popups@, t) == in_popups(
                    old(self).popups@,
                    t,
                ),
            final(self).keyboard_focus == (match old(self).keyboard_focus {
                Some(f) => if f.wl_surface_spec() == surface {
                    None
                } else {
                    Some(f)
                },
                None => None,
            }),
            final(self).output == old(self).output,
            final(self).pointer_location == old(self).pointer_location,
    {
        let ghost s0 = *old(self);
        if let Some(i) = self.find_pending(surface) {
            proof {
                lemma_pending_remove(self.pending_windows@, i as int, surface);
                assert forall|t: u64| t != surface implies in_pending(
                    self.pending_windows@.remove(i as int),
                    t,
                ) == in_pending(self.pending_windows@, t) && (in_pending(self.pending_windows@, t)
                    ==> self.pending_windows@.remove(i as int)[pending_index(
                    self.pending_windows@.remove(i as int),
                    t,
                )] == self.pending_windows@[pending_index(self.pending_windows@, t)]) by {
                    lemma_pending_remove(self.pending_windows@, i as int, t);
                }
            }
            self.pending_windows.remove(i);
        }
        let ghost s1 = self.pending_windows@;
        proof {
            assert forall|i: int| 0 <= i < s1.len() implies !holds(
                self.space@,
                Window::Wayland(#[trigger] s1[i].surface),
            ) by {
                assert(in_pending(s1, s1[i].surface));
                assert(in_pending(s0.pending_windows@, s1[i].surface));
                let k = pending_index(s0.pending_windows@, s1[i].surface);
                assert(s0.pending_windows@[k].surface == s1[i].surface);
            }
        }
        if let Some(i) = self.find_popup(surface) {
            proof {
                lemma_popup_remove(self.popups@, i as int, surface);
                assert forall|t: u64| t != surface implies in_popups(
                    self.popups@.remove(i as int),
                    t,
                ) == in_popups(self.popups@, t) by {
                    lemma_popup_remove(self.popups@, i as int, t);
                }
            }
            self.popups.remove(i);
        }
        let ghost space0 = self.space@;
        self.space.unmap_elem(Window::Wayland(surface));
        self.space.unmap_elem(Window::X11(surface));
        self.constraints.remove_constraint(surface);
        if let Some(f) = self.keyboard_focus {
            if f.wl_surface() == surface {
                self.keyboard_focus = None;
            }
        }
        proof {
            assert forall|t: Window|
                t != Window::Wayland(surface) && t != Window::X11(surface) implies #[trigger] holds(
                self.space@,
                t,
            ) == holds(space0, t) by {}
            assert forall|i: int| 0 <= i < self.pending_windows@.len() implies !holds(
                self.space@,
                Window::Wayland(#[trigger] self.pending_windows@[i].surface),
            ) by {
                assert(!holds(space0, Window::Wayland(self.pending_windows@[i].surface)));
            }
            assert forall|s: u64| !(#[trigger] in_pending(self.pending_windows@, s) && in_popups(
                self.popups@,
                s,
            )) by {
                if s != surface && in_pending(self.pending_windows@, s) && in_popups(self.popups@, s) {
                    assert(in_pending(s0.pending_windows@, s));
                    assert(in_popups(s0.popups@, s));
                }
            }
            assert forall|t: u64| t != surface implies #[trigger] self.phase(t) == s0.phase(t) by {
                assert(holds(self.space@, Window::Wayland(t)) == holds(s0.space@, Window::Wayland(t)));
            }
        }
    }
}

} // verus!
