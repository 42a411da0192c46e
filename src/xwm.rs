use vstd::prelude::*;

use crate::geometry::{centered, centered_spec, fit_size, fit_size_spec, Point, Rect, Size};
use crate::space::{holds, index_of, SpaceEntry};
use crate::state::State;
use crate::window::{FocusTarget, Window};

verus! {

/// The window types an X11 client can declare.
#[derive(Clone, Copy, Debug, PartialEq, Eq, Structural)]
pub enum WmWindowType {
    DropdownMenu,
    Dialog,
    Menu,
    Notification,
    Normal,
    PopupMenu,
    Splash,
    Toolbar,
    Tooltip,
    Utility,
}

/// What the X11 layer reports of a window asking to be mapped.
#[derive(Clone, Copy, Debug, PartialEq, Eq, Structural)]
pub struct X11Window {
    pub id: u64,
    pub window_type: Option<WmWindowType>,
    pub geometry: Rect,
    pub max_size: Option<Size>,
}

impl X11Window {
    pub open spec fn wf(self) -> bool {
        self.geometry.wf() && (self.max_size matches Some(m) ==> m.wf())
    }
}

/// Where a mapped X11 window goes, and whether it is made fullscreen.
#[derive(Clone, Copy, Debug, PartialEq, Eq, Structural)]
pub struct X11Placement {
    pub geometry: Rect,
    pub fullscreen: bool,
}

/// The output assumed while none exists.
pub const FALLBACK_WIDTH: i32 = 800;

pub const FALLBACK_HEIGHT: i32 = 600;

/// Normal, utility and splash windows, and those of no declared type, get
/// placed; all others are shown as they ask.
pub open spec fn is_placed_type(t: Option<WmWindowType>) -> bool {
    t is None || t == Some(WmWindowType::Normal) || t == Some(WmWindowType::Utility) || t == Some(
        WmWindowType::Splash,
    )
}

pub open spec fn output_or_fallback(output: Option<Size>) -> Size {
    match output {
        Some(o) => o,
        None => Size { w: FALLBACK_WIDTH, h: FALLBACK_HEIGHT },
    }
}

/// A splash keeps its size; other placed windows get the output, cut down to
/// their maximum size. Placed windows are centered, and all but splashes are
/// made fullscreen. Other windows keep the geometry they asked for.
pub open spec fn placement_spec(output: Option<Size>, w: X11Window) -> X11Placement {
    if !is_placed_type(w.window_type) {
        X11Placement { geometry: w.geometry, fullscreen: false }
    } else {
        let out = output_or_fallback(output);
        let splash = w.window_type == Some(WmWindowType::Splash);
        let size = if splash {
            w.geometry.size
        } else {
            match w.max_size {
                Some(m) => fit_size_spec(m, out),
                None => out,
            }
        };
        X11Placement { geometry: Rect { loc: centered_spec(out, size), size }, fullscreen: !splash }
    }
}

/// Computes where an X11 window that asks to be mapped is placed.
pub fn placement(output: Option<Size>, w: X11Window) -> (r: X11Placement)
    requires
        w.wf(),
        output matches Some(o) ==> o.wf(),
    ensures
        r == placement_spec(output, w),
        r.geometry.wf(),
{
    let placed = match w.window_type {
        None => true,
        Some(WmWindowType::Normal) => true,
        Some(WmWindowType::Utility) => true,
        Some(WmWindowType::Splash) => true,
        Some(_) => false,
    };
    if !placed {
        return X11Placement { geometry: w.geometry, fullscreen: false };
    }
    let out = match output {
        Some(o) => o,
        None => Size { w: FALLBACK_WIDTH, h: FALLBACK_HEIGHT },
    };
    let splash = w.window_type == Some(WmWindowType::Splash);
    let size = if splash {
        w.geometry.size
    } else {
        match w.max_size {
            Some(m) => fit_size(m, out),
            None => out,
        }
    };
    X11Placement { geometry: Rect { loc: centered(out, size), size }, fullscreen: !splash }
}

/// What a fullscreen request leads to.
#[derive(Clone, Copy, Debug, PartialEq, Eq, Structural)]
pub enum FullscreenAction {
    /// No output, or the window is not in the space: nothing is done.
    Ignore,
    /// The window is marked fullscreen and already covers the output.
    MarkOnly,
    /// The window is marked fullscreen, configured to cover the output, moved
    /// to the origin, raised and focused.
    Cover(Rect),
}

/// The geometry a configure request leads to: the position is honored only
/// for a window not yet mapped, the size whenever given (a width or height
/// beyond the coordinate range is held at its maximum).
pub open spec fn configure_request_spec(
    mapped: bool,
    geometry: Rect,
    x: Option<i32>,
    y: Option<i32>,
    w: Option<u32>,
    h: Option<u32>,
) -> Rect {
    Rect {
        loc: Point {
            x: if !mapped && x is Some {
                x->0
            } else {
                geometry.loc.x
            },
            y: if !mapped && y is Some {
                y->0
            } else {
                geometry.loc.y
            },
        },
        size: Size {
            w: match w {
                Some(v) => if v <= i32::MAX {
                    v as i32
                } else {
                    i32::MAX
                },
                None => geometry.size.w,
            },
            h: match h {
                Some(v) => if v <= i32::MAX {
                    v as i32
                } else {
                    i32::MAX
                },
                None => geometry.size.h,
            },
        },
    }
}

fn extent(v: Option<u32>, current: i32) -> (r: i32)
    ensures
        r == match v {
            Some(v) => if v <= i32::MAX {
                v as i32
            } else {
                i32::MAX
            },
            None => current,
        },
{
    match v {
        Some(v) => if v <= i32::MAX as u32 {
            v as i32
        } else {
            i32::MAX
        },
        None => current,
    }
}

impl State {
    proof fn lemma_space_change_keeps_wf(&self, before: State, w: Window)
        requires
            before.wf(),
            self.space.wf(),
            w is X11,
            forall|t: Window| t != w ==> #[trigger] holds(self.space@, t) == holds(before.space@, t),
            self.pending_windows@ == before.pending_windows@,
            self.popups@ == before.popups@,
            self.pointer_location == before.pointer_location,
            self.output == before.output,
            self.video == before.video,
        ensures
            self.wf(),
    {
        assert forall|i: int| 0 <= i < self.pending_windows@.len() implies !holds(
            self.space@,
            Window::Wayland(#[trigger] self.pending_windows@[i].surface),
        ) by {
            assert(holds(self.space@, Window::Wayland(self.pending_windows@[i].surface)) == holds(
                before.space@,
                Window::Wayland(self.pending_windows@[i].surface),
            ));
        }
    }

    /// An X11 window asks to be mapped: it is placed, put on top of the space
    /// and given keyboard focus.
    pub fn map_window_request(&mut self, w: X11Window) -> (r: X11Placement)
        requires
            old(self).wf(),
            w.wf(),
        ensures
            final(self).wf(),
            r == placement_spec(old(self).output, w),
            final(self).space@.len() > 0,
            final(self).space@.last() == (SpaceEntry {
                window: Window::X11(w.id),
                loc: r.geometry.loc,
                size: r.geometry.size,
            }),
            forall|t: Window|
                t != Window::X11(w.id) ==> #[trigger] holds(final(self).space@, t) == holds(
                    old(self).space@,
                    t,
                ),
            final(self).keyboard_focus == Some(FocusTarget::X11(w.id)),
            final(self).pending_windows@ == old(self).pending_windows@,
            final(self).popups@ == old(self).popups@,
    {
        let p = placement(self.output, w);
        let win = Window::X11(w.id);
        self.space.map_element(win, p.geometry.loc, p.geometry.size, true);
        self.keyboard_focus = Some(FocusTarget::X11(w.id));
        proof {
            self.lemma_space_change_keeps_wf(*old(self), win);
        }
        p
    }

    /// An override-redirect window mapped itself: it goes on top of the space
    /// at the geometry it chose, without taking the keyboard focus.
    pub fn mapped_override_redirect_window(&mut self, id: u64, geometry: Rect)
        requires
            old(self).wf(),
        ensures
            final(self).wf(),
            final(self).space@.len() > 0,
            final(self).space@.last() == (SpaceEntry {
                window: Window::X11(id),
                loc: geometry.loc,
                size: geometry.size,
            }),
            forall|t: Window|
                t != Window::X11(id) ==> #[trigger] holds(final(self).space@, t) == holds(
                    old(self).space@,
                    t,
                ),
            final(self).keyboard_focus == old(self).keyboard_focus,
    {
        let win = Window::X11(id);
        self.space.map_element(win, geometry.loc, geometry.size, true);
        proof {
            self.lemma_space_change_keeps_wf(*old(self), win);
        }
    }

    /// An X11 window went unmapped: it leaves the space. Returns whether the
    /// window must be marked unmapped, which is all but override-redirect
    /// windows.
    pub fn unmapped_window(&mut self, id: u64, override_redirect: bool) -> (r: bool)
        requires
            old(self).wf(),
        ensures
            final(self).wf(),
            r == !override_redirect,
            !holds(final(self).space@, Window::X11(id)),
            forall|t: Window|
                t != Window::X11(id) ==> #[trigger] holds(final(self).space@, t) == holds(
                    old(self).space@,
                    t,
                ),
            final(self).keyboard_focus == old(self).keyboard_focus,
    {
        let win = Window::X11(id);
        self.space.unmap_elem(win);
        proof {
            self.lemma_space_change_keeps_wf(*old(self), win);
        }
        !override_redirect
    }

    /// An X11 window asks to be moved or resized.
    pub fn configure_request(
        &self,
        id: u64,
        geometry: Rect,
        x: Option<i32>,
        y: Option<i32>,
        w: Option<u32>,
        h: Option<u32>,
    ) -> (r: Rect)
        requires
            self.wf(),
        ensures
            r == configure_request_spec(holds(self.space@, Window::X11(id)), geometry, x, y, w, h),
    {
        let mapped = self.space.position(Window::X11(id)).is_some();
        let lx = match x {
            Some(v) => if !mapped {
                v
            } else {
                geometry.loc.x
            },
            None => geometry.loc.x,
        };
        let ly = match y {
            Some(v) => if !mapped {
                v
            } else {
                geometry.loc.y
            },
            None => geometry.loc.y,
        };
        Rect {
            loc: Point { x: lx, y: ly },
            size: Size { w: extent(w, geometry.size.w), h: extent(h, geometry.size.h) },
        }
    }

    /// An override-redirect window moved itself: its place in the space
    /// follows, without raising it. Other windows are left alone.
    pub fn configure_notify(&mut self, id: u64, override_redirect: bool, geometry: Rect)
        requires
            old(self).wf(),
        ensures
            final(self).wf(),
            override_redirect && holds(old(self).space@, Window::X11(id)) ==> final(self).space@
                == old(self).space@.update(
                index_of(old(self).space@, Window::X11(id)),
                SpaceEntry { window: Window::X11(id), loc: geometry.loc, size: geometry.size },
            ),
            !(override_redirect && holds(old(self).space@, Window::X11(id))) ==> final(self).space@
                == old(self).space@,
            final(self).keyboard_focus == old(self).keyboard_focus,
    {
        if !override_redirect {
            return ;
        }
        let win = Window::X11(id);
        if self.space.position(win).is_none() {
            return ;
        }
        self.space.map_element(win, geometry.loc, geometry.size, false);
        proof {
            self.lemma_space_change_keeps_wf(*old(self), win);
        }
    }

    /// An X11 window asks to be fullscreen. Where it does not already cover the
    /// output, it is moved to the origin with the output's size, raised and
    /// focused.
    pub fn fullscreen_request(&mut self, id: u64, geometry: Rect) -> (r: FullscreenAction)
        requires
            old(self).wf(),
        ensures
            final(self).wf(),
            (old(self).output is None || !holds(old(self).space@, Window::X11(id))) ==> r
                == FullscreenAction::Ignore && final(self).space@ == old(self).space@
                && final(self).keyboard_focus == old(self).keyboard_focus,
            old(self).output matches Some(o) ==> holds(old(self).space@, Window::X11(id)) ==> {
                let cover = Rect { loc: Point { x: 0, y: 0 }, size: o };
                if geometry == cover {
                    r == FullscreenAction::MarkOnly && final(self).space@ == old(self).space@
                        && final(self).keyboard_focus == old(self).keyboard_focus
                } else {
                    &&& r == FullscreenAction::Cover(cover)
                    &&& final(self).space@.last() == (SpaceEntry {
                        window: Window::X11(id),
                        loc: cover.loc,
                        size: o,
                    })
                    &&& final(self).keyboard_focus == Some(FocusTarget::X11(id))
                }
            },
    {
        let o = match self.output {
            None => return FullscreenAction::Ignore,
            Some(o) => o,
        };
        let win = Window::X11(id);
        if self.space.position(win).is_none() {
            return FullscreenAction::Ignore;
        }
        let cover = Rect { loc: Point { x: 0, y: 0 }, size: o };
        if geometry == cover {
            return FullscreenAction::MarkOnly;
        }
        self.space.map_element(win, cover.loc, o, true);
        self.keyboard_focus = Some(FocusTarget::X11(id));
        proof {
            self.lemma_space_change_keeps_wf(*old(self), win);
        }
        FullscreenAction::Cover(cover)
    }
}

/// Windows whose type is neither normal, utility nor splash (nor unset)
/// are shown at the geometry they asked for; a splash keeps its size and is
/// centered; neither is made fullscreen.
pub proof fn lemma_unplaced_and_splash_keep_geometry(output: Option<Size>, w: X11Window)
    ensures
        !is_placed_type(w.window_type) ==> placement_spec(output, w) == (X11Placement {
            geometry: w.geometry,
            fullscreen: false,
        }),
        w.window_type == Some(WmWindowType::Splash) ==> placement_spec(output, w).geometry.size
            == w.geometry.size && !placement_spec(output, w).fullscreen,
{
}

} // verus!
