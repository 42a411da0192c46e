use vstd::prelude::*;

verus! {

/// A window of the space: a native toplevel or a window of the X11 layer,
/// each named by its surface.
#[derive(Clone, Copy, Debug, PartialEq, Eq, Structural)]
pub enum Window {
    Wayland(u64),
    X11(u64),
}

/// What keyboard and pointer input is addressed to.
#[derive(Clone, Copy, Debug, PartialEq, Eq, Structural)]
pub enum FocusTarget {
    Wayland(u64),
    X11(u64),
    Popup(u64),
}

impl Window {
    pub open spec fn surface_spec(self) -> u64 {
        match self {
            Window::Wayland(s) => s,
            Window::X11(s) => s,
        }
    }

    pub fn surface(&self) -> (r: u64)
        ensures
            r == self.surface_spec(),
    {
        match self {
            Window::Wayland(s) => *s,
            Window::X11(s) => *s,
        }
    }

    /// Whether a commit of the window's surface must run the native window's
    /// own commit bookkeeping: only native windows have it.
    pub fn on_commit(&self) -> (r: bool)
        ensures
            r == (self is Wayland),
    {
        match self {
            Window::Wayland(_) => true,
            Window::X11(_) => false,
        }
    }
}

pub open spec fn focus_of(w: Window) -> FocusTarget {
    match w {
        Window::Wayland(s) => FocusTarget::Wayland(s),
        Window::X11(s) => FocusTarget::X11(s),
    }
}

impl FocusTarget {
    pub open spec fn wl_surface_spec(self) -> u64 {
        match self {
            FocusTarget::Wayland(s) => s,
            FocusTarget::X11(s) => s,
            FocusTarget::Popup(s) => s,
        }
    }

    pub fn from_window(w: Window) -> (r: FocusTarget)
        ensures
            r == focus_of(w),
    {
        match w {
            Window::Wayland(s) => FocusTarget::Wayland(s),
            Window::X11(s) => FocusTarget::X11(s),
        }
    }

    /// The surface that input for this target goes to.
    pub fn wl_surface(&self) -> (r: u64)
        ensures
            r == self.wl_surface_spec(),
    {
        match self {
            FocusTarget::Wayland(s) => *s,
            FocusTarget::X11(s) => *s,
            FocusTarget::Popup(s) => *s,
        }
    }
}

} // verus!
