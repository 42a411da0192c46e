//! The decision logic of a headless Wayland compositor that renders its
//! clients into a video stream: window placement, initial-configure
//! sequencing, input routing with pointer constraints, X11 window placement,
//! frame pacing, and the legacy buffer-sharing protocol's request checks.
pub mod geometry;
pub mod region;
pub mod constraints;
pub mod window;
pub mod space;
pub mod state;
pub mod input;
pub mod shell;
pub mod xwm;
pub mod engine;
pub mod drm;
pub mod log;
pub mod target;
pub mod cache;
