//! Window chrome logic for a single native application window: the initial
//! size and placement computed from the screen, the per-window registry of
//! "reposition owed" flags, and the state machines that decide when the
//! window-control buttons are hidden, moved and shown again.
pub mod debounce;
pub mod geometry;
pub mod registry;
pub mod resize;
