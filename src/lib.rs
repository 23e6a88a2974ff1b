//! Window-manipulation protocol core of a small Wayland compositor.
//!
//! The library keeps its own model of what the handlers read and change (the
//! arrangement of windows, each surface's pending state, a seat's pointer grab)
//! and decides, for every request, how that model changes and which messages the
//! compositor has to send. Talking to clients and spawning processes is left to
//! the caller.
pub mod grab;
pub mod keybindings;
pub mod space;
pub mod xdg_shell;
