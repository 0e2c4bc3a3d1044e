//! The bridge between a GUI drawing area and a terminal emulator: the events
//! that input callbacks deposit, the widget's realize/unrealize lifecycle and
//! the per-frame cycle that turns queued events into work for the terminal,
//! the PTY and the display.
//!
//! The toolkit, the input method, the terminal engine and the renderer are
//! collaborators of the embedding program. This library decides; the embedder
//! performs what is decided and reports back plain values.

pub mod event;
pub mod encode;
pub mod text;
pub mod widget;
pub mod frame;
pub mod laws;
