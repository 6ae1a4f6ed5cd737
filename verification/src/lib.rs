//! Verified core of a full-screen terminal media dashboard.
//!
//! The crate holds the pure logic of the dashboard: playback state and its
//! transitions, duration formatting, frame layout, key handling, and the
//! terminal control sequences that paint a frame.  Every frame is computed
//! here as a `String` of control sequences and text; the surrounding binary
//! only writes it to the device and sleeps between ticks.

pub mod app;
pub mod keys;
pub mod state;
pub mod terminal;
pub mod text;
