//! Key events as the dashboard core interprets them.
//!
//! The input layer decodes raw bytes into key values; the core only tells
//! apart the quit combination (control-q), the space character that toggles
//! playback, and everything else.

use vstd::prelude::*;

verus! {

/// A decoded key event.  Printable characters arrive as `Char`, control
/// combinations as `Ctrl`; every other named key is `Other`, which the core
/// ignores.
#[derive(Clone, Copy, Debug, PartialEq, Eq, Structural)]
pub enum KeyEvent {
    Char(char),
    Ctrl(char),
    Other,
}

/// Whether `k` is the reserved quit combination, control-q.
pub open spec fn is_quit(k: KeyEvent) -> bool {
    k == KeyEvent::Ctrl('q')
}

/// Whether `k` is the space character, which toggles playback.
pub open spec fn is_toggle(k: KeyEvent) -> bool {
    k == KeyEvent::Char(' ')
}

/// The reserved quit combination, fixed at build time.
pub fn quit_key() -> (k: KeyEvent)
    ensures
        is_quit(k),
{
    KeyEvent::Ctrl('q')
}

/// Tests a key against the quit combination; the input relay stops reading
/// once this holds of a key it has forwarded.
pub fn is_quit_key(k: &KeyEvent) -> (b: bool)
    ensures
        b == is_quit(*k),
{
    match k {
        KeyEvent::Ctrl(c) => *c == 'q',
        _ => false,
    }
}

} // verus!
