//! Terminal control sequences and the session's captured dimensions.
//!
//! Every primitive returns the control sequence it stands for as a string;
//! the surrounding binary owns the device, writes the strings out and
//! flushes them once per tick.  The contracts state each sequence exactly,
//! over the decimal rendering of [`crate::text::dec_spec`].

use crate::text::dec_spec;
use vstd::prelude::*;

verus! {

/// The terminal dimensions, captured once when the session starts.
#[derive(Clone, Copy, Debug, PartialEq, Eq, Structural)]
pub struct Size {
    pub width: u16,
    pub height: u16,
}

/// A cursor position, zero-based in this public interface; the positioning
/// primitive converts to the device's one-based addressing.
#[derive(Clone, Copy, Debug, PartialEq, Eq, Structural)]
pub struct Position {
    pub x: usize,
    pub y: usize,
}

impl Default for Position {
    /// The origin: the top-left cell.
    fn default() -> (p: Position)
        ensures
            p.x == 0,
            p.y == 0,
    {
        Position { x: 0, y: 0 }
    }
}

/// A true-color value; foreground and background are set independently.
#[derive(Clone, Copy, Debug, PartialEq, Eq, Structural)]
pub struct Rgb {
    pub r: u8,
    pub g: u8,
    pub b: u8,
}

/// The erase-screen sequence.
pub open spec fn clear_all_seq() -> Seq<char> {
    "\x1b[2J"@
}

/// The erase-current-line sequence.
pub open spec fn clear_line_seq() -> Seq<char> {
    "\x1b[2K"@
}

/// The hide-cursor sequence.
pub open spec fn hide_seq() -> Seq<char> {
    "\x1b[?25l"@
}

/// The show-cursor sequence.
pub open spec fn show_seq() -> Seq<char> {
    "\x1b[?25h"@
}

/// The cursor-addressing sequence for one-based device coordinates: the
/// row comes first.
pub open spec fn goto_seq(x: u16, y: u16) -> Seq<char> {
    "\x1b["@ + dec_spec(y as nat) + ";"@ + dec_spec(x as nat) + "H"@
}

/// The true-color foreground sequence.
pub open spec fn fg_seq(c: Rgb) -> Seq<char> {
    "\x1b[38;2;"@ + dec_spec(c.r as nat) + ";"@ + dec_spec(c.g as nat) + ";"@ + dec_spec(
        c.b as nat,
    ) + "m"@
}

/// The true-color background sequence.
pub open spec fn bg_seq(c: Rgb) -> Seq<char> {
    "\x1b[48;2;"@ + dec_spec(c.r as nat) + ";"@ + dec_spec(c.g as nat) + ";"@ + dec_spec(
        c.b as nat,
    ) + "m"@
}

/// The reset-foreground sequence.
pub open spec fn fg_reset_seq() -> Seq<char> {
    "\x1b[39m"@
}

/// The reset-background sequence.
pub open spec fn bg_reset_seq() -> Seq<char> {
    "\x1b[49m"@
}

/// A zero-based coordinate shifted to the device's one-based addressing,
/// saturating at the largest device coordinate instead of overflowing.
pub open spec fn sat_one_based(n: int) -> u16 {
    if n >= 65535 {
        65535u16
    } else {
        (n + 1) as u16
    }
}

/// Relies on termion::cursor::Goto: it writes `ESC [`, the row, `;`, the
/// column, `H`, both in decimal.  Termion's addressing is one-based, so
/// zero coordinates are left out.
#[verifier::external_body]
fn tm_goto(x: u16, y: u16) -> (r: String)
    requires
        x >= 1,
        y >= 1,
    ensures
        r@ == goto_seq(x, y),
{
    format!("{}", termion::cursor::Goto(x, y))
}

/// The session: it records the dimensions captured at construction.  The
/// control primitives stand on the type itself, as plain sequence
/// builders.
pub struct Terminal {
    pub size: Size,
}

impl Terminal {
    /// A session over a device of the given dimensions.
    pub fn new(size: Size) -> (t: Terminal)
        ensures
            t.size == size,
    {
        Terminal { size }
    }

    /// The dimensions captured at construction; pure.
    pub fn size(&self) -> (s: Size)
        ensures
            s == self.size,
    {
        self.size
    }

    /// Relies on termion::clear::All: the sequence is `ESC [ 2 J`.
    #[verifier::external_body]
    pub fn clear_screen() -> (r: String)
        ensures
            r@ == clear_all_seq(),
    {
        format!("{}", termion::clear::All)
    }

    /// Relies on termion::clear::CurrentLine: the sequence is `ESC [ 2 K`.
    #[verifier::external_body]
    pub fn clear_current_line() -> (r: String)
        ensures
            r@ == clear_line_seq(),
    {
        format!("{}", termion::clear::CurrentLine)
    }

    /// Relies on termion::cursor::Hide: the sequence is `ESC [ ? 2 5 l`.
    #[verifier::external_body]
    pub fn cursor_hide() -> (r: String)
        ensures
            r@ == hide_seq(),
    {
        format!("{}", termion::cursor::Hide)
    }

    /// Relies on termion::cursor::Show: the sequence is `ESC [ ? 2 5 h`.
    #[verifier::external_body]
    pub fn cursor_show() -> (r: String)
        ensures
            r@ == show_seq(),
    {
        format!("{}", termion::cursor::Show)
    }

    /// The addressing sequence for `pos`, after the saturating shift to
    /// one-based device coordinates.
    pub fn cursor_position(pos: &Position) -> (r: String)
        ensures
            r@ == goto_seq(sat_one_based(pos.x as int), sat_one_based(pos.y as int)),
    {
        let x: u16 = if pos.x >= 65535 {
            65535
        } else {
            (pos.x + 1) as u16
        };
        let y: u16 = if pos.y >= 65535 {
            65535
        } else {
            (pos.y + 1) as u16
        };
        tm_goto(x, y)
    }

    /// Relies on termion::color::Rgb::fg_string: it writes `ESC [ 3 8 ; 2 ;`
    /// and the three channels in decimal, separated by `;`, then `m`.
    #[verifier::external_body]
    pub fn set_fg_color(c: Rgb) -> (r: String)
        ensures
            r@ == fg_seq(c),
    {
        termion::color::Rgb(c.r, c.g, c.b).fg_string()
    }

    /// Relies on termion::color::Rgb::bg_string: it writes `ESC [ 4 8 ; 2 ;`
    /// and the three channels in decimal, separated by `;`, then `m`.
    #[verifier::external_body]
    pub fn set_bg_color(c: Rgb) -> (r: String)
        ensures
            r@ == bg_seq(c),
    {
        termion::color::Rgb(c.r, c.g, c.b).bg_string()
    }

    /// Relies on termion::color::Reset as a foreground: the sequence is
    /// `ESC [ 3 9 m`.
    #[verifier::external_body]
    pub fn reset_fg_color() -> (r: String)
        ensures
            r@ == fg_reset_seq(),
    {
        format!("{}", termion::color::Fg(termion::color::Reset))
    }

    /// Relies on termion::color::Reset as a background: the sequence is
    /// `ESC [ 4 9 m`.
    #[verifier::external_body]
    pub fn reset_bg_color() -> (r: String)
        ensures
            r@ == bg_reset_seq(),
    {
        format!("{}", termion::color::Bg(termion::color::Reset))
    }
}

/// Cursor visibility after the hide sequence is interpreted: hidden, no
/// matter what it was before.
pub open spec fn hide_applied(visible: bool) -> bool {
    false
}

/// Screen content after the erase-screen sequence is interpreted: every
/// row is empty, and the row count is unchanged.
pub open spec fn clear_applied(rows: Seq<Seq<char>>) -> Seq<Seq<char>> {
    Seq::new(rows.len(), |i: int| Seq::empty())
}

/// Hiding the cursor is idempotent: a second hide leaves the visibility
/// exactly where one hide put it.
pub proof fn lemma_cursor_hide_idempotent(visible: bool)
    ensures
        hide_applied(hide_applied(visible)) == hide_applied(visible),
{
}

/// Erasing the screen is idempotent: a second erase leaves the content
/// exactly where one erase put it.
pub proof fn lemma_clear_screen_idempotent(rows: Seq<Seq<char>>)
    ensures
        clear_applied(clear_applied(rows)) == clear_applied(rows),
{
    assert(clear_applied(clear_applied(rows)) =~~= clear_applied(rows));
}

} // verus!
