//! The dashboard itself: the frame the render loop paints each tick, the
//! effect of the drained key events, and the pacing of the loop.
//!
//! Every function here is pure: a frame is returned as the string of
//! control sequences and text that one repaint writes, and the key handler
//! folds a drained batch of events over the state.  The binary around the
//! library owns the device, the input relay and the clock.

use crate::keys::{is_quit, is_toggle, KeyEvent};
use crate::state::{progress_scaled_spec, AppState};
use crate::terminal::{
    bg_reset_seq, bg_seq, clear_all_seq, fg_reset_seq, fg_seq, goto_seq, hide_seq, show_seq,
    Position, Rgb, Size, Terminal,
};
use crate::text::{duration_spec, get_duration_string, lemma_duration_ascii, repeat_seq, repeat_str};
use vstd::prelude::*;
use vstd::utf8::{is_ascii_chars, is_ascii_chars_concat, is_ascii_chars_encode_utf8};

verus! {

/// The nominal tick: one repaint every hundred milliseconds.
pub const TICK_MS: u64 = 100;

/// The background of the two side panes, and the title text color.
pub open spec fn side_pane_color() -> Rgb {
    Rgb { r: 18, g: 18, b: 20 }
}

/// The background of the center pane.
pub open spec fn center_pane_color() -> Rgb {
    Rgb { r: 38, g: 38, b: 40 }
}

/// The background of the status bar and the player row.
pub open spec fn status_bar_color() -> Rgb {
    Rgb { r: 48, g: 48, b: 50 }
}

/// The background of the title bar.
pub open spec fn title_bar_color() -> Rgb {
    Rgb { r: 30, g: 215, b: 96 }
}

/// The color of the played part of the progress bar and of its text.
pub open spec fn played_color() -> Rgb {
    Rgb { r: 210, g: 210, b: 212 }
}

/// The muted color of the unplayed remainder of the progress bar.
pub open spec fn unplayed_color() -> Rgb {
    Rgb { r: 130, g: 130, b: 132 }
}

/// The playing/paused marker at the left of the player row; both forms are
/// eleven characters wide.
pub open spec fn playing_msg_spec(playing: bool) -> Seq<char> {
    if playing {
        " [playing] "@
    } else {
        " [paused]  "@
    }
}

/// The filled part of the progress bar: `filled` cells of fill characters,
/// with a single leading-edge marker in place of the last one when the bar
/// is neither empty nor full.
pub open spec fn bar_fill_spec(filled: int, total: int) -> Seq<char> {
    if filled <= 0 {
        Seq::empty()
    } else if filled == total {
        repeat_seq("="@, filled as nat)
    } else {
        repeat_seq("="@, (filled - 1) as nat) + ">"@
    }
}

/// The player row: the playing/paused marker padded to a third of the
/// width, the elapsed time, the progress bar with its filled width at
/// `floor(bar width x progress fraction)`, and the total time.
pub open spec fn player_row_spec(s: AppState, width: int) -> Seq<char> {
    let left_width = width / 3;
    let right_width = width - left_width;
    let row_left = playing_msg_spec(s.playing) + repeat_seq(" "@, (left_width - 11) as nat);
    let progress_str = " "@ + duration_spec((s.song_progress_ms / 1000) as nat) + " "@;
    let length_str = " "@ + duration_spec((s.song_length_ms / 1000) as nat) + " "@;
    let bar_total = right_width - progress_str.len() - length_str.len();
    let filled = progress_scaled_spec(s, bar_total);
    fg_seq(played_color()) + row_left + progress_str + bar_fill_spec(filled, bar_total) + fg_seq(
        unplayed_color(),
    ) + repeat_seq("-"@, (bar_total - filled) as nat) + fg_seq(played_color()) + length_str
}

/// Whether the player row fits in `width` columns: a third of the width
/// holds the eleven-character marker, and the rest holds the two time
/// fields, each padded by one space on both sides.
pub open spec fn player_row_fits(s: AppState, width: int) -> bool {
    &&& width / 3 >= 11
    &&& width - width / 3 >= duration_spec((s.song_progress_ms / 1000) as nat).len() + duration_spec(
        (s.song_length_ms / 1000) as nat,
    ).len() + 4
}

/// The title bar: the dashboard name at the left, the quit hint at the
/// right, padding between, over the title background.
pub open spec fn title_row_spec(width: int) -> Seq<char> {
    bg_seq(title_bar_color()) + fg_seq(side_pane_color()) + "spotify-terminal"@ + repeat_seq(
        " "@,
        (width - 30) as nat,
    ) + "ctrl-q to quit"@ + "\r\n"@
}

/// One body row: a side pane of three tenths of the width on either side
/// of the center pane, each pane drawn as spaces over its background.
pub open spec fn body_row_spec(width: int) -> Seq<char> {
    let side = 3 * width / 10;
    let center = width - 2 * side;
    bg_seq(side_pane_color()) + repeat_seq(" "@, side as nat) + bg_seq(center_pane_color())
        + repeat_seq(" "@, center as nat) + bg_seq(side_pane_color()) + repeat_seq(
        " "@,
        side as nat,
    ) + "\r\n"@
}

/// `n` body rows.
pub open spec fn body_rows_spec(width: int, n: nat) -> Seq<char>
    decreases n,
{
    if n == 0 {
        Seq::empty()
    } else {
        body_rows_spec(width, (n - 1) as nat) + body_row_spec(width)
    }
}

/// The blank status row over its own background.
pub open spec fn status_row_spec(width: int) -> Seq<char> {
    bg_seq(status_bar_color()) + repeat_seq(" "@, width as nat) + "\r\n"@
}

/// The whole dashboard frame, exactly as many lines as the screen is
/// high: the title bar, a body of the height minus the three rows
/// reserved for the title, status and player rows, the status row, and
/// the player row, which ends the frame without a line break.
pub open spec fn frame_spec(s: AppState, width: int, height: int) -> Seq<char> {
    let n_body: nat = if height >= 3 {
        (height - 3) as nat
    } else {
        0
    };
    title_row_spec(width) + body_rows_spec(width, n_body) + status_row_spec(width)
        + player_row_spec(s, width)
}

/// Whether a frame fits the captured dimensions: the title bar holds its
/// thirty characters of text, three rows are left for the bars, and the
/// player row fits.
pub open spec fn frame_fits(s: AppState, size: Size) -> bool {
    &&& size.width >= 30
    &&& size.height >= 3
    &&& player_row_fits(s, size.width as int)
}

/// What a repaint of the quitting dashboard writes after the cursor is
/// parked and hidden: the screen is erased and the cursor restored, and
/// nothing of the dashboard body is drawn.
pub open spec fn teardown_spec() -> Seq<char> {
    clear_all_seq() + show_seq()
}

/// The whole output of one repaint: park and hide the cursor, then either
/// the dashboard frame or, once quit was requested, the teardown, and
/// finally both color resets, so no styling leaks into the host shell.
pub open spec fn refresh_spec(a: App) -> Seq<char> {
    goto_seq(1, 1) + hide_seq() + (if a.quit_requested {
        teardown_spec()
    } else {
        frame_spec(a.state, a.size.width as int, a.size.height as int)
    }) + fg_reset_seq() + bg_reset_seq()
}

/// The state after a drained batch of key events is applied in arrival
/// order: the quit combination records the quit request and ends the
/// batch, space flips playback, every other key is ignored, and once the
/// quit request stands no further input is applied.
pub open spec fn apply_keys_spec(a: App, keys: Seq<KeyEvent>) -> App
    decreases keys.len(),
{
    if a.quit_requested || keys.len() == 0 {
        a
    } else if is_quit(keys[0]) {
        App { quit_requested: true, ..a }
    } else if is_toggle(keys[0]) {
        apply_keys_spec(
            App { state: AppState { playing: !a.state.playing, ..a.state }, ..a },
            keys.skip(1),
        )
    } else {
        apply_keys_spec(a, keys.skip(1))
    }
}

/// The dashboard: the quit flag, the dimensions captured at session start,
/// and the playback state.
pub struct App {
    pub quit_requested: bool,
    pub size: Size,
    pub state: AppState,
}

impl App {
    /// A fresh dashboard over a device of the given dimensions: not
    /// quitting, paused at the start of the default song.
    pub fn new(size: Size) -> (a: App)
        ensures
            !a.quit_requested,
            a.size == size,
            a.state == (AppState { playing: false, song_length_ms: 30000, song_progress_ms: 0 }),
            a.state.wf(),
    {
        App { quit_requested: false, size, state: AppState::default() }
    }

    /// Whether a frame fits the captured dimensions, decided at run time,
    /// so the loop can refuse a too-small terminal before it repaints.
    pub fn fits(&self) -> (b: bool)
        requires
            self.state.wf(),
        ensures
            b == frame_fits(self.state, self.size),
    {
        if self.size.width < 30 || self.size.height < 3 {
            return false;
        }
        let width = self.size.width as usize;
        if width / 3 < 11 {
            return false;
        }
        let ds = get_duration_string(self.state.song_progress_ms);
        let ls = get_duration_string(self.state.song_length_ms);
        proof {
            lemma_duration_ascii((self.state.song_progress_ms / 1000) as nat);
            lemma_duration_ascii((self.state.song_length_ms / 1000) as nat);
            crate::text::lemma_duration_len_le((self.state.song_progress_ms / 1000) as nat);
            crate::text::lemma_duration_len_le((self.state.song_length_ms / 1000) as nat);
            is_ascii_chars_encode_utf8(ds@);
            is_ascii_chars_encode_utf8(ls@);
        }
        let right_width = width - width / 3;
        if right_width < 4 {
            return false;
        }
        let avail = right_width - 4;
        let ds_len = ds.as_str().len();
        let ls_len = ls.as_str().len();
        proof {
            assert(ds_len == ds@.len());
            assert(ls_len == ls@.len());
        }
        if ds_len > avail {
            return false;
        }
        ls_len <= avail - ds_len
    }

    /// The player row for a terminal of `width` columns.
    pub fn get_player_string(&self, width: usize) -> (r: String)
        requires
            self.state.wf(),
            player_row_fits(self.state, width as int),
        ensures
            r@ == player_row_spec(self.state, width as int),
    {
        let left_width = width / 3;
        let right_width = width - left_width;

        let playing_msg: &'static str = if self.state.playing {
            " [playing] "
        } else {
            " [paused]  "
        };
        proof {
            reveal_strlit(" [playing] ");
            reveal_strlit(" [paused]  ");
            reveal_strlit(" ");
            assert(playing_msg@.len() == 11);
            assert(is_ascii_chars(playing_msg@));
            is_ascii_chars_encode_utf8(playing_msg@);
        }
        let mut row_left = playing_msg.to_owned();
        let fill = repeat_str(" ", left_width - playing_msg.len());
        row_left.append(fill.as_str());

        let mut progress_str = " ".to_owned();
        let ds = get_duration_string(self.state.song_progress_ms);
        progress_str.append(ds.as_str());
        progress_str.append(" ");

        let mut length_str = " ".to_owned();
        let ls = get_duration_string(self.state.song_length_ms);
        length_str.append(ls.as_str());
        length_str.append(" ");

        proof {
            let pdur = duration_spec((self.state.song_progress_ms / 1000) as nat);
            let ldur = duration_spec((self.state.song_length_ms / 1000) as nat);
            lemma_duration_ascii((self.state.song_progress_ms / 1000) as nat);
            lemma_duration_ascii((self.state.song_length_ms / 1000) as nat);
            assert(is_ascii_chars(" "@));
            is_ascii_chars_concat(" "@ + pdur, " "@, pdur);
            is_ascii_chars_concat(progress_str@, " "@ + pdur, " "@);
            is_ascii_chars_concat(" "@ + ldur, " "@, ldur);
            is_ascii_chars_concat(length_str@, " "@ + ldur, " "@);
            is_ascii_chars_encode_utf8(progress_str@);
            is_ascii_chars_encode_utf8(length_str@);
            assert(progress_str@.len() == pdur.len() + 2);
            assert(length_str@.len() == ldur.len() + 2);
        }
        let bar_total_width = right_width - progress_str.as_str().len() - length_str.as_str().len();
        let filled64 = self.state.progress_scaled(bar_total_width as u64);
        let bar_progress_width = filled64 as usize;
        let bar_remainder_width = bar_total_width - bar_progress_width;

        let bar: String = if bar_progress_width == 0 {
            String::new()
        } else if bar_progress_width == bar_total_width {
            repeat_str("=", bar_progress_width)
        } else {
            let mut b = repeat_str("=", bar_progress_width - 1);
            b.append(">");
            b
        };
        let remainder = repeat_str("-", bar_remainder_width);

        let mut out = Terminal::set_fg_color(Rgb { r: 210, g: 210, b: 212 });
        out.append(row_left.as_str());
        out.append(progress_str.as_str());
        out.append(bar.as_str());
        let fg_muted = Terminal::set_fg_color(Rgb { r: 130, g: 130, b: 132 });
        out.append(fg_muted.as_str());
        out.append(remainder.as_str());
        let fg_back = Terminal::set_fg_color(Rgb { r: 210, g: 210, b: 212 });
        out.append(fg_back.as_str());
        out.append(length_str.as_str());
        proof {
            assert(out@ =~= player_row_spec(self.state, width as int));
        }
        out
    }

    /// The dashboard frame for the captured dimensions.
    #[verifier::loop_isolation(false)]
    #[verifier::rlimit(100)]
    pub fn render(&self) -> (r: String)
        requires
            self.state.wf(),
            frame_fits(self.state, self.size),
        ensures
            r@ == frame_spec(self.state, self.size.width as int, self.size.height as int),
    {
        let width = self.size.width as usize;
        let height = self.size.height as usize;

        let side_pane_width = 3 * width / 10;
        let center_pane_width = width - 2 * side_pane_width;
        let n_body = if height >= 3 {
            height - 3
        } else {
            0
        };

        proof {
            reveal_strlit("spotify-terminal");
            reveal_strlit("ctrl-q to quit");
        }
        let mut out = Terminal::set_bg_color(Rgb { r: 30, g: 215, b: 96 });
        let fg_title = Terminal::set_fg_color(Rgb { r: 18, g: 18, b: 20 });
        out.append(fg_title.as_str());
        out.append("spotify-terminal");
        let padding = repeat_str(" ", width - 30);
        out.append(padding.as_str());
        out.append("ctrl-q to quit");
        out.append("\r\n");
        proof {
            assert(out@ =~= title_row_spec(width as int));
        }

        let side_pane_row = repeat_str(" ", side_pane_width);
        let center_pane_row = repeat_str(" ", center_pane_width);

        let mut j: usize = 0;
        while j < n_body
            invariant
                j <= n_body,
                out@ == title_row_spec(width as int) + body_rows_spec(width as int, j as nat),
            decreases n_body - j,
        {
            let bg_side = Terminal::set_bg_color(Rgb { r: 18, g: 18, b: 20 });
            out.append(bg_side.as_str());
            out.append(side_pane_row.as_str());
            let bg_center = Terminal::set_bg_color(Rgb { r: 38, g: 38, b: 40 });
            out.append(bg_center.as_str());
            out.append(center_pane_row.as_str());
            let bg_side_again = Terminal::set_bg_color(Rgb { r: 18, g: 18, b: 20 });
            out.append(bg_side_again.as_str());
            out.append(side_pane_row.as_str());
            out.append("\r\n");
            j = j + 1;
            proof {
                assert(out@ =~= title_row_spec(width as int) + body_rows_spec(
                    width as int,
                    j as nat,
                ));
            }
        }

        let ghost w = self.size.width as int;
        let ghost n_b: nat = if self.size.height as int >= 3 {
            (self.size.height as int - 3) as nat
        } else {
            0
        };
        proof {
            assert(out@ == title_row_spec(w) + body_rows_spec(w, n_b));
        }

        let bg_status = Terminal::set_bg_color(Rgb { r: 48, g: 48, b: 50 });
        out.append(bg_status.as_str());
        let blank_row = repeat_str(" ", width);
        out.append(blank_row.as_str());
        out.append("\r\n");
        proof {
            assert(out@ =~= title_row_spec(w) + body_rows_spec(w, n_b) + status_row_spec(w));
        }

        let player_str = self.get_player_string(width);
        out.append(player_str.as_str());
        proof {
            assert(out@ =~= title_row_spec(w) + body_rows_spec(w, n_b) + status_row_spec(w)
                + player_row_spec(self.state, w));
            assert(out@ == frame_spec(self.state, w, self.size.height as int));
        }
        out
    }

    /// The whole output of one repaint.  Once quit was requested it holds
    /// the teardown in place of the dashboard body, so the screen is left
    /// cleared, the cursor visible and the colors reset.
    pub fn refresh_screen(&self) -> (r: String)
        requires
            self.state.wf(),
            !self.quit_requested ==> frame_fits(self.state, self.size),
        ensures
            r@ == refresh_spec(*self),
            self.quit_requested ==> r@ == goto_seq(1, 1) + hide_seq() + clear_all_seq()
                + show_seq() + fg_reset_seq() + bg_reset_seq(),
    {
        let mut out = Terminal::cursor_position(&Position::default());
        let hide = Terminal::cursor_hide();
        out.append(hide.as_str());

        if self.quit_requested {
            let clear = Terminal::clear_screen();
            out.append(clear.as_str());
            let show = Terminal::cursor_show();
            out.append(show.as_str());
        } else {
            let frame = self.render();
            out.append(frame.as_str());
        }

        let reset_fg = Terminal::reset_fg_color();
        out.append(reset_fg.as_str());
        let reset_bg = Terminal::reset_bg_color();
        out.append(reset_bg.as_str());
        proof {
            assert(out@ =~= refresh_spec(*self));
        }
        out
    }

    /// Applies a drained batch of key events in arrival order: quit records
    /// the quit request and ends the batch, space toggles playback, other
    /// keys are ignored; with the quit request already standing, nothing is
    /// applied.
    pub fn handle_keys(&mut self, keys: &Vec<KeyEvent>)
        ensures
            *final(self) == apply_keys_spec(*old(self), keys@),
    {
        let n = keys.len();
        let mut i: usize = 0;
        proof {
            assert(keys@.skip(0) =~= keys@);
        }
        while i < n && !self.quit_requested
            invariant
                i <= n,
                n == keys@.len(),
                apply_keys_spec(*old(self), keys@) == apply_keys_spec(
                    *self,
                    keys@.skip(i as int),
                ),
            decreases n - i,
        {
            let k = keys[i];
            match k {
                KeyEvent::Ctrl(c) => {
                    if c == 'q' {
                        self.quit_requested = true;
                    }
                },
                KeyEvent::Char(c) => {
                    if c == ' ' {
                        self.state.toggle_playing();
                    }
                },
                KeyEvent::Other => {},
            }
            proof {
                assert(keys@.skip(i as int)[0] == keys@[i as int]);
                assert(keys@.skip(i as int).skip(1) =~= keys@.skip(i as int + 1));
            }
            i = i + 1;
        }
        proof {
            if !self.quit_requested {
                assert(keys@.skip(n as int) =~= Seq::<KeyEvent>::empty());
            }
        }
    }
}

/// The screen-restoring output that the binary writes right before it
/// aborts on a fatal error: the erase-screen sequence, so the crash does
/// not leave a torn frame behind.
pub fn die() -> (r: String)
    ensures
        r@ == clear_all_seq(),
{
    Terminal::clear_screen()
}

/// How long the loop sleeps at the end of a tick to hold the frame rate:
/// the nominal tick minus the time the tick took, floored at zero so a
/// slow frame never underflows the wait.
pub fn tick_sleep_millis(nominal_ms: u64, elapsed_ms: u64) -> (r: u64)
    ensures
        elapsed_ms >= nominal_ms ==> r == 0,
        elapsed_ms < nominal_ms ==> r == nominal_ms - elapsed_ms,
{
    if elapsed_ms >= nominal_ms {
        0
    } else {
        nominal_ms - elapsed_ms
    }
}

} // verus!

