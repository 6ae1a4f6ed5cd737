use spotify_terminal::app::{die, tick_sleep_millis, App, TICK_MS};
use spotify_terminal::keys::{is_quit_key, quit_key, KeyEvent};
use spotify_terminal::terminal::{Position, Rgb, Size, Terminal};

fn bg(r: u8, g: u8, b: u8) -> String {
    termion::color::Rgb(r, g, b).bg_string()
}

fn fg(r: u8, g: u8, b: u8) -> String {
    termion::color::Rgb(r, g, b).fg_string()
}

#[test]
fn wrappers_match_termion() {
    assert_eq!(Terminal::clear_screen(), format!("{}", termion::clear::All));
    assert_eq!(
        Terminal::clear_current_line(),
        format!("{}", termion::clear::CurrentLine)
    );
    assert_eq!(Terminal::cursor_hide(), format!("{}", termion::cursor::Hide));
    assert_eq!(Terminal::cursor_show(), format!("{}", termion::cursor::Show));
    assert_eq!(
        Terminal::set_fg_color(Rgb { r: 210, g: 210, b: 212 }),
        fg(210, 210, 212)
    );
    assert_eq!(
        Terminal::set_bg_color(Rgb { r: 30, g: 215, b: 96 }),
        bg(30, 215, 96)
    );
    assert_eq!(
        Terminal::reset_fg_color(),
        format!("{}", termion::color::Fg(termion::color::Reset))
    );
    assert_eq!(
        Terminal::reset_bg_color(),
        format!("{}", termion::color::Bg(termion::color::Reset))
    );
}

#[test]
fn wrapper_sequences_exact() {
    assert_eq!(Terminal::clear_screen(), "\x1b[2J");
    assert_eq!(Terminal::clear_current_line(), "\x1b[2K");
    assert_eq!(Terminal::cursor_hide(), "\x1b[?25l");
    assert_eq!(Terminal::cursor_show(), "\x1b[?25h");
    assert_eq!(Terminal::reset_fg_color(), "\x1b[39m");
    assert_eq!(Terminal::reset_bg_color(), "\x1b[49m");
    assert_eq!(Terminal::set_fg_color(Rgb { r: 1, g: 22, b: 133 }), "\x1b[38;2;1;22;133m");
    assert_eq!(Terminal::set_bg_color(Rgb { r: 0, g: 255, b: 7 }), "\x1b[48;2;0;255;7m");
}

#[test]
fn cursor_position_is_one_based() {
    assert_eq!(
        Terminal::cursor_position(&Position { x: 0, y: 0 }),
        format!("{}", termion::cursor::Goto(1, 1))
    );
    assert_eq!(
        Terminal::cursor_position(&Position { x: 5, y: 10 }),
        format!("{}", termion::cursor::Goto(6, 11))
    );
}

#[test]
fn cursor_position_saturates() {
    // A coordinate at or beyond the device limit saturates instead of
    // overflowing.
    assert_eq!(
        Terminal::cursor_position(&Position { x: usize::MAX, y: 65534 }),
        format!("{}", termion::cursor::Goto(65535, 65535))
    );
}

#[test]
fn clear_and_hide_are_stable() {
    // The erase and hide primitives emit the same sequence every time, so
    // repeating them repeats an identical, idempotent command.
    assert_eq!(Terminal::clear_screen(), Terminal::clear_screen());
    assert_eq!(Terminal::cursor_hide(), Terminal::cursor_hide());
}

#[test]
fn quit_key_is_ctrl_q() {
    let q = quit_key();
    assert_eq!(q, KeyEvent::Ctrl('q'));
    assert!(is_quit_key(&q));
    assert!(!is_quit_key(&KeyEvent::Char('q')));
    assert!(!is_quit_key(&KeyEvent::Char(' ')));
    assert!(!is_quit_key(&KeyEvent::Other));
}

#[test]
fn keys_applied_in_arrival_order() {
    // Two ignored keys ahead of the quit key are consumed first, and the
    // quit transition is still recorded.
    let mut app = App::new(Size { width: 80, height: 24 });
    let keys = vec![KeyEvent::Char('a'), KeyEvent::Char('b'), KeyEvent::Ctrl('q')];
    app.handle_keys(&keys);
    assert!(app.quit_requested);
    assert!(!app.state.playing);
}

#[test]
fn keys_after_quit_are_not_applied() {
    let mut app = App::new(Size { width: 80, height: 24 });
    let keys = vec![KeyEvent::Char(' '), KeyEvent::Ctrl('q'), KeyEvent::Char(' ')];
    app.handle_keys(&keys);
    assert!(app.quit_requested);
    // The first space toggled playback; the one behind the quit key did
    // not toggle it back.
    assert!(app.state.playing);
}

#[test]
fn space_toggles_then_ticks_accumulate() {
    // After a space key the state plays, and three nominal ticks move it
    // forward by exactly three hundred milliseconds.
    let mut app = App::new(Size { width: 80, height: 24 });
    assert!(!app.state.playing);
    app.handle_keys(&vec![KeyEvent::Char(' ')]);
    assert!(app.state.playing);
    assert!(!app.quit_requested);
    app.state.advance(TICK_MS);
    app.state.advance(TICK_MS);
    app.state.advance(TICK_MS);
    assert_eq!(app.state.song_progress_ms, 300);
}

#[test]
fn quit_refresh_is_teardown_only() {
    // Once quit was requested the repaint clears the screen and restores
    // the cursor; no dashboard body is drawn.
    let mut app = App::new(Size { width: 80, height: 24 });
    app.handle_keys(&vec![quit_key()]);
    let out = app.refresh_screen();
    assert_eq!(out, "\x1b[1;1H\x1b[?25l\x1b[2J\x1b[?25h\x1b[39m\x1b[49m");
    assert!(!out.contains("spotify-terminal"));
}

#[test]
fn full_frame_80_by_24() {
    let app = App::new(Size { width: 80, height: 24 });
    let out = app.refresh_screen();

    let mut expected = String::new();
    expected += &format!("{}", termion::cursor::Goto(1, 1));
    expected += &format!("{}", termion::cursor::Hide);
    // Title bar: name, padding, quit hint.
    expected += &bg(30, 215, 96);
    expected += &fg(18, 18, 20);
    expected += "spotify-terminal";
    expected += &" ".repeat(50);
    expected += "ctrl-q to quit";
    expected += "\r\n";
    // Twenty-one body rows (the height minus the three reserved rows):
    // side pane 24 columns, center 32, side 24.
    for _ in 0..21 {
        expected += &bg(18, 18, 20);
        expected += &" ".repeat(24);
        expected += &bg(38, 38, 40);
        expected += &" ".repeat(32);
        expected += &bg(18, 18, 20);
        expected += &" ".repeat(24);
        expected += "\r\n";
    }
    // Status bar.
    expected += &bg(48, 48, 50);
    expected += &" ".repeat(80);
    expected += "\r\n";
    // Player row, the last line of the screen, without a line break:
    // marker padded to 26 columns, times around an empty bar of 40 cells.
    expected += &fg(210, 210, 212);
    expected += " [paused]  ";
    expected += &" ".repeat(15);
    expected += " 00:00 ";
    expected += &fg(130, 130, 132);
    expected += &"-".repeat(40);
    expected += &fg(210, 210, 212);
    expected += " 00:30 ";
    // Color resets close the repaint.
    expected += &format!("{}", termion::color::Fg(termion::color::Reset));
    expected += &format!("{}", termion::color::Bg(termion::color::Reset));

    assert_eq!(out, expected);
}

#[test]
fn player_row_half_played() {
    let mut app = App::new(Size { width: 80, height: 24 });
    app.state.playing = true;
    app.state.song_progress_ms = 15000;
    let row = app.get_player_string(80);
    let mut expected = fg(210, 210, 212);
    expected += " [playing] ";
    expected += &" ".repeat(15);
    expected += " 00:15 ";
    expected += &"=".repeat(19);
    expected += ">";
    expected += &fg(130, 130, 132);
    expected += &"-".repeat(20);
    expected += &fg(210, 210, 212);
    expected += " 00:30 ";
    assert_eq!(row, expected);
}

#[test]
fn player_row_full_bar_has_no_marker() {
    let mut app = App::new(Size { width: 80, height: 24 });
    app.state.song_progress_ms = 30000;
    let row = app.get_player_string(80);
    assert!(row.contains(&"=".repeat(40)));
    assert!(!row.contains('>'));
}

#[test]
fn die_clears_screen() {
    assert_eq!(die(), format!("{}", termion::clear::All));
}

#[test]
fn sleep_clamps_at_zero() {
    assert_eq!(tick_sleep_millis(100, 30), 70);
    assert_eq!(tick_sleep_millis(100, 100), 0);
    // A frame over the tick budget sleeps for nothing instead of
    // underflowing.
    assert_eq!(tick_sleep_millis(100, 150), 0);
}

#[test]
fn terminal_keeps_captured_size() {
    let t = Terminal::new(Size { width: 120, height: 40 });
    let s = t.size();
    assert_eq!(s.width, 120);
    assert_eq!(s.height, 40);
}
