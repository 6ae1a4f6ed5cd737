use spotify_terminal::state::AppState;
use spotify_terminal::text::get_duration_string;

#[test]
fn duration_minute_and_seconds() {
    assert_eq!(get_duration_string(65000), "01:05");
}

#[test]
fn duration_zero() {
    assert_eq!(get_duration_string(0), "00:00");
}

#[test]
fn duration_default_song_length() {
    assert_eq!(get_duration_string(30000), "00:30");
}

#[test]
fn duration_five_chars_under_ten_minutes() {
    for ms in [0u64, 999, 1000, 59999, 60000, 300000, 599999] {
        let s = get_duration_string(ms);
        assert_eq!(s.len(), 5, "{ms} ms gave {s:?}");
        assert_eq!(s.as_bytes()[2], b':');
    }
    assert_eq!(get_duration_string(599999), "09:59");
}

#[test]
fn duration_minutes_not_wrapped() {
    // An hour is written as sixty minutes, and longer songs keep their
    // full minute count instead of being silently truncated.
    assert_eq!(get_duration_string(3_600_000), "60:00");
    assert_eq!(get_duration_string(6_000_000), "100:00");
    assert_eq!(get_duration_string(6_065_000), "101:05");
}

#[test]
fn progress_fraction_half_exact() {
    let s = AppState { playing: false, song_length_ms: 30000, song_progress_ms: 15000 };
    assert_eq!(s.progress_scaled(1000), 500);
    assert_eq!(s.progress_scaled(2), 1);
}

#[test]
fn progress_fraction_bounds() {
    let zero_total = AppState { playing: false, song_length_ms: 0, song_progress_ms: 0 };
    assert_eq!(zero_total.progress_scaled(1000), 0);

    let done = AppState { playing: true, song_length_ms: 30000, song_progress_ms: 30000 };
    assert_eq!(done.progress_scaled(1000), 1000);

    let s = AppState { playing: true, song_length_ms: 30000, song_progress_ms: 29950 };
    let scaled = s.progress_scaled(1000);
    assert!(scaled <= 1000);
}

#[test]
fn advance_wraps_to_zero() {
    // One tick from just under the end wraps to the start, it does not
    // clamp at the total.
    let mut s = AppState { playing: true, song_length_ms: 30000, song_progress_ms: 29950 };
    s.advance(100);
    assert_eq!(s.song_progress_ms, 0);
    assert!(s.playing);
}

#[test]
fn advance_paused_is_still() {
    let mut s = AppState { playing: false, song_length_ms: 30000, song_progress_ms: 1500 };
    s.advance(100);
    assert_eq!(s.song_progress_ms, 1500);
}

#[test]
fn advance_accumulates_while_playing() {
    let mut s = AppState::default();
    s.toggle_playing();
    s.advance(100);
    s.advance(100);
    s.advance(100);
    assert_eq!(s.song_progress_ms, 300);
}

#[test]
fn toggle_flips_playing() {
    let mut s = AppState::default();
    assert!(!s.playing);
    s.toggle_playing();
    assert!(s.playing);
    s.toggle_playing();
    assert!(!s.playing);
}
