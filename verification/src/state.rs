//! Playback state and its transitions.
//!
//! Durations are held as whole milliseconds.  The state is well formed when
//! the elapsed time does not exceed the total; every transition preserves
//! that invariant.

use vstd::prelude::*;

verus! {

/// The player state: whether playback runs, the length of the current song
/// and the progress into it, both in milliseconds.
#[derive(Clone, Copy, Debug, PartialEq, Eq, Structural)]
pub struct AppState {
    pub playing: bool,
    pub song_length_ms: u64,
    pub song_progress_ms: u64,
}

/// The progress value after one tick of `tick_ms` milliseconds: unchanged
/// while paused; while playing it grows by the tick and wraps to zero once
/// it would reach the song length (looped playback, not a clamp).
pub open spec fn advance_spec(s: AppState, tick_ms: u64) -> u64 {
    if !s.playing {
        s.song_progress_ms
    } else if s.song_progress_ms + tick_ms >= s.song_length_ms {
        0
    } else {
        (s.song_progress_ms + tick_ms) as u64
    }
}

/// `scale` multiplied by the progress fraction, rounded down; zero when the
/// song length is zero, so the fraction is defined for every state.
pub open spec fn progress_scaled_spec(s: AppState, scale: int) -> int {
    if s.song_length_ms == 0 {
        0
    } else {
        scale * (s.song_progress_ms as int) / (s.song_length_ms as int)
    }
}

impl AppState {
    /// Elapsed time never exceeds the total.
    pub open spec fn wf(&self) -> bool {
        self.song_progress_ms <= self.song_length_ms
    }

    /// The initial state: paused, at the start of a thirty-second song.
    pub fn default() -> (s: AppState)
        ensures
            s.playing == false,
            s.song_length_ms == 30000,
            s.song_progress_ms == 0,
            s.wf(),
    {
        AppState { playing: false, song_length_ms: 30000, song_progress_ms: 0 }
    }

    /// Flips between playing and paused; nothing else changes.
    pub fn toggle_playing(&mut self)
        ensures
            final(self).playing == !old(self).playing,
            final(self).song_length_ms == old(self).song_length_ms,
            final(self).song_progress_ms == old(self).song_progress_ms,
    {
        self.playing = !self.playing;
    }

    /// One tick of playback: progress advances by `tick_ms` and wraps to
    /// zero when it reaches the song length; paused state is untouched.
    pub fn advance(&mut self, tick_ms: u64)
        requires
            old(self).wf(),
        ensures
            final(self).playing == old(self).playing,
            final(self).song_length_ms == old(self).song_length_ms,
            final(self).song_progress_ms == advance_spec(*old(self), tick_ms),
            final(self).wf(),
    {
        if self.playing {
            if self.song_length_ms - self.song_progress_ms <= tick_ms {
                self.song_progress_ms = 0;
            } else {
                self.song_progress_ms = self.song_progress_ms + tick_ms;
            }
        }
    }

    /// The progress fraction expressed against `scale`: the greatest whole
    /// number not above `scale` times elapsed over total.  The result never
    /// exceeds `scale`, so the fraction itself stays within zero and one.
    pub fn progress_scaled(&self, scale: u64) -> (r: u64)
        requires
            self.wf(),
        ensures
            r == progress_scaled_spec(*self, scale as int),
            r <= scale,
    {
        if self.song_length_ms == 0 {
            0
        } else {
            proof {
                assert((scale as int) * (self.song_progress_ms as int) <= (u64::MAX as int) * (
                u64::MAX as int)) by (nonlinear_arith)
                    requires
                        0 <= scale <= u64::MAX,
                        0 <= self.song_progress_ms <= u64::MAX,
                ;
            }
            let num = (scale as u128) * (self.song_progress_ms as u128);
            let den = self.song_length_ms as u128;
            let q = num / den;
            proof {
                lemma_scaled_fraction_bounded(
                    scale as int,
                    self.song_progress_ms as int,
                    self.song_length_ms as int,
                );
            }
            q as u64
        }
    }
}

/// With `p` at most `l` and `l` positive, `scale * p / l` is at most
/// `scale`.
proof fn lemma_scaled_fraction_bounded(scale: int, p: int, l: int)
    requires
        0 <= scale,
        0 <= p <= l,
        0 < l,
    ensures
        0 <= scale * p / l <= scale,
{
    assert(scale * p <= scale * l) by (nonlinear_arith)
        requires
            0 <= scale,
            p <= l,
    ;
    assert(scale * p / l <= scale * l / l) by (nonlinear_arith)
        requires
            0 < l,
            scale * p <= scale * l,
    ;
    assert(scale * l / l == scale) by (nonlinear_arith)
        requires
            0 < l,
    ;
    assert(0 <= scale * p) by (nonlinear_arith)
        requires
            0 <= scale,
            0 <= p,
    ;
    assert(0 <= scale * p / l) by (nonlinear_arith)
        requires
            0 < l,
            0 <= scale * p,
    ;
}

} // verus!
