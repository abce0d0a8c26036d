//! Frame statistics: instantaneous, maximum, and periodically sampled
//! "floor" frames-per-second, over integer millisecond timestamps.
//!
//! Frame rates are fixed-point values in scale `FIXED_ONE`
//! (`1_000_000` is one frame per second). The floor figure is not a true
//! running minimum: every floor period the value cached one period ago
//! becomes the displayed floor and the current rate replaces the cache, so
//! the on-screen minimum is a two-cadence sampled snapshot.

use vstd::prelude::*;

verus! {

/// Milliseconds a measuring window must span before the rate is computed.
pub const WINDOW_MS: u64 = 1000;

/// Milliseconds between two advances of the floor sample.
pub const FLOOR_PERIOD_MS: u64 = 3000;

/// Running frame-timing counters, advanced once per render iteration.
#[derive(Clone, Copy, PartialEq, Eq, Debug, Structural)]
pub struct FrameStats {
    /// Start of the current measuring window, in milliseconds.
    pub window_start_ms: u64,
    /// Frames counted since the window started.
    pub frame_count: u64,
    /// The last computed frame rate, in scale `FIXED_ONE`.
    pub fps: u64,
    /// The highest frame rate computed so far.
    pub max_fps: u64,
    /// The displayed floor: the rate that was cached one floor period ago.
    pub floor_fps: u64,
    /// The cached rate that becomes the floor at the next sample.
    pub prev_fps: u64,
    /// Start of the current floor sampling period, in milliseconds.
    pub floor_start_ms: u64,
}

/// What one render iteration displays.
#[derive(Clone, Copy, PartialEq, Eq, Debug, Structural)]
pub struct FrameSnapshot {
    /// The last computed frame rate, in scale `FIXED_ONE`.
    pub fps: u64,
    /// The highest frame rate computed so far.
    pub max_fps: u64,
    /// The sampled floor frame rate.
    pub floor_fps: u64,
}

/// `frames / elapsed` seconds in scale `FIXED_ONE`, saturated at
/// `u64::MAX`: `elapsed_ms` milliseconds turn the quotient into
/// `frames * 10^9 / elapsed_ms`.
pub open spec fn fps_of(frames: u64, elapsed_ms: int) -> int {
    let v = frames * 1_000_000_000 / elapsed_ms;
    if v > u64::MAX {
        u64::MAX as int
    } else {
        v
    }
}

/// The counters after one tick at `now_ms`: the frame is counted; once the
/// window spans `WINDOW_MS` the rate is computed and the window restarts,
/// raising the maximum when exceeded; once the floor period spans
/// `FLOOR_PERIOD_MS` the cached rate becomes the floor and the current
/// rate becomes the cache.
pub open spec fn tick_spec(s: FrameStats, now_ms: u64) -> FrameStats {
    let counted = FrameStats { frame_count: (s.frame_count + 1) as u64, ..s };
    let windowed = if now_ms - s.window_start_ms >= WINDOW_MS {
        let fps = fps_of(counted.frame_count, now_ms - s.window_start_ms) as u64;
        FrameStats {
            frame_count: 0,
            window_start_ms: now_ms,
            fps,
            max_fps: if fps > s.max_fps {
                fps
            } else {
                s.max_fps
            },
            ..counted
        }
    } else {
        counted
    };
    if now_ms - s.floor_start_ms >= FLOOR_PERIOD_MS {
        FrameStats {
            floor_fps: windowed.prev_fps,
            prev_fps: windowed.fps,
            floor_start_ms: now_ms,
            ..windowed
        }
    } else {
        windowed
    }
}

/// The displayed part of the counters.
pub open spec fn snapshot_of(s: FrameStats) -> FrameSnapshot {
    FrameSnapshot { fps: s.fps, max_fps: s.max_fps, floor_fps: s.floor_fps }
}

/// A tick whose window spans at least `WINDOW_MS` produces a non-negative
/// rate equal to the frames counted divided by the elapsed seconds, and
/// restarts the window.
pub proof fn lemma_window_rate(s: FrameStats, now_ms: u64)
    requires
        now_ms >= s.window_start_ms,
        now_ms - s.window_start_ms >= WINDOW_MS,
        s.frame_count < u64::MAX,
    ensures
        tick_spec(s, now_ms).fps == fps_of(
            (s.frame_count + 1) as u64,
            now_ms - s.window_start_ms,
        ),
        tick_spec(s, now_ms).fps >= 0,
        tick_spec(s, now_ms).frame_count == 0,
        tick_spec(s, now_ms).window_start_ms == now_ms,
{
}

impl FrameStats {
    /// Fresh counters whose window and floor period start at `now_ms`.
    pub fn new(now_ms: u64) -> (s: Self)
        ensures
            s == (FrameStats {
                window_start_ms: now_ms,
                frame_count: 0,
                fps: 0,
                max_fps: 0,
                floor_fps: 0,
                prev_fps: 0,
                floor_start_ms: now_ms,
            }),
    {
        FrameStats {
            window_start_ms: now_ms,
            frame_count: 0,
            fps: 0,
            max_fps: 0,
            floor_fps: 0,
            prev_fps: 0,
            floor_start_ms: now_ms,
        }
    }

    /// Advances the counters by one frame at monotonic time `now_ms` and
    /// returns what this iteration displays.
    pub fn tick(&mut self, now_ms: u64) -> (snap: FrameSnapshot)
        requires
            now_ms >= old(self).window_start_ms,
            now_ms >= old(self).floor_start_ms,
            old(self).frame_count < u64::MAX,
        ensures
            *final(self) == tick_spec(*old(self), now_ms),
            snap == snapshot_of(*final(self)),
    {
        self.frame_count = self.frame_count + 1;
        let elapsed = now_ms - self.window_start_ms;
        if elapsed >= WINDOW_MS {
            let q: u128 = (self.frame_count as u128) * 1_000_000_000u128 / (elapsed as u128);
            let fps: u64 = if q > u64::MAX as u128 {
                u64::MAX
            } else {
                q as u64
            };
            self.fps = fps;
            if fps > self.max_fps {
                self.max_fps = fps;
            }
            self.frame_count = 0;
            self.window_start_ms = now_ms;
        }
        if now_ms - self.floor_start_ms >= FLOOR_PERIOD_MS {
            self.floor_fps = self.prev_fps;
            self.prev_fps = self.fps;
            self.floor_start_ms = now_ms;
        }
        FrameSnapshot { fps: self.fps, max_fps: self.max_fps, floor_fps: self.floor_fps }
    }
}

} // verus!
