use contrasity::stats::{FrameSnapshot, FrameStats};

#[test]
fn test_fps_zero_before_window() {
    let mut stats = FrameStats::new(0);
    for now in [100, 300, 600, 999] {
        let snap = stats.tick(now);
        assert_eq!(snap.fps, 0);
        assert_eq!(snap.max_fps, 0);
    }
}

#[test]
fn test_window_rate() {
    // ten frames over exactly one simulated second: 10 fps
    let mut stats = FrameStats::new(0);
    let mut snap = FrameSnapshot { fps: 0, max_fps: 0, floor_fps: 0 };
    for i in 1..=10u64 {
        snap = stats.tick(i * 100);
    }
    assert_eq!(snap.fps, 10_000_000);
    assert_eq!(snap.max_fps, 10_000_000);
}

#[test]
fn test_window_rate_fractional_second() {
    // three frames over 1.5 simulated seconds: 2 fps
    let mut stats = FrameStats::new(0);
    stats.tick(500);
    stats.tick(999);
    let snap = stats.tick(1500);
    assert_eq!(snap.fps, 2_000_000);
}

#[test]
fn test_max_keeps_fastest_window() {
    let mut stats = FrameStats::new(0);
    // first window: 2 frames in one second
    stats.tick(500);
    let first = stats.tick(1000);
    assert_eq!(first.fps, 2_000_000);
    // second window: 4 frames in one second, a faster stretch
    stats.tick(1250);
    stats.tick(1500);
    stats.tick(1750);
    let second = stats.tick(2000);
    assert_eq!(second.fps, 4_000_000);
    assert_eq!(second.max_fps, 4_000_000);
    // third window: 1 frame in one second, slower; the maximum stays
    let third = stats.tick(3100);
    assert_eq!(third.fps, 1_000_000 * 1000 / 1100);
    assert_eq!(third.max_fps, 4_000_000);
}

#[test]
fn test_floor_is_a_lagged_sample() {
    let mut stats = FrameStats::new(0);
    // one frame per second for three seconds
    stats.tick(1000);
    stats.tick(2000);
    // at three seconds the floor period closes: the displayed floor takes
    // the cached value (still zero), and the current rate is cached
    let at3 = stats.tick(3000);
    assert_eq!(at3.fps, 1_000_000);
    assert_eq!(at3.floor_fps, 0);
    // a faster stretch: four frames over the next second
    stats.tick(3250);
    stats.tick(3500);
    stats.tick(3750);
    let at4 = stats.tick(4000);
    assert_eq!(at4.fps, 4_000_000);
    assert_eq!(at4.floor_fps, 0);
    // at six seconds the floor displays the rate cached at three seconds,
    // not the faster rate seen since: a lagged sample, not a true minimum
    stats.tick(5000);
    let at6 = stats.tick(6000);
    assert_eq!(at6.floor_fps, 1_000_000);
}
