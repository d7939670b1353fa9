use emerald_core::frame_clock::{FrameClock, WARMUP_DELTA_NS, WINDOW};

#[test]
fn warmup_rate_is_sixty_hertz() {
    let c = FrameClock::new(5);
    let total = c.total_ns();
    assert_eq!(total, 50 * 16_666_667u128);
    // 1 / (1/60 s, rounded to 16_666_667 ns), in millihertz
    assert_eq!(c.fps_milli(), Some(59_999));
    assert_eq!(c.last_instant(), 5);
    assert_eq!(WINDOW, 50);
    assert_eq!(WARMUP_DELTA_NS, 16_666_667);
}

#[test]
fn record_drops_oldest() {
    let mut c = FrameClock::new(0);
    c.record(1_000_000);
    assert_eq!(c.total_ns(), 49 * 16_666_667u128 + 1_000_000);
    assert_eq!(c.fps_milli(), Some((50u128 * 1_000_000_000_000 / (49 * 16_666_667 + 1_000_000)) as u64));
}

#[test]
fn window_holds_last_fifty_deltas() {
    let mut c = FrameClock::new(0);
    for _ in 0..60 {
        c.record(20_000_000);
    }
    assert_eq!(c.total_ns(), 50 * 20_000_000u128);
    assert_eq!(c.fps_milli(), Some(50_000));
    for i in 0..50u64 {
        c.record(10_000_000 + i);
    }
    let sum: u128 = (0..50u128).map(|i| 10_000_000 + i).sum();
    assert_eq!(c.total_ns(), sum);
    assert_eq!(c.fps_milli(), Some((50u128 * 1_000_000_000_000 / sum) as u64));
}

#[test]
fn tick_measures_and_clamps() {
    let mut c = FrameClock::new(1_000);
    assert_eq!(c.elapsed(1_500), 500);
    assert_eq!(c.last_instant(), 1_000);
    assert_eq!(c.tick(3_000), 2_000);
    assert_eq!(c.last_instant(), 3_000);
    assert_eq!(c.tick(2_000), 0);
    assert_eq!(c.last_instant(), 2_000);
    assert_eq!(c.elapsed(1_000), 0);
    assert_eq!(c.total_ns(), 48 * 16_666_667u128 + 2_000);
}

#[test]
fn zero_window_has_no_rate() {
    let mut c = FrameClock::new(0);
    for _ in 0..50 {
        c.record(0);
    }
    assert_eq!(c.total_ns(), 0);
    assert_eq!(c.fps_milli(), None);
}

#[test]
fn huge_deltas_do_not_overflow() {
    let mut c = FrameClock::new(0);
    for _ in 0..50 {
        c.record(u64::MAX);
    }
    assert_eq!(c.total_ns(), 50 * u64::MAX as u128);
    assert_eq!(c.fps_milli(), Some((50u128 * 1_000_000_000_000 / (50 * u64::MAX as u128)) as u64));
}
