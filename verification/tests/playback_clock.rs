use cadence::playback_clock::{PlaybackClock, SETTLE_TIMEOUT_MS};

const START: u64 = 1_700_000_000_000;

fn at(start: u64, millis: u64) -> u64 {
    start + millis
}

#[test]
fn position_extrapolates_between_reports() {
    let start = START;
    let mut clock = PlaybackClock::new(start);
    clock.set_playing(true, start);

    assert_eq!(clock.position_ms(at(start, 120)), 120);
    assert_eq!(clock.position_ms(at(start, 1_000)), 1_000);
}

#[test]
fn paused_position_holds() {
    let start = START;
    let mut clock = PlaybackClock::new(start);
    clock.reset(30_000, start);

    assert_eq!(clock.position_ms(at(start, 5_000)), 30_000);
}

#[test]
fn small_disagreement_is_ignored() {
    let start = START;
    let mut clock = PlaybackClock::new(start);
    clock.set_playing(true, start);
    clock.report(1_100, at(start, 1_000));

    assert_eq!(clock.position_ms(at(start, 1_000)), 1_000);
}

#[test]
fn stale_report_cannot_undo_a_seek() {
    let start = START;
    let mut clock = PlaybackClock::new(start);
    clock.set_playing(true, start);
    clock.seek(120_000, at(start, 1_000));

    // Sampled before the seek, delivered after it.
    clock.report(1_100, at(start, 1_200));

    assert_eq!(clock.position_ms(at(start, 1_200)), 120_200);
}

#[test]
fn settling_ends_once_a_report_agrees() {
    let start = START;
    let mut clock = PlaybackClock::new(start);
    clock.set_playing(true, start);
    clock.seek(120_000, at(start, 1_000));
    clock.report(120_250, at(start, 1_250));

    // Settled, so a later genuine jump is adopted rather than held off.
    clock.report(150_000, at(start, 1_500));
    assert_eq!(clock.position_ms(at(start, 1_500)), 150_000);
}

#[test]
fn settle_window_expires_so_reality_wins() {
    let start = START;
    let mut clock = PlaybackClock::new(start);
    clock.set_playing(true, start);
    clock.seek(120_000, at(start, 1_000));

    // The seek never took effect; playback is still near the start.
    let expired = at(start, 1_000) + SETTLE_TIMEOUT_MS + 1;
    clock.report(4_000, expired);

    assert_eq!(clock.position_ms(expired), 4_000);
}

#[test]
fn position_never_runs_backwards_after_a_seek() {
    let start = START;
    let mut clock = PlaybackClock::new(start);
    clock.set_playing(true, start);
    clock.seek(120_000, at(start, 500));

    let mut previous = 0;
    for step in 0..20u64 {
        let now = at(start, 500 + step * 100);
        // Reports sampled before the seek keep arriving for a while.
        if step < 6 {
            clock.report(u32::try_from(500 + step * 100).unwrap(), now);
        }
        let shown = clock.position_ms(now);
        assert!(shown >= previous, "went backwards at step {step}: {shown}");
        previous = shown;
    }
}

#[test]
fn a_clock_that_went_backwards_does_not_extrapolate() {
    let start = START;
    let mut clock = PlaybackClock::new(start);
    clock.reset(10_000, start);
    clock.set_playing(true, start);

    assert_eq!(clock.position_ms(start - 500), 10_000);
}

#[test]
fn pausing_keeps_the_position_reached() {
    let start = START;
    let mut clock = PlaybackClock::new(start);
    clock.set_playing(true, start);
    clock.set_playing(false, at(start, 2_500));

    assert_eq!(clock.anchor_ms(), 2_500);
    assert_eq!(clock.position_ms(at(start, 9_000)), 2_500);
}

#[test]
fn a_large_disagreement_is_adopted() {
    let start = START;
    let mut clock = PlaybackClock::new(start);
    clock.set_playing(true, start);
    clock.report(60_000, at(start, 1_000));

    assert_eq!(clock.position_ms(at(start, 1_000)), 60_000);
    assert_eq!(clock.position_ms(at(start, 1_400)), 60_400);
}
