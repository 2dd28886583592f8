use hyperion::game::{Game, StatsEvent, TickReport};

const MS: u64 = 1_000_000;

#[test]
fn a_new_game_has_run_no_tick() {
    let game = Game::new(5);
    assert_eq!(game.tick_on(), 0);
}

#[test]
fn wait_is_four_fifths_of_what_is_left() {
    let game = Game::new(1_000);
    assert_eq!(game.wait_duration(1_000), Some(40 * MS));
    assert_eq!(game.wait_duration(1_000 + 10 * MS), Some(32 * MS));
    assert_eq!(game.wait_duration(1_000 + 50 * MS), Some(0));
}

#[test]
fn wait_rounds_to_the_nearest_nanosecond() {
    let game = Game::new(0);
    assert_eq!(game.wait_duration(50 * MS - 1), Some(1));
    assert_eq!(game.wait_duration(50 * MS - 2), Some(2));
    assert_eq!(game.wait_duration(50 * MS - 3), Some(2));
    assert_eq!(game.wait_duration(50 * MS - 4), Some(3));
    assert_eq!(game.wait_duration(50 * MS - 5), Some(4));
}

#[test]
fn no_wait_once_the_tick_is_overdue() {
    let game = Game::new(0);
    assert_eq!(game.wait_duration(50 * MS + 1), None);
    assert_eq!(game.wait_duration(u64::MAX), None);
}

#[test]
fn wait_is_capped() {
    let mut game = Game::new(0);
    assert!(!game.begin_tick(0));
    assert_eq!(game.wait_duration(0), Some(47 * MS));
    assert_eq!(game.wait_duration(100 * MS - 58_750_000), Some(47 * MS));
    assert_eq!(game.wait_duration(100 * MS - 58_749_999), Some(46_999_999));
    assert_eq!(game.wait_duration(100 * MS - 58_760_000), Some(47 * MS));
}

#[test]
fn wait_counts_from_the_oldest_tick_kept() {
    let mut game = Game::new(0);
    for tick in 1..=99u64 {
        game.begin_tick(tick * 50 * MS);
    }
    // A hundred starts are kept, the oldest at 0: they are due to end at 5000 ms.
    assert_eq!(game.tick_history_len(), 100);
    assert_eq!(game.wait_duration(4_990 * MS), Some(8 * MS));
    assert_eq!(game.wait_duration(5_000 * MS + 1), None);
    game.begin_tick(4_990 * MS);
    // The start at 0 is gone; the oldest is at 50 ms and a hundred are kept.
    assert_eq!(game.tick_history_len(), 100);
    assert_eq!(game.wait_duration(5_040 * MS), Some(8 * MS));
    assert_eq!(game.wait_duration(5_050 * MS), Some(0));
    assert_eq!(game.wait_duration(5_051 * MS), None);
}

#[test]
fn slow_ticks_are_reported() {
    let mut game = Game::new(0);
    assert!(!game.begin_tick(60 * MS));
    assert!(game.begin_tick(120 * MS + 1));
    assert!(!game.begin_tick(100 * MS));
}

#[test]
fn stats_come_once_the_history_is_full() {
    let mut game = Game::new(0);
    for tick in 0..99u64 {
        assert_eq!(game.update_tick_stats(tick * MS), None);
        assert_eq!(game.tick_on(), tick + 1);
    }
    assert_eq!(game.duration_history_len(), 99);
    // The hundredth duration fills the ring: 0..=99 ms are kept, 80..=99 ms
    // are the newest twenty.
    assert_eq!(
        game.update_tick_stats(99 * MS),
        Some(StatsEvent { nanos_per_tick_mean_1s: 89_500_000, nanos_per_tick_mean_5s: 49_500_000 })
    );
    assert_eq!(game.duration_history_len(), 100);
    // From then on every tick brings statistics, and the oldest duration goes.
    assert_eq!(
        game.update_tick_stats(100 * MS),
        Some(StatsEvent { nanos_per_tick_mean_1s: 90_500_000, nanos_per_tick_mean_5s: 50_500_000 })
    );
    assert_eq!(
        game.update_tick_stats(0),
        Some(StatsEvent { nanos_per_tick_mean_1s: 86_450_000, nanos_per_tick_mean_5s: 50_490_000 })
    );
    assert_eq!(game.duration_history_len(), 100);
    assert_eq!(game.tick_on(), 102);
}

#[test]
fn means_round_down_and_do_not_overflow() {
    let mut game = Game::new(0);
    for _ in 0..99 {
        assert_eq!(game.update_tick_stats(u64::MAX), None);
    }
    assert_eq!(
        game.update_tick_stats(u64::MAX - 1),
        Some(StatsEvent {
            nanos_per_tick_mean_1s: u64::MAX - 1,
            nanos_per_tick_mean_5s: u64::MAX - 1,
        })
    );
}

#[test]
fn histories_are_bounded() {
    let mut game = Game::new(0);
    assert_eq!(game.tick_history_len(), 1);
    assert_eq!(game.duration_history_len(), 0);
    for tick in 1..=500u64 {
        game.begin_tick(tick * 50 * MS);
        game.update_tick_stats(MS);
        assert_eq!(game.tick_history_len() as u64, (tick + 1).min(100));
        assert_eq!(game.duration_history_len() as u64, tick.min(100));
    }
    assert_eq!(game.tick_on(), 500);
}

#[test]
fn a_tick_reports_slowness_and_statistics() {
    let mut game = Game::new(0);
    for tick in 1..=99u64 {
        let started = tick * 50 * MS;
        let report = game.tick(started, started + 3 * MS);
        assert_eq!(report, TickReport { slow: false, stats: None });
    }
    assert_eq!(game.tick_history_len(), 100);
    // The hundredth tick fills the ring of durations.
    let report = game.tick(5_000 * MS, 5_003 * MS);
    assert_eq!(
        report,
        TickReport {
            slow: false,
            stats: Some(StatsEvent {
                nanos_per_tick_mean_1s: 3 * MS,
                nanos_per_tick_mean_5s: 3 * MS,
            }),
        }
    );
    assert_eq!(game.tick_history_len(), 100);
    let started = 5_050 * MS + 10 * MS + 1;
    let report = game.tick(started, started + 103 * MS);
    assert_eq!(
        report,
        TickReport {
            slow: true,
            stats: Some(StatsEvent {
                nanos_per_tick_mean_1s: 8 * MS,
                nanos_per_tick_mean_5s: 4 * MS,
            }),
        }
    );
    assert_eq!(game.tick_on(), 101);
    assert_eq!(game.tick_history_len(), 100);
    assert_eq!(game.duration_history_len(), 100);
    // The oldest start kept is now the one at 100 ms, due to end at 5100 ms.
    assert_eq!(game.wait_duration(5_090 * MS), Some(8 * MS));
    // A clock that went back makes for a tick of no length.
    let report = game.tick(started, started - 1);
    assert_eq!(report.stats.unwrap().nanos_per_tick_mean_5s, (98 * 3 * MS + 103 * MS) / 100);
}
