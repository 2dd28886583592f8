//! The tick pacer: when each tick started, how long each took, and how long
//! to sleep before the next one.
//!
//! Instants and durations are nanoseconds. Instants count from an origin that
//! the caller picks once, such as the start of the process.

use std::collections::VecDeque;
use vstd::prelude::*;

verus! {

/// Tick start instants that are kept.
pub const LAST_TICK_HISTORY_SIZE: usize = 100;

/// Tick durations that are kept.
pub const MSPT_HISTORY_SIZE: usize = 100;

/// Ticks in the short window of the statistics: one second.
pub const SHORT_WINDOW: usize = 20;

/// The length of a tick at 20 Hz.
pub const TICK_PERIOD_NANOS: u64 = 50_000_000;

/// The longest sleep between two ticks.
pub const MAX_SLEEP_NANOS: u64 = 47_000_000;

/// A tick that starts later than this after the one before it is slow.
pub const SLOW_TICK_NANOS: u64 = 60_000_000;

/// The mean tick durations over the last second and the last five seconds.
#[derive(Clone, Copy, Debug, PartialEq, Eq, Structural)]
pub struct StatsEvent {
    /// Mean nanoseconds per tick over the newest 20 ticks.
    pub nanos_per_tick_mean_1s: u64,
    /// Mean nanoseconds per tick over the newest 100 ticks.
    pub nanos_per_tick_mean_5s: u64,
}

/// The sum of the durations in `s`.
pub open spec fn total(s: Seq<u64>) -> int
    decreases s.len(),
{
    if s.len() == 0 {
        0
    } else {
        total(s.drop_last()) + s.last()
    }
}

/// The mean of the durations in `s`, rounded down; zero for none.
pub open spec fn mean(s: Seq<u64>) -> int {
    if s.len() == 0 {
        0
    } else {
        total(s) / (s.len() as int)
    }
}

/// The newest `n` entries of `s`, or all of `s` where it holds fewer.
pub open spec fn newest(s: Seq<u64>, n: nat) -> Seq<u64> {
    if s.len() <= n {
        s
    } else {
        s.subrange(s.len() - n, s.len() as int)
    }
}

/// Four fifths of `nanos`, rounded to the nearest nanosecond.
pub open spec fn four_fifths(nanos: int) -> int {
    (4 * nanos + 2) / 5
}

/// The time from `earlier` to `later`, zero where the clock went back.
pub open spec fn elapsed(earlier: u64, later: u64) -> int {
    if later >= earlier {
        later - earlier
    } else {
        0
    }
}

/// How long to sleep at `now` when the ticks that are kept started at
/// `starts`, oldest first.
///
/// The kept ticks are due to end one tick period each after the oldest of
/// them began. Past that instant there is no sleep, nor is there where no
/// tick is kept. Before it the sleep is four fifths of the time that is left,
/// and never more than `MAX_SLEEP_NANOS`.
pub open spec fn sleep_before_next(starts: Seq<u64>, now: u64) -> Option<u64> {
    let due = starts.first() + starts.len() * TICK_PERIOD_NANOS;
    if starts.len() == 0 || due < now {
        None
    } else if four_fifths(due - now) > MAX_SLEEP_NANOS {
        Some(MAX_SLEEP_NANOS)
    } else {
        Some(four_fifths(due - now) as u64)
    }
}

/// The tick starts that are kept once a tick has started at `now`: the new
/// one last, and before it those that were kept before, without the oldest
/// of them where they were `LAST_TICK_HISTORY_SIZE` already.
pub open spec fn starts_with(starts: Seq<u64>, now: u64) -> Seq<u64> {
    newest(starts.push(now), LAST_TICK_HISTORY_SIZE as nat)
}

/// The durations that are kept once a tick has taken `nanos`: the new one
/// last, and before it those that were kept before, without the oldest of
/// them where they were `MSPT_HISTORY_SIZE` already.
pub open spec fn durations_with(durations: Seq<u64>, nanos: u64) -> Seq<u64> {
    newest(durations.push(nanos), MSPT_HISTORY_SIZE as nat)
}

/// Whether a tick that starts at `now` starts more than `SLOW_TICK_NANOS`
/// after the newest of `starts`.
pub open spec fn is_slow(starts: Seq<u64>, now: u64) -> bool {
    starts.len() > 0 && elapsed(starts.last(), now) > SLOW_TICK_NANOS
}

/// The statistics that go out when the durations that are kept are
/// `durations`: none before `MSPT_HISTORY_SIZE` of them are known, and from
/// then on the means over the newest `SHORT_WINDOW` and the newest
/// `MSPT_HISTORY_SIZE` of them.
pub open spec fn stats_of(durations: Seq<u64>) -> Option<StatsEvent> {
    if durations.len() >= MSPT_HISTORY_SIZE {
        Some(
            StatsEvent {
                nanos_per_tick_mean_1s: mean(newest(durations, SHORT_WINDOW as nat)) as u64,
                nanos_per_tick_mean_5s: mean(newest(durations, MSPT_HISTORY_SIZE as nat)) as u64,
            },
        )
    } else {
        None
    }
}

/// What one tick has to report.
#[derive(Clone, Copy, Debug, PartialEq, Eq, Structural)]
pub struct TickReport {
    /// Whether the tick started more than `SLOW_TICK_NANOS` after the one
    /// before it.
    pub slow: bool,
    /// The statistics, once enough durations are known.
    pub stats: Option<StatsEvent>,
}

/// The pacing state of the game loop.
pub struct Game {
    /// When the last ticks started, oldest first.
    last_ticks: VecDeque<u64>,
    /// How long the last ticks took, oldest first.
    last_nanos_per_tick: VecDeque<u64>,
    /// The number of ticks that have run.
    tick_on: u64,
}

impl Game {
    /// Never more than `LAST_TICK_HISTORY_SIZE` tick starts are kept, and
    /// never more than `MSPT_HISTORY_SIZE` durations.
    #[verifier::type_invariant]
    spec fn inv(self) -> bool {
        &&& self.last_ticks@.len() <= LAST_TICK_HISTORY_SIZE
        &&& self.last_nanos_per_tick@.len() <= MSPT_HISTORY_SIZE
    }

    /// When the kept ticks started, oldest first.
    pub closed spec fn tick_starts(&self) -> Seq<u64> {
        self.last_ticks@
    }

    /// How long the kept ticks took, oldest first.
    pub closed spec fn durations(&self) -> Seq<u64> {
        self.last_nanos_per_tick@
    }

    /// The number of ticks that have run.
    pub closed spec fn ticks_run(&self) -> u64 {
        self.tick_on
    }

    /// A game that has run no tick and knows of no tick start.
    fn empty() -> (game: Game)
        ensures
            game.tick_starts() == Seq::<u64>::empty(),
            game.durations() == Seq::<u64>::empty(),
            game.ticks_run() == 0,
    {
        Game { last_ticks: VecDeque::new(), last_nanos_per_tick: VecDeque::new(), tick_on: 0 }
    }

    /// A game that has run no tick, started at `now`.
    pub fn new(now: u64) -> (game: Game)
        ensures
            game.tick_starts() == seq![now],
            game.durations() == Seq::<u64>::empty(),
            game.ticks_run() == 0,
    {
        let mut last_ticks: VecDeque<u64> = VecDeque::new();
        last_ticks.push_back(now);
        Game { last_ticks, last_nanos_per_tick: VecDeque::new(), tick_on: 0 }
    }

    /// The number of ticks that have run.
    pub fn tick_on(&self) -> (ticks: u64)
        ensures
            ticks == self.ticks_run(),
    {
        self.tick_on
    }

    /// How many tick starts are kept.
    pub fn tick_history_len(&self) -> (len: usize)
        ensures
            len == self.tick_starts().len(),
            len <= LAST_TICK_HISTORY_SIZE,
    {
        proof {
            use_type_invariant(self);
        }
        self.last_ticks.len()
    }

    /// How many tick durations are kept.
    pub fn duration_history_len(&self) -> (len: usize)
        ensures
            len == self.durations().len(),
            len <= MSPT_HISTORY_SIZE,
    {
        proof {
            use_type_invariant(self);
        }
        self.last_nanos_per_tick.len()
    }

    /// The duration to wait at `now` before the next tick, if any.
    pub fn wait_duration(&self, now: u64) -> (wait: Option<u64>)
        ensures
            wait == sleep_before_next(self.tick_starts(), now),
    {
        proof {
            use_type_invariant(self);
        }
        let count: usize = self.last_ticks.len();
        if count == 0 {
            return None;
        }
        let first: u64 = self.last_ticks[0];
        let due: u128 = first as u128 + count as u128 * TICK_PERIOD_NANOS as u128;
        if due < now as u128 {
            return None;
        }
        let left: u128 = due - now as u128;
        // Four fifths of 58.75 ms are the longest sleep.
        if left >= 58_750_000 {
            return Some(MAX_SLEEP_NANOS);
        }
        let sleep: u128 = (4 * left + 2) / 5;
        Some(sleep as u64)
    }

    /// Records that a tick starts at `now`. Says whether it starts more than
    /// `SLOW_TICK_NANOS` after the tick before it.
    pub fn begin_tick(&mut self, now: u64) -> (slow: bool)
        ensures
            final(self).tick_starts() == starts_with(old(self).tick_starts(), now),
            final(self).durations() == old(self).durations(),
            final(self).ticks_run() == old(self).ticks_run(),
            slow == is_slow(old(self).tick_starts(), now),
    {
        let mut taken = Game::empty();
        core::mem::swap(self, &mut taken);
        proof {
            use_type_invariant(&taken);
        }
        let Game { last_ticks, last_nanos_per_tick, tick_on } = taken;
        let mut last_ticks = last_ticks;
        let count = last_ticks.len();
        let slow = count > 0 && now > last_ticks[count - 1] && now - last_ticks[count - 1]
            > SLOW_TICK_NANOS;
        if count >= LAST_TICK_HISTORY_SIZE {
            let _ = last_ticks.pop_front();
        }
        last_ticks.push_back(now);
        *self = Game { last_ticks, last_nanos_per_tick, tick_on };
        slow
    }

    /// Runs the accounts of one tick of the game loop: a tick that started
    /// at `started` and whose stages were through at `ended`.
    pub fn tick(&mut self, started: u64, ended: u64) -> (report: TickReport)
        requires
            old(self).ticks_run() < u64::MAX,
        ensures
            report.slow == is_slow(old(self).tick_starts(), started),
            report.stats == stats_of(final(self).durations()),
            report.stats is Some <==> old(self).durations().len() + 1 >= MSPT_HISTORY_SIZE,
            final(self).tick_starts() == starts_with(old(self).tick_starts(), started),
            final(self).durations() == durations_with(
                old(self).durations(),
                elapsed(started, ended) as u64,
            ),
            final(self).ticks_run() == old(self).ticks_run() + 1,
    {
        let slow = self.begin_tick(started);
        let nanos: u64 = if ended >= started {
            ended - started
        } else {
            0
        };
        let stats = self.update_tick_stats(nanos);
        TickReport { slow, stats }
    }

    /// Records that the tick which now ends took `nanos`, and counts it.
    ///
    /// The newest `MSPT_HISTORY_SIZE` durations are kept. From the tick on
    /// that fills them, every tick yields the means over the newest
    /// `SHORT_WINDOW` and over all of those that are kept, the new one among
    /// them.
    pub fn update_tick_stats(&mut self, nanos: u64) -> (stats: Option<StatsEvent>)
        requires
            old(self).ticks_run() < u64::MAX,
        ensures
            stats == stats_of(final(self).durations()),
            stats is Some <==> old(self).durations().len() + 1 >= MSPT_HISTORY_SIZE,
            final(self).durations() == durations_with(old(self).durations(), nanos),
            final(self).ticks_run() == old(self).ticks_run() + 1,
            final(self).tick_starts() == old(self).tick_starts(),
    {
        let mut taken = Game::empty();
        core::mem::swap(self, &mut taken);
        proof {
            use_type_invariant(&taken);
        }
        let Game { last_ticks, last_nanos_per_tick, tick_on } = taken;
        let mut history = last_nanos_per_tick;
        if history.len() >= MSPT_HISTORY_SIZE {
            let _ = history.pop_front();
        }
        history.push_back(nanos);
        let stats = if history.len() >= MSPT_HISTORY_SIZE {
            let short = mean_of_newest(&history, SHORT_WINDOW);
            let long = mean_of_newest(&history, MSPT_HISTORY_SIZE);
            Some(StatsEvent { nanos_per_tick_mean_1s: short, nanos_per_tick_mean_5s: long })
        } else {
            None
        };
        *self = Game { last_ticks, last_nanos_per_tick: history, tick_on: tick_on + 1 };
        stats
    }
}

/// The sum of at most `n` durations is at most `n` times the largest `u64`.
proof fn lemma_total_bound(s: Seq<u64>)
    ensures
        0 <= total(s) <= s.len() * u64::MAX,
    decreases s.len(),
{
    if s.len() > 0 {
        lemma_total_bound(s.drop_last());
        assert(total(s.drop_last()) + s.last() <= (s.len() - 1) * u64::MAX + u64::MAX);
        assert((s.len() - 1) * u64::MAX + u64::MAX == s.len() * u64::MAX) by (nonlinear_arith);
    }
}

/// The mean of the newest `n` durations in `history`, rounded down.
fn mean_of_newest(history: &VecDeque<u64>, n: usize) -> (m: u64)
    requires
        0 < n <= MSPT_HISTORY_SIZE,
        0 < history@.len() <= MSPT_HISTORY_SIZE,
    ensures
        m == mean(newest(history@, n as nat)),
{
    let len = history.len();
    let start: usize = if len <= n {
        0
    } else {
        len - n
    };
    let ghost window = newest(history@, n as nat);
    assert(window == history@.subrange(start as int, len as int));
    let mut sum: u128 = 0;
    let mut i: usize = start;
    while i < len
        invariant
            start <= i <= len,
            len == history@.len(),
            len <= MSPT_HISTORY_SIZE,
            window == history@.subrange(start as int, len as int),
            sum == total(window.take(i - start)),
        decreases len - i,
    {
        proof {
            let next = window.take(i - start + 1);
            assert(next.drop_last() == window.take(i - start));
            assert(next.last() == history@[i as int]);
            lemma_total_bound(next);
            assert(next.len() * u64::MAX <= 100 * u64::MAX) by (nonlinear_arith)
                requires
                    next.len() <= 100,
            ;
        }
        sum = sum + history[i] as u128;
        i = i + 1;
    }
    proof {
        assert(window.take(len - start) == window);
        lemma_total_bound(window);
        let count = window.len() as int;
        assert(0 <= total(window) / count <= u64::MAX) by (nonlinear_arith)
            requires
                0 <= total(window) <= count * u64::MAX,
                count > 0,
        ;
    }
    let count: u128 = (len - start) as u128;
    (sum / count) as u64
}

} // verus!
