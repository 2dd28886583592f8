//! The process-wide context that every stage of a tick reads.

use vstd::prelude::*;

verus! {

/// Ticks a dead entity waits before it is respawned (two seconds at 20 Hz).
pub const RESPAWN_DELAY_TICKS: u64 = 100;

/// Packets at least this many bytes long are compressed, unless configured otherwise.
pub const DEFAULT_COMPRESSION_THRESHOLD: u32 = 256;

/// The shared context of the simulation: the tick clock and the configuration snapshot.
#[derive(Clone, Copy, Debug, PartialEq, Eq, Structural)]
pub struct Global {
    /// The current tick. Advanced exactly once per tick.
    pub tick: u64,
    /// Ticks of invulnerability that one hit stands for; half of it is granted.
    pub max_hurt_resistant_time: u16,
    /// Packets at least this many bytes long are compressed.
    pub compression_threshold: u32,
}

impl Global {
    /// A context at tick zero with the default compression threshold.
    pub fn new(max_hurt_resistant_time: u16) -> (global: Global)
        ensures
            global.tick == 0,
            global.max_hurt_resistant_time == max_hurt_resistant_time,
            global.compression_threshold == DEFAULT_COMPRESSION_THRESHOLD,
    {
        Global {
            tick: 0,
            max_hurt_resistant_time,
            compression_threshold: DEFAULT_COMPRESSION_THRESHOLD,
        }
    }

    /// The context after one more tick: the clock is one further, the
    /// configuration is as before.
    pub open spec fn next(self) -> Global {
        Global { tick: (self.tick + 1) as u64, ..self }
    }

    /// The context after `n` more ticks.
    pub open spec fn after_ticks(self, n: nat) -> Global
        decreases n,
    {
        if n == 0 {
            self
        } else {
            self.after_ticks((n - 1) as nat).next()
        }
    }

    /// Whether the ticks at which a hit at the current tick would end its
    /// cooldown and respawn its victim can still be held.
    pub open spec fn leaves_room_for_hit(self) -> bool {
        &&& self.tick + self.max_hurt_resistant_time / 2 <= u64::MAX
        &&& self.tick + RESPAWN_DELAY_TICKS <= u64::MAX
    }

    /// Whether the ticks at which a hit at the current tick would end its
    /// cooldown and respawn its victim can still be held.
    pub fn has_room_for_hit(&self) -> (room: bool)
        ensures
            room == self.leaves_room_for_hit(),
    {
        let cooldown: u64 = (self.max_hurt_resistant_time / 2) as u64;
        self.tick <= u64::MAX - cooldown && self.tick <= u64::MAX - RESPAWN_DELAY_TICKS
    }

    /// Advances the clock by one tick.
    pub fn advance(&mut self)
        requires
            old(self).tick < u64::MAX,
        ensures
            *final(self) == old(self).next(),
            final(self).tick == old(self).tick + 1,
    {
        self.tick = self.tick + 1;
    }
}

/// After `n` ticks the clock stands exactly `n` further than before the
/// first of them, and the configuration is untouched.
pub proof fn lemma_tick_counts_ticks(global: Global, n: nat)
    requires
        global.tick + n <= u64::MAX,
    ensures
        global.after_ticks(n).tick == global.tick + n,
        global.after_ticks(n).max_hurt_resistant_time == global.max_hurt_resistant_time,
        global.after_ticks(n).compression_threshold == global.compression_threshold,
    decreases n,
{
    if n > 0 {
        lemma_tick_counts_ticks(global, (n - 1) as nat);
    }
}

} // verus!
