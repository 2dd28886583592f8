//! Health, absorption and regeneration, and the Alive/Dead state machine.
//!
//! Health is fixed-point: `HEALTH_SCALE` units make one half heart, so that
//! every sum and difference below is exact.

use vstd::prelude::*;

use crate::components::ImmuneStatus;
use crate::global::{Global, RESPAWN_DELAY_TICKS};

verus! {

/// Health units per half heart.
pub const HEALTH_SCALE: u32 = 1000;

/// Full health: twenty half hearts.
pub const MAX_HEALTH: u32 = 20000;

/// Bonus health that soaks up damage before the health pool does.
#[derive(Clone, Copy, Debug, PartialEq, Eq, Structural)]
pub struct Absorption {
    /// The first tick at which the bonus no longer counts.
    pub end_tick: u64,
    /// What is left of the bonus, in health units.
    pub bonus_health: u32,
}

/// Health regained on every tick while the effect lasts.
#[derive(Clone, Copy, Debug, PartialEq, Eq, Structural)]
pub struct Regeneration {
    /// The first tick at which nothing is regained any more.
    pub end_tick: u64,
    /// Health units regained per tick.
    pub amount_per_tick: u32,
}

impl Absorption {
    /// No bonus, already expired.
    pub open spec fn none() -> Absorption {
        Absorption { end_tick: 0, bonus_health: 0 }
    }

    /// Whether the bonus still counts at `tick`.
    pub open spec fn active_at(self, tick: u64) -> bool {
        tick < self.end_tick
    }

    /// The part of `amount` that the bonus soaks up at `tick`.
    pub open spec fn absorbed(self, tick: u64, amount: u32) -> u32 {
        if !self.active_at(tick) {
            0
        } else if amount > self.bonus_health {
            self.bonus_health
        } else {
            amount
        }
    }

    /// The bonus after it has soaked up its part of `amount` at `tick`.
    pub open spec fn after_hit(self, tick: u64, amount: u32) -> Absorption {
        Absorption {
            end_tick: self.end_tick,
            bonus_health: (self.bonus_health - self.absorbed(tick, amount)) as u32,
        }
    }
}

impl Regeneration {
    /// Nothing regained, already expired.
    pub open spec fn none() -> Regeneration {
        Regeneration { end_tick: 0, amount_per_tick: 0 }
    }
}

/// Whether an entity lives, and how well.
#[derive(Clone, Copy, Debug, PartialEq, Eq, Structural)]
pub enum Vitals {
    /// The entity is alive.
    Alive {
        /// Health units left, `HEALTH_SCALE` to the half heart.
        health: u32,
        /// The absorption effect.
        absorption: Absorption,
        /// The regeneration effect.
        regeneration: Regeneration,
    },
    /// The entity is dead.
    Dead {
        /// The tick at which the entity is respawned.
        respawn_tick: u64,
    },
}

/// `health + amount`, capped at full health.
pub open spec fn healed(health: u32, amount: u32) -> u32 {
    if health + amount >= MAX_HEALTH {
        MAX_HEALTH
    } else {
        (health + amount) as u32
    }
}

impl Vitals {
    /// Alive at full health, with no effects.
    pub open spec fn full() -> Vitals {
        Vitals::Alive {
            health: MAX_HEALTH,
            absorption: Absorption::none(),
            regeneration: Regeneration::none(),
        }
    }

    /// A living entity has some health, and no more than full health.
    pub open spec fn wf(self) -> bool {
        self matches Vitals::Alive { health, .. } ==> 0 < health <= MAX_HEALTH
    }

    /// The state after healing by `amount`: the dead stay as they are.
    pub open spec fn heal_spec(self, amount: u32) -> Vitals {
        match self {
            Vitals::Alive { health, absorption, regeneration } => Vitals::Alive {
                health: healed(health, amount),
                absorption,
                regeneration,
            },
            Vitals::Dead { .. } => self,
        }
    }

    /// The state after a hit of `amount` that was not ignored and that met a
    /// living entity or a corpse at `tick`.
    ///
    /// What the absorption bonus soaks up never reaches the health pool. A hit
    /// that the bonus soaks up whole leaves the health untouched; otherwise the
    /// rest is taken from the health, and an entity left without health dies.
    pub open spec fn damaged(self, tick: u64, amount: u32) -> Vitals {
        match self {
            Vitals::Alive { health, absorption, regeneration } => {
                let rest = amount - absorption.absorbed(tick, amount);
                if absorption.active_at(tick) && rest == 0 {
                    Vitals::Alive {
                        health,
                        absorption: absorption.after_hit(tick, amount),
                        regeneration,
                    }
                } else if rest >= health {
                    Vitals::Dead { respawn_tick: (tick + RESPAWN_DELAY_TICKS) as u64 }
                } else {
                    Vitals::Alive {
                        health: (health - rest) as u32,
                        absorption: absorption.after_hit(tick, amount),
                        regeneration,
                    }
                }
            },
            Vitals::Dead { .. } => self,
        }
    }

    /// The state and the immunity after `hurt` at `tick`.
    ///
    /// Inside the immunity window nothing changes. Past it the cooldown is set
    /// first, whatever the hit then does, even to a corpse.
    pub open spec fn hurt_spec(
        self,
        tick: u64,
        max_hurt_resistant_time: u16,
        amount: u32,
        immune: ImmuneStatus,
    ) -> (Vitals, ImmuneStatus) {
        if tick < immune.until {
            (self, immune)
        } else {
            (
                self.damaged(tick, amount),
                ImmuneStatus { until: (tick + max_hurt_resistant_time / 2) as u64 },
            )
        }
    }

    /// The state after the per-tick update at `tick`: the dead respawn at full
    /// health once their tick has come, the living regain health while
    /// regeneration lasts.
    pub open spec fn update_spec(self, tick: u64) -> Vitals {
        match self {
            Vitals::Alive { health, absorption, regeneration } => if tick < regeneration.end_tick {
                Vitals::Alive {
                    health: healed(health, regeneration.amount_per_tick),
                    absorption,
                    regeneration,
                }
            } else {
                self
            },
            Vitals::Dead { respawn_tick } => if tick >= respawn_tick {
                Vitals::full()
            } else {
                self
            },
        }
    }

    /// Alive at full health, with no effects.
    pub fn alive() -> (vitals: Vitals)
        ensures
            vitals == Vitals::full(),
            vitals.wf(),
    {
        Vitals::Alive {
            health: MAX_HEALTH,
            absorption: Absorption { end_tick: 0, bonus_health: 0 },
            regeneration: Regeneration { end_tick: 0, amount_per_tick: 0 },
        }
    }

    /// Heals a living entity by `amount`, up to full health.
    pub fn heal(&mut self, amount: u32)
        requires
            amount > 0,
        ensures
            *final(self) == old(self).heal_spec(amount),
            old(self).wf() ==> final(self).wf(),
    {
        match *self {
            Vitals::Alive { health, absorption, regeneration } => {
                *self = Vitals::Alive {
                    health: capped_sum(health, amount),
                    absorption,
                    regeneration,
                };
            },
            Vitals::Dead { .. } => {},
        }
    }

    /// Hurts the entity by `amount` at the context's tick.
    pub fn hurt(&mut self, global: &Global, amount: u32, immune: &mut ImmuneStatus)
        requires
            global.tick >= old(immune).until ==> global.leaves_room_for_hit(),
        ensures
            (*final(self), *final(immune)) == old(self).hurt_spec(
                global.tick,
                global.max_hurt_resistant_time,
                amount,
                *old(immune),
            ),
            global.tick >= old(immune).until ==> final(immune).until == global.tick
                + global.max_hurt_resistant_time / 2,
            old(self).wf() ==> final(self).wf(),
    {
        let tick = global.tick;
        if tick < immune.until {
            return ;
        }
        immune.until = tick + (global.max_hurt_resistant_time / 2) as u64;

        match *self {
            Vitals::Alive { health, absorption, regeneration } => {
                let mut rest = amount;
                let mut bonus = absorption.bonus_health;
                if tick < absorption.end_tick {
                    if amount > bonus {
                        rest = amount - bonus;
                        bonus = 0;
                    } else {
                        *self = Vitals::Alive {
                            health,
                            absorption: Absorption {
                                end_tick: absorption.end_tick,
                                bonus_health: bonus - amount,
                            },
                            regeneration,
                        };
                        return ;
                    }
                }
                if rest >= health {
                    *self = Vitals::Dead { respawn_tick: tick + RESPAWN_DELAY_TICKS };
                } else {
                    *self = Vitals::Alive {
                        health: health - rest,
                        absorption: Absorption {
                            end_tick: absorption.end_tick,
                            bonus_health: bonus,
                        },
                        regeneration,
                    };
                }
            },
            Vitals::Dead { .. } => {},
        }
    }

    /// The per-tick update: respawn when due, regenerate while the effect lasts.
    pub fn update(&mut self, global: &Global)
        ensures
            *final(self) == old(self).update_spec(global.tick),
            old(self).wf() ==> final(self).wf(),
    {
        let tick = global.tick;
        match *self {
            Vitals::Alive { health, absorption, regeneration } => {
                if tick < regeneration.end_tick {
                    *self = Vitals::Alive {
                        health: capped_sum(health, regeneration.amount_per_tick),
                        absorption,
                        regeneration,
                    };
                }
            },
            Vitals::Dead { respawn_tick } => {
                if tick >= respawn_tick {
                    *self = Vitals::alive();
                }
            },
        }
    }
}

/// One operation on an entity's vitals, with everything it reads.
pub enum VitalsOp {
    /// `heal` by `amount`.
    Heal { amount: u32 },
    /// `hurt` by `amount` at `tick`.
    Hurt { tick: u64, max_hurt_resistant_time: u16, amount: u32 },
    /// The per-tick update at `tick`.
    Update { tick: u64 },
}

impl VitalsOp {
    /// The vitals and the immunity after this operation.
    pub open spec fn apply(self, state: (Vitals, ImmuneStatus)) -> (Vitals, ImmuneStatus) {
        match self {
            VitalsOp::Heal { amount } => (state.0.heal_spec(amount), state.1),
            VitalsOp::Hurt { tick, max_hurt_resistant_time, amount } => state.0.hurt_spec(
                tick,
                max_hurt_resistant_time,
                amount,
                state.1,
            ),
            VitalsOp::Update { tick } => (state.0.update_spec(tick), state.1),
        }
    }
}

/// The vitals and the immunity after `ops`, applied in order to `start`.
pub open spec fn run_ops(start: (Vitals, ImmuneStatus), ops: Seq<VitalsOp>) -> (
    Vitals,
    ImmuneStatus,
)
    decreases ops.len(),
{
    if ops.len() == 0 {
        start
    } else {
        ops.last().apply(run_ops(start, ops.drop_last()))
    }
}

/// Whatever is done to an entity, in whatever order, while it is alive its
/// health is above zero and at most full health.
pub proof fn lemma_alive_health_in_range(start: (Vitals, ImmuneStatus), ops: Seq<VitalsOp>)
    requires
        start.0.wf(),
    ensures
        run_ops(start, ops).0.wf(),
        run_ops((Vitals::full(), ImmuneStatus { until: 0 }), ops).0.wf(),
    decreases ops.len(),
{
    if ops.len() > 0 {
        lemma_alive_health_in_range(start, ops.drop_last());
    }
}

/// A hit outside the immunity window sets the cooldown to half the
/// configured time from now, whoever is hit and however hard.
pub proof fn lemma_hurt_sets_cooldown(
    vitals: Vitals,
    tick: u64,
    max_hurt_resistant_time: u16,
    amount: u32,
    immune: ImmuneStatus,
)
    requires
        tick >= immune.until,
        tick + max_hurt_resistant_time / 2 <= u64::MAX,
    ensures
        vitals.hurt_spec(tick, max_hurt_resistant_time, amount, immune).1.until == tick
            + max_hurt_resistant_time / 2,
{
}

/// A hit of nothing outside the immunity window still sets the cooldown:
/// where the configured time is at least two ticks, a second such hit at the
/// same tick is ignored, so `hurt` is not idempotent.
pub proof fn lemma_hurt_zero_sets_cooldown(
    vitals: Vitals,
    tick: u64,
    max_hurt_resistant_time: u16,
    immune: ImmuneStatus,
)
    requires
        tick >= immune.until,
        tick + max_hurt_resistant_time / 2 <= u64::MAX,
    ensures
        ({
            let once = vitals.hurt_spec(tick, max_hurt_resistant_time, 0, immune);
            &&& once.1.until == tick + max_hurt_resistant_time / 2
            &&& max_hurt_resistant_time >= 2 ==> once.1 != immune
            &&& max_hurt_resistant_time >= 2 ==> once.0.hurt_spec(
                tick,
                max_hurt_resistant_time,
                0,
                once.1,
            ) == once
        }),
{
}

/// Healing a living entity adds the amount to its health and caps the sum at
/// full health; nothing else changes.
pub proof fn lemma_heal_adds_up_to_full(vitals: Vitals, amount: u32)
    requires
        vitals is Alive,
    ensures
        vitals.heal_spec(amount) is Alive,
        vitals.heal_spec(amount)->health == if vitals->health + amount <= MAX_HEALTH {
            vitals->health + amount
        } else {
            MAX_HEALTH as int
        },
        vitals.heal_spec(amount)->absorption == vitals->absorption,
        vitals.heal_spec(amount)->regeneration == vitals->regeneration,
{
}

/// `health + amount`, capped at full health, without overflow.
fn capped_sum(health: u32, amount: u32) -> (sum: u32)
    ensures
        sum == healed(health, amount),
{
    if health >= MAX_HEALTH || amount >= MAX_HEALTH - health {
        MAX_HEALTH
    } else {
        health + amount
    }
}

} // verus!
