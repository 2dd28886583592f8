use hyperion::components::vitals::{Absorption, Regeneration, Vitals, HEALTH_SCALE, MAX_HEALTH};
use hyperion::components::ImmuneStatus;
use hyperion::global::{Global, RESPAWN_DELAY_TICKS};

const MAX_HURT_RESISTANT_TIME: u16 = 20;

fn global_at(tick: u64) -> Global {
    let mut global = Global::new(MAX_HURT_RESISTANT_TIME);
    global.tick = tick;
    global
}

fn alive(health: u32, bonus_health: u32, end_tick: u64) -> Vitals {
    Vitals::Alive {
        health,
        absorption: Absorption { end_tick, bonus_health },
        regeneration: Regeneration { end_tick: 0, amount_per_tick: 0 },
    }
}

#[test]
fn alive_is_full_health_without_effects() {
    assert_eq!(Vitals::alive(), alive(MAX_HEALTH, 0, 0));
    assert_eq!(MAX_HEALTH, 20 * HEALTH_SCALE);
}

#[test]
fn damage_with_absorption() {
    let mut vitals = alive(20 * HEALTH_SCALE, 5 * HEALTH_SCALE, 100);
    let mut immune = ImmuneStatus { until: 0 };
    vitals.hurt(&global_at(10), 3 * HEALTH_SCALE, &mut immune);
    assert_eq!(vitals, alive(20 * HEALTH_SCALE, 2 * HEALTH_SCALE, 100));
    assert_eq!(immune.until, 10 + 20 / 2);
}

#[test]
fn damage_exceeding_absorption() {
    let mut vitals = alive(20 * HEALTH_SCALE, 5 * HEALTH_SCALE, 100);
    let mut immune = ImmuneStatus { until: 0 };
    vitals.hurt(&global_at(10), 7 * HEALTH_SCALE, &mut immune);
    assert_eq!(vitals, alive(18 * HEALTH_SCALE, 0, 100));
    assert_eq!(immune.until, 20);
}

#[test]
fn lethal_damage() {
    let mut vitals = alive(2 * HEALTH_SCALE, 0, 0);
    let mut immune = ImmuneStatus { until: 0 };
    vitals.hurt(&global_at(10), 5 * HEALTH_SCALE, &mut immune);
    assert_eq!(vitals, Vitals::Dead { respawn_tick: 10 + 100 });
    assert_eq!(RESPAWN_DELAY_TICKS, 100);
    assert_eq!(immune.until, 20);
}

#[test]
fn immunity_window() {
    let mut vitals = alive(20 * HEALTH_SCALE, 5 * HEALTH_SCALE, 100);
    let mut immune = ImmuneStatus { until: 0 };
    vitals.hurt(&global_at(10), 7 * HEALTH_SCALE, &mut immune);
    let vitals_before = vitals;
    let until = immune.until;
    vitals.hurt(&global_at(until - 1), 100 * HEALTH_SCALE, &mut immune);
    assert_eq!(vitals, vitals_before);
    assert_eq!(immune.until, until);
}

#[test]
fn damage_at_the_end_of_the_window_counts() {
    let mut vitals = alive(20 * HEALTH_SCALE, 0, 0);
    let mut immune = ImmuneStatus { until: 20 };
    vitals.hurt(&global_at(20), 4 * HEALTH_SCALE, &mut immune);
    assert_eq!(vitals, alive(16 * HEALTH_SCALE, 0, 0));
    assert_eq!(immune.until, 30);
}

#[test]
fn exact_damage_kills() {
    let mut vitals = alive(3 * HEALTH_SCALE, 0, 0);
    let mut immune = ImmuneStatus::default();
    vitals.hurt(&global_at(7), 3 * HEALTH_SCALE, &mut immune);
    assert_eq!(vitals, Vitals::Dead { respawn_tick: 107 });
}

#[test]
fn absorption_that_takes_the_whole_hit_leaves_health() {
    let mut vitals = alive(1, 5, 100);
    let mut immune = ImmuneStatus::default();
    vitals.hurt(&global_at(99), 5, &mut immune);
    assert_eq!(vitals, alive(1, 0, 100));
}

#[test]
fn expired_absorption_does_not_count() {
    let mut vitals = alive(20 * HEALTH_SCALE, 5 * HEALTH_SCALE, 100);
    let mut immune = ImmuneStatus::default();
    vitals.hurt(&global_at(100), 3 * HEALTH_SCALE, &mut immune);
    assert_eq!(vitals, alive(17 * HEALTH_SCALE, 5 * HEALTH_SCALE, 100));
}

#[test]
fn hurt_of_nothing_still_sets_cooldown() {
    let mut vitals = alive(20 * HEALTH_SCALE, 0, 0);
    let mut immune = ImmuneStatus { until: 5 };
    vitals.hurt(&global_at(5), 0, &mut immune);
    assert_eq!(vitals, alive(20 * HEALTH_SCALE, 0, 0));
    assert_eq!(immune.until, 15);
    assert!(immune.is_invincible(&global_at(14)));
    assert!(!immune.is_invincible(&global_at(15)));
}

#[test]
fn cooldown_is_half_rounded_down() {
    let mut global = Global::new(7);
    global.tick = 1000;
    let mut vitals = Vitals::alive();
    let mut immune = ImmuneStatus::default();
    vitals.hurt(&global, 1, &mut immune);
    assert_eq!(immune.until, 1003);
}

#[test]
fn hurting_a_corpse_sets_cooldown_only() {
    let mut vitals = Vitals::Dead { respawn_tick: 50 };
    let mut immune = ImmuneStatus { until: 0 };
    vitals.hurt(&global_at(10), 5 * HEALTH_SCALE, &mut immune);
    assert_eq!(vitals, Vitals::Dead { respawn_tick: 50 });
    assert_eq!(immune.until, 20);
}

#[test]
fn heal_adds_and_caps() {
    let mut vitals = alive(5 * HEALTH_SCALE, 1, 9);
    vitals.heal(3 * HEALTH_SCALE);
    assert_eq!(vitals, alive(8 * HEALTH_SCALE, 1, 9));
    vitals.heal(12 * HEALTH_SCALE);
    assert_eq!(vitals, alive(20 * HEALTH_SCALE, 1, 9));
    vitals.heal(u32::MAX);
    assert_eq!(vitals, alive(MAX_HEALTH, 1, 9));
}

#[test]
fn heal_leaves_the_dead_dead() {
    let mut vitals = Vitals::Dead { respawn_tick: 12 };
    vitals.heal(HEALTH_SCALE);
    assert_eq!(vitals, Vitals::Dead { respawn_tick: 12 });
}

#[test]
fn dead_respawn_when_their_tick_has_come() {
    let mut vitals = Vitals::Dead { respawn_tick: 110 };
    vitals.update(&global_at(109));
    assert_eq!(vitals, Vitals::Dead { respawn_tick: 110 });
    vitals.update(&global_at(110));
    assert_eq!(vitals, Vitals::alive());
}

#[test]
fn regeneration_heals_while_it_lasts() {
    let regeneration = Regeneration { end_tick: 12, amount_per_tick: 500 };
    let mut vitals = Vitals::Alive {
        health: 19_000,
        absorption: Absorption { end_tick: 0, bonus_health: 0 },
        regeneration,
    };
    vitals.update(&global_at(10));
    vitals.update(&global_at(11));
    vitals.update(&global_at(12));
    assert_eq!(
        vitals,
        Vitals::Alive {
            health: 20_000,
            absorption: Absorption { end_tick: 0, bonus_health: 0 },
            regeneration,
        }
    );
    let mut low = Vitals::Alive {
        health: 1_000,
        absorption: Absorption { end_tick: 0, bonus_health: 0 },
        regeneration,
    };
    low.update(&global_at(11));
    low.update(&global_at(12));
    assert_eq!(
        low,
        Vitals::Alive {
            health: 1_500,
            absorption: Absorption { end_tick: 0, bonus_health: 0 },
            regeneration,
        }
    );
}

#[test]
fn health_stays_in_range_through_a_fight() {
    let mut vitals = Vitals::alive();
    let mut immune = ImmuneStatus::default();
    let mut tick = 0;
    for round in 0..200u32 {
        tick += 7;
        vitals.hurt(&global_at(tick), (round % 9) * 700, &mut immune);
        if round % 3 == 0 {
            vitals.heal(1 + (round % 5) * 900);
        }
        vitals.update(&global_at(tick));
        if let Vitals::Alive { health, .. } = vitals {
            assert!(0 < health && health <= MAX_HEALTH);
        }
    }
}

#[test]
fn is_invincible_before_until_only() {
    let immune = ImmuneStatus { until: 10 };
    assert!(immune.is_invincible(&global_at(9)));
    assert!(!immune.is_invincible(&global_at(10)));
    assert!(!ImmuneStatus::default().is_invincible(&global_at(0)));
}

#[test]
fn tick_after_n_advances_is_n_further() {
    let mut global = Global::new(20);
    assert_eq!(global.tick, 0);
    assert_eq!(global.compression_threshold, 256);
    global.tick = 41;
    for _ in 0..1000 {
        global.advance();
    }
    assert_eq!(global.tick, 1041);
    assert_eq!(global.max_hurt_resistant_time, 20);
}

#[test]
fn room_for_a_hit_ends_near_the_last_tick() {
    assert!(global_at(0).has_room_for_hit());
    assert!(global_at(u64::MAX - 100).has_room_for_hit());
    assert!(!global_at(u64::MAX - 99).has_room_for_hit());
    let mut late = Global::new(u16::MAX);
    late.tick = u64::MAX - 32_767;
    assert!(late.has_room_for_hit());
    late.tick += 1;
    assert!(!late.has_room_for_hit());
}
