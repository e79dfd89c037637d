use mmsim::config::{GcStrategy, RuntimeConfig, Scheduler};
use mmsim::engine::{step, HeapState, StepOutcome, MARK_COMPACT_MAX_BITMAP_SIZE};
use mmsim::factor::GrowthFactor;
use mmsim::simulation::{simulate, SimulationResult};

const MIB: u64 = 1024 * 1024;
const GIB: u64 = 1024 * 1024 * 1024;

fn factor(value: f64) -> GrowthFactor {
    GrowthFactor::from_bits(value.to_bits())
}

fn small_config() -> RuntimeConfig {
    RuntimeConfig {
        gc_strategy: GcStrategy::Copying,
        scheduler: Scheduler::Old,
        num_calls: 1,
        allocation_rate: 1000,
        survival_rate: 50,
        growth_factor: factor(1.5),
        small_heap_delta: 10 * MIB,
        max_hp_for_gc: GIB,
    }
}

fn next_random(seed: &mut u64) -> u64 {
    *seed = seed
        .wrapping_mul(6364136223846793005)
        .wrapping_add(1442695040888963407);
    let mut word = *seed;
    word ^= word >> 33;
    word = word.wrapping_mul(0xff51afd7ed558ccd);
    word ^= word >> 29;
    word
}

/// The run computed in double-precision arithmetic, step by step.
fn by_hand(config: &RuntimeConfig) -> (Vec<u32>, Vec<u32>, bool) {
    let growth_factor = f64::from_bits(config.growth_factor.to_bits());
    let mut hp: Vec<u32> = vec![0];
    let mut high_water: Vec<u32> = vec![0];
    let mut last_hp: u32 = 0;
    let mut hp_: u32 = 0;
    let mut last_high_water: u32 = 0;
    for _ in 0..config.num_calls {
        let grown = (f64::from(last_hp) * growth_factor) as u64;
        let heap_limit = match config.scheduler {
            Scheduler::Old => grown
                .max(u64::from(last_hp).saturating_add(config.small_heap_delta))
                .min(config.max_hp_for_gc),
            Scheduler::New => {
                let max_live: u64 = match config.gc_strategy {
                    GcStrategy::MarkCompact => 4_164_816_771,
                    GcStrategy::Copying => 2 * 1024 * 1024 * 1024,
                };
                grown.min((u64::from(last_hp) + max_live) / 2)
            }
        };
        hp_ = match hp_.checked_add(config.allocation_rate) {
            Some(sum) => sum,
            None => return (hp, high_water, true),
        };
        if u64::from(hp_) >= heap_limit {
            let new_allocs = hp_ - last_hp;
            let new_live = (f64::from(new_allocs) * f64::from(config.survival_rate) / 100f64) as u32;
            let peak = match config.gc_strategy {
                GcStrategy::MarkCompact => hp_.checked_add(130_150_524),
                GcStrategy::Copying => hp_.checked_add(last_hp + new_live),
            };
            match peak {
                Some(peak) => last_high_water = last_high_water.max(peak),
                None => return (hp, high_water, true),
            }
            hp_ = last_hp + new_live;
            last_hp = hp_;
        } else {
            last_high_water = last_high_water.max(hp_);
        }
        high_water.push(last_high_water);
        hp.push(hp_);
    }
    (hp, high_water, false)
}

fn assert_as_by_hand(config: &RuntimeConfig) -> SimulationResult {
    let result = simulate(*config);
    let (hp, high_water, stopped_early) = by_hand(config);
    assert_eq!(result.hp, hp, "{:?}", config);
    assert_eq!(result.high_water, high_water, "{:?}", config);
    assert_eq!(result.stopped_early, stopped_early, "{:?}", config);
    result
}

#[test]
fn one_call_without_a_collection() {
    let config = small_config();
    let result = simulate(config);
    assert_eq!(result.hp, vec![0, 1000]);
    assert_eq!(result.high_water, vec![0, 1000]);
    assert!(!result.stopped_early);
}

#[test]
fn one_call_with_a_collection() {
    let mut config = small_config();
    config.max_hp_for_gc = 500;
    let result = simulate(config);
    assert_eq!(result.hp, vec![0, 500]);
    assert_eq!(result.high_water, vec![0, 1500]);
    assert!(!result.stopped_early);
}

#[test]
fn one_call_with_a_mark_compact_collection() {
    let mut config = small_config();
    config.max_hp_for_gc = 500;
    config.gc_strategy = GcStrategy::MarkCompact;
    let result = simulate(config);
    assert_eq!(result.hp, vec![0, 500]);
    assert_eq!(result.high_water, vec![0, 130_151_524]);
    assert!(!result.stopped_early);
}

#[test]
fn no_calls() {
    let mut config = small_config();
    config.num_calls = 0;
    let result = simulate(config);
    assert_eq!(result.hp, vec![0]);
    assert_eq!(result.high_water, vec![0]);
    assert!(!result.stopped_early);
}

#[test]
fn no_allocation() {
    let mut config = small_config();
    config.num_calls = 4;
    config.allocation_rate = 0;
    let result = simulate(config);
    assert_eq!(result.hp, vec![0, 0, 0, 0, 0]);
    assert_eq!(result.high_water, vec![0, 0, 0, 0, 0]);
    config.scheduler = Scheduler::New;
    let result = simulate(config);
    assert_eq!(result.hp, vec![0, 0, 0, 0, 0]);
    assert_eq!(result.high_water, vec![0, 0, 0, 0, 0]);
    config.gc_strategy = GcStrategy::MarkCompact;
    let result = simulate(config);
    assert_eq!(result.hp, vec![0, 0, 0, 0, 0]);
    assert_eq!(result.high_water, vec![0, 130_150_524, 130_150_524, 130_150_524, 130_150_524]);
}

#[test]
fn several_calls_under_the_old_scheduler() {
    let mut config = small_config();
    config.num_calls = 6;
    config.small_heap_delta = 2500;
    let result = simulate(config);
    // The limit is 2500 until the first collection, which leaves 1500 bytes;
    // then it is 4000.
    assert_eq!(result.hp, vec![0, 1000, 2000, 1500, 2500, 3500, 3000]);
    assert_eq!(result.high_water, vec![0, 1000, 2000, 4500, 4500, 4500, 7500]);
    assert!(!result.stopped_early);
}

#[test]
fn several_calls_under_the_new_scheduler() {
    let mut config = small_config();
    config.num_calls = 5;
    config.scheduler = Scheduler::New;
    let result = simulate(config);
    // The limit is 1.5 times the heap after the last collection: 0, 750,
    // 1500, 2250, 3000. Every call reaches it.
    assert_eq!(result.hp, vec![0, 500, 1000, 1500, 2000, 2500]);
    assert_eq!(result.high_water, vec![0, 1500, 2500, 3500, 4500, 5500]);
    assert!(!result.stopped_early);
}

#[test]
fn several_calls_with_a_mark_compact_collector() {
    let mut config = small_config();
    config.num_calls = 6;
    config.small_heap_delta = 2500;
    config.gc_strategy = GcStrategy::MarkCompact;
    let result = simulate(config);
    assert_eq!(result.hp, vec![0, 1000, 2000, 1500, 2500, 3500, 3000]);
    assert_eq!(
        result.high_water,
        vec![0, 1000, 2000, 130_153_524, 130_153_524, 130_153_524, 130_155_024]
    );
}

#[test]
fn the_series_are_aligned_and_start_at_zero() {
    let mut seed: u64 = 0x0F1E_2D3C_4B5A_6978;
    for _ in 0..300 {
        let config = random_config(&mut seed);
        let result = assert_as_by_hand(&config);
        assert_eq!(result.hp.len(), result.high_water.len());
        assert!(result.hp.len() >= 1);
        assert!(result.hp.len() <= config.num_calls as usize + 1);
        assert_eq!(result.stopped_early, result.hp.len() <= config.num_calls as usize);
        assert_eq!(result.hp[0], 0);
        assert_eq!(result.high_water[0], 0);
    }
}

fn random_config(seed: &mut u64) -> RuntimeConfig {
    let word = next_random(seed);
    RuntimeConfig {
        gc_strategy: if word & 1 == 0 { GcStrategy::Copying } else { GcStrategy::MarkCompact },
        scheduler: if word & 2 == 0 { Scheduler::Old } else { Scheduler::New },
        num_calls: ((word >> 8) % 400) as u32,
        allocation_rate: next_random(seed) as u32 >> (word >> 24) % 32,
        survival_rate: ((word >> 32) % 101) as u32,
        growth_factor: factor(0.25 + (next_random(seed) % 3_000_000) as f64 / 1_000_000.0),
        small_heap_delta: next_random(seed) >> 24 + (word >> 40) % 40,
        max_hp_for_gc: next_random(seed) >> 24 + (word >> 48) % 40,
    }
}

#[test]
fn high_water_never_falls() {
    let mut seed: u64 = 0x1122_3344_5566_7788;
    for _ in 0..300 {
        let config = random_config(&mut seed);
        let result = simulate(config);
        for pair in result.high_water.windows(2) {
            assert!(pair[0] <= pair[1], "{:?}", config);
        }
        for (hp, high_water) in result.hp.iter().zip(result.high_water.iter()) {
            assert!(hp <= high_water, "{:?}", config);
        }
    }
    let result = simulate(RuntimeConfig::default());
    for pair in result.high_water.windows(2) {
        assert!(pair[0] <= pair[1]);
    }
}

/// Replays a run call by call and hands each call's state before, its
/// outcome and its index to `check`.
fn replay(config: &RuntimeConfig, result: &SimulationResult, check: &dyn Fn(HeapState, StepOutcome, usize)) {
    let mut state = HeapState::new();
    for i in 1..=config.num_calls as usize {
        let outcome = step(config, state);
        check(state, outcome, i);
        match outcome.state() {
            Some(next) => {
                assert_eq!(result.hp[i], next.hp);
                assert_eq!(result.high_water[i], next.high_water);
                state = next;
            }
            None => {
                assert_eq!(result.hp.len(), i);
                assert!(result.stopped_early);
                return;
            }
        }
    }
    assert_eq!(result.hp.len(), config.num_calls as usize + 1);
    assert!(!result.stopped_early);
}

#[test]
fn a_call_without_a_collection_adds_the_allocation() {
    let mut seed: u64 = 0x8877_6655_4433_2211;
    for round in 0..300 {
        let mut config = random_config(&mut seed);
        if round % 2 == 0 {
            config.scheduler = Scheduler::Old;
        }
        let result = simulate(config);
        replay(&config, &result, &|_, outcome, i| {
            if let StepOutcome::Accumulated(_) = outcome {
                assert_eq!(
                    u64::from(result.hp[i]),
                    u64::from(result.hp[i - 1]) + u64::from(config.allocation_rate)
                );
            }
        });
    }
    let mut config = small_config();
    config.num_calls = 3;
    let result = simulate(config);
    assert_eq!(result.hp, vec![0, 1000, 2000, 3000]);
    assert_eq!(result.high_water, vec![0, 1000, 2000, 3000]);
}

#[test]
fn a_call_with_a_collection_keeps_the_live_part() {
    let mut seed: u64 = 0xA5A5_5A5A_C3C3_3C3C;
    for _ in 0..300 {
        let config = random_config(&mut seed);
        let result = simulate(config);
        replay(&config, &result, &|before, outcome, i| {
            if let StepOutcome::Collected(after) = outcome {
                let new_allocs = result.hp[i - 1] + config.allocation_rate - before.last_hp;
                let new_live = result.hp[i] - before.last_hp;
                assert!(new_live <= new_allocs);
                assert_eq!(
                    u64::from(new_live),
                    u64::from(new_allocs) * u64::from(config.survival_rate) / 100
                );
                assert_eq!(after.last_hp, result.hp[i]);
            }
        });
    }
}

#[test]
fn nothing_survives_at_a_rate_of_zero() {
    let mut config = small_config();
    config.num_calls = 7;
    config.survival_rate = 0;
    config.small_heap_delta = 2500;
    let result = simulate(config);
    assert_eq!(result.hp, vec![0, 1000, 2000, 0, 1000, 2000, 0, 1000]);
    assert_eq!(result.high_water, vec![0, 1000, 2000, 3000, 3000, 3000, 3000, 3000]);
    let mut seed: u64 = 0x0BAD_CAFE_0DEF_ACED;
    for _ in 0..300 {
        let mut config = random_config(&mut seed);
        config.survival_rate = 0;
        let result = simulate(config);
        replay(&config, &result, &|before, outcome, i| {
            assert_eq!(before.last_hp, 0);
            if let StepOutcome::Collected(_) = outcome {
                assert_eq!(result.hp[i], 0);
            }
        });
    }
}

#[test]
fn everything_survives_at_a_rate_of_a_hundred() {
    let mut config = small_config();
    config.num_calls = 5;
    config.survival_rate = 100;
    config.small_heap_delta = 2500;
    let result = simulate(config);
    assert_eq!(result.hp, vec![0, 1000, 2000, 3000, 4000, 5000]);
    assert_eq!(result.high_water, vec![0, 1000, 2000, 6000, 6000, 6000]);
    let mut seed: u64 = 0xFEED_FACE_DEAD_BEEF;
    for _ in 0..300 {
        let mut config = random_config(&mut seed);
        config.survival_rate = 100;
        let result = simulate(config);
        for pair in result.hp.windows(2) {
            assert!(pair[0] <= pair[1], "{:?}", config);
        }
    }
}

#[test]
fn collectors_differ_by_the_bitmap_less_the_copy() {
    // One collection on the same heap under both collectors.
    let mut copying = small_config();
    copying.max_hp_for_gc = 500;
    let mut mark_compact = copying;
    mark_compact.gc_strategy = GcStrategy::MarkCompact;
    let with_copy = simulate(copying);
    let with_bitmap = simulate(mark_compact);
    assert_eq!(with_copy.hp, with_bitmap.hp);
    let last_hp_and_new_live: u32 = 0 + 500;
    assert_eq!(
        i64::from(with_bitmap.high_water[1]) - i64::from(with_copy.high_water[1]),
        i64::from(MARK_COMPACT_MAX_BITMAP_SIZE) - i64::from(last_hp_and_new_live)
    );
    assert_eq!(with_bitmap.high_water[1] - with_copy.high_water[1], 130_150_024);
}

#[test]
fn the_run_stops_when_the_copy_does_not_fit() {
    let mut config = small_config();
    config.num_calls = 10;
    config.allocation_rate = 1_000_000_000;
    config.small_heap_delta = 0;
    config.max_hp_for_gc = 3_000_000_000;
    config.survival_rate = 100;
    let result = simulate(config);
    // Every call collects, and all data survives. The third collection runs
    // on a heap of 3_000_000_000 bytes, all of them live: the copy does not
    // fit.
    assert_eq!(result.hp, vec![0, 1_000_000_000, 2_000_000_000]);
    assert_eq!(result.high_water, vec![0, 2_000_000_000, 4_000_000_000]);
    assert!(result.stopped_early);
    assert_as_by_hand(&config);
}

#[test]
fn the_run_stops_when_the_bitmap_does_not_fit() {
    let mut config = small_config();
    config.gc_strategy = GcStrategy::MarkCompact;
    config.num_calls = 10;
    config.allocation_rate = 1_400_000_000;
    config.small_heap_delta = 4_200_000_000;
    config.max_hp_for_gc = 4_200_000_000;
    let result = simulate(config);
    // The third call brings the heap to 4_200_000_000, which is the limit;
    // with the bitmap that is beyond 32 bits.
    assert_eq!(result.hp, vec![0, 1_400_000_000, 2_800_000_000]);
    assert_eq!(result.high_water, vec![0, 1_400_000_000, 2_800_000_000]);
    assert!(result.stopped_early);
    assert_as_by_hand(&config);
}

#[test]
fn the_run_stops_when_the_heap_pointer_does_not_fit() {
    let mut config = small_config();
    config.num_calls = 10;
    config.allocation_rate = 1_000_000_000;
    config.small_heap_delta = u64::MAX;
    config.max_hp_for_gc = u64::MAX;
    let result = simulate(config);
    assert_eq!(result.hp, vec![0, 1_000_000_000, 2_000_000_000, 3_000_000_000, 4_000_000_000]);
    assert_eq!(result.high_water, vec![0, 1_000_000_000, 2_000_000_000, 3_000_000_000, 4_000_000_000]);
    assert!(result.stopped_early);
    config.num_calls = 4;
    let result = simulate(config);
    assert_eq!(result.hp.len(), 5);
    assert!(!result.stopped_early);
}

#[test]
fn the_default_run() {
    let config = RuntimeConfig::default();
    let result = assert_as_by_hand(&config);
    // Half of what is allocated stays live: after 42_949 calls the heap and
    // its copy no longer fit into 32 bits together.
    assert_eq!(result.hp.len(), 42_949);
    assert!(result.stopped_early);
    assert_eq!(result.hp[42_948], 2_147_450_000);
    assert_eq!(result.high_water[42_948], 4_294_850_000);
    // 10 MiB are reached with the 105th call.
    assert_eq!(result.hp[104], 10_400_000);
    assert_eq!(result.high_water[104], 10_400_000);
    assert_eq!(result.hp[105], 5_250_000);
    assert_eq!(result.high_water[105], 15_750_000);
    assert_eq!(result.hp[106], 5_350_000);
    assert_eq!(result.high_water[106], 15_750_000);
}

#[test]
fn the_default_run_under_every_policy() {
    for scheduler in [Scheduler::Old, Scheduler::New] {
        for gc_strategy in [GcStrategy::Copying, GcStrategy::MarkCompact] {
            for survival_rate in [0u32, 1, 50, 99, 100] {
                let mut config = RuntimeConfig::default();
                config.num_calls = 20_000;
                config.scheduler = scheduler;
                config.gc_strategy = gc_strategy;
                config.survival_rate = survival_rate;
                assert_as_by_hand(&config);
            }
        }
    }
}

#[test]
fn runs_with_unusual_growth_factors() {
    let factors = [
        0.0,
        -1.5,
        0.3,
        1.0,
        1.000_000_1,
        1.1,
        2.0,
        3.7,
        1e10,
        1e300,
        f64::INFINITY,
        f64::NEG_INFINITY,
        f64::NAN,
        f64::MIN_POSITIVE,
    ];
    for growth_factor in factors {
        for scheduler in [Scheduler::Old, Scheduler::New] {
            for gc_strategy in [GcStrategy::Copying, GcStrategy::MarkCompact] {
                let mut config = RuntimeConfig::default();
                config.num_calls = 5_000;
                config.allocation_rate = 1_234_567;
                config.survival_rate = 37;
                config.scheduler = scheduler;
                config.gc_strategy = gc_strategy;
                config.growth_factor = factor(growth_factor);
                assert_as_by_hand(&config);
            }
        }
    }
}
