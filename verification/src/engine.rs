//! One call of the simulated program: the collection trigger, what a
//! collection leaves live, what it costs in memory, and the state after it.

use crate::config::{GcStrategy, RuntimeConfig, Scheduler, MAX_SURVIVAL_RATE};
use vstd::math::{max, min};
use vstd::prelude::*;

verus! {

/// The most live data that a copying collector can handle: 2 GiB.
pub const COPYING_MAX_LIVE: u64 = 2_147_483_648;

/// The most live data that a mark-compact collector can handle: the largest
/// `x` for which `x` and a mark bitmap of one bit for every 32 bytes of it
/// fit into 4 GiB together.
pub const MARK_COMPACT_MAX_LIVE: u64 = 4_164_816_771;

/// The size of the mark bitmap for `MARK_COMPACT_MAX_LIVE` bytes.
pub const MARK_COMPACT_MAX_BITMAP_SIZE: u32 = 130_150_524;

/// The heap between two calls.
#[derive(Debug, Clone, Copy, PartialEq, Eq, Structural)]
pub struct HeapState {
    /// The heap pointer right after the most recent collection.
    pub last_hp: u32,
    /// The heap pointer now.
    pub hp: u32,
    /// The largest memory footprint so far, collections included.
    pub high_water: u32,
}

/// What one call did to the heap.
#[derive(Debug, Clone, Copy, PartialEq, Eq, Structural)]
pub enum StepOutcome {
    /// No collection was due: the heap grew by the allocation.
    Accumulated(HeapState),
    /// A collection ran after the allocation.
    Collected(HeapState),
    /// The heap pointer or the footprint of the collection is beyond 32
    /// bits: the run ends before this call.
    Overflowed,
}

impl HeapState {
    /// Nothing was allocated after the last collection that is not counted
    /// in the heap pointer, and the footprint covers the heap.
    pub open spec fn well_formed(&self) -> bool {
        self.last_hp <= self.hp <= self.high_water
    }

    /// The empty heap.
    pub open spec fn spec_new() -> HeapState {
        HeapState { last_hp: 0, hp: 0, high_water: 0 }
    }

    /// The heap before the first call.
    pub fn new() -> (state: HeapState)
        ensures
            state == Self::spec_new(),
            state.well_formed(),
    {
        HeapState { last_hp: 0, hp: 0, high_water: 0 }
    }
}

impl StepOutcome {
    /// The state after the call, if the run goes on.
    pub open spec fn spec_state(&self) -> Option<HeapState> {
        match *self {
            StepOutcome::Accumulated(state) => Some(state),
            StepOutcome::Collected(state) => Some(state),
            StepOutcome::Overflowed => None,
        }
    }

    /// The state after the call, if the run goes on.
    pub fn state(&self) -> (state: Option<HeapState>)
        ensures
            state == self.spec_state(),
    {
        match *self {
            StepOutcome::Accumulated(state) => Some(state),
            StepOutcome::Collected(state) => Some(state),
            StepOutcome::Overflowed => None,
        }
    }
}

/// The most live data that the collector can handle.
pub open spec fn spec_max_live(strategy: GcStrategy) -> u64 {
    match strategy {
        GcStrategy::MarkCompact => MARK_COMPACT_MAX_LIVE,
        GcStrategy::Copying => COPYING_MAX_LIVE,
    }
}

/// The heap size from which on a collection is due, when the heap pointer
/// was `last_hp` after the last one.
///
/// The old scheduler lets the heap grow by the growth factor, by
/// `small_heap_delta` at least, and not beyond `max_hp_for_gc`. The new one
/// lets it grow by the growth factor, and not beyond the middle between
/// `last_hp` and the collector's live-data ceiling.
pub open spec fn spec_heap_limit(config: RuntimeConfig, last_hp: u32) -> u64 {
    let grown = config.growth_factor.spec_scale(last_hp) as int;
    match config.scheduler {
        Scheduler::Old => min(
            max(grown, last_hp + config.small_heap_delta),
            config.max_hp_for_gc as int,
        ) as u64,
        Scheduler::New => min(grown, (last_hp + spec_max_live(config.gc_strategy)) / 2) as u64,
    }
}

/// The part of `new_allocs` bytes that survives a collection, rounded down.
pub open spec fn spec_new_live(new_allocs: int, survival_rate: int) -> int {
    new_allocs * survival_rate / 100
}

/// The memory in use while a collection runs on a heap of `hp` bytes of
/// which the first `last_hp` were live before and `new_live` more are now.
///
/// A copying collector holds the heap and a copy of what is live. A
/// mark-compact collector holds the heap and the mark bitmap.
pub open spec fn spec_transient_peak(
    strategy: GcStrategy,
    hp: int,
    last_hp: int,
    new_live: int,
) -> int {
    match strategy {
        GcStrategy::Copying => hp + last_hp + new_live,
        GcStrategy::MarkCompact => hp + MARK_COMPACT_MAX_BITMAP_SIZE,
    }
}

/// Whether the next call ends in a collection.
pub open spec fn spec_collection_due(config: RuntimeConfig, state: HeapState) -> bool {
    state.hp + config.allocation_rate >= spec_heap_limit(config, state.last_hp)
}

/// The next call: the program allocates, and the collector runs if the heap
/// has reached its limit.
pub open spec fn spec_step(config: RuntimeConfig, state: HeapState) -> StepOutcome {
    let hp = state.hp + config.allocation_rate;
    if hp > u32::MAX {
        StepOutcome::Overflowed
    } else if spec_collection_due(config, state) {
        let new_live = spec_new_live(hp - state.last_hp, config.survival_rate as int);
        let peak = spec_transient_peak(config.gc_strategy, hp, state.last_hp as int, new_live);
        if peak > u32::MAX {
            StepOutcome::Overflowed
        } else {
            StepOutcome::Collected(
                HeapState {
                    last_hp: (state.last_hp + new_live) as u32,
                    hp: (state.last_hp + new_live) as u32,
                    high_water: max(state.high_water as int, peak) as u32,
                },
            )
        }
    } else {
        StepOutcome::Accumulated(
            HeapState {
                last_hp: state.last_hp,
                hp: hp as u32,
                high_water: max(state.high_water as int, hp) as u32,
            },
        )
    }
}

/// The most live data that the collector can handle.
pub fn max_live(strategy: GcStrategy) -> (bytes: u64)
    ensures
        bytes == spec_max_live(strategy),
{
    match strategy {
        GcStrategy::MarkCompact => MARK_COMPACT_MAX_LIVE,
        GcStrategy::Copying => COPYING_MAX_LIVE,
    }
}

/// The heap size from which on a collection is due.
pub fn heap_limit(config: &RuntimeConfig, last_hp: u32) -> (limit: u64)
    ensures
        limit == spec_heap_limit(*config, last_hp),
{
    let grown: u64 = config.growth_factor.scale(last_hp);
    match config.scheduler {
        Scheduler::Old => {
            let by_delta: u64 = (last_hp as u64).saturating_add(config.small_heap_delta);
            let wanted: u64 = if grown >= by_delta {
                grown
            } else {
                by_delta
            };
            if wanted <= config.max_hp_for_gc {
                wanted
            } else {
                config.max_hp_for_gc
            }
        },
        Scheduler::New => {
            let half_way: u64 = (last_hp as u64 + max_live(config.gc_strategy)) / 2;
            if grown <= half_way {
                grown
            } else {
                half_way
            }
        },
    }
}

/// The part of `new_allocs` bytes that survives a collection.
pub fn new_live(new_allocs: u32, survival_rate: u32) -> (live: u32)
    requires
        survival_rate <= MAX_SURVIVAL_RATE,
    ensures
        live == spec_new_live(new_allocs as int, survival_rate as int),
        live <= new_allocs,
{
    assert(new_allocs * survival_rate <= new_allocs * 100) by (nonlinear_arith)
        requires
            survival_rate <= 100,
    ;
    (new_allocs as u64 * survival_rate as u64 / 100) as u32
}

/// The memory in use while a collection runs, or `None` where it is beyond
/// 32 bits.
pub fn transient_peak(
    strategy: GcStrategy,
    hp: u32,
    last_hp: u32,
    new_live: u32,
) -> (peak: Option<u32>)
    ensures
        ({
            let exact = spec_transient_peak(strategy, hp as int, last_hp as int, new_live as int);
            peak == if exact <= u32::MAX {
                Some(exact as u32)
            } else {
                None
            }
        }),
{
    match strategy {
        GcStrategy::MarkCompact => hp.checked_add(MARK_COMPACT_MAX_BITMAP_SIZE),
        GcStrategy::Copying => match last_hp.checked_add(new_live) {
            Some(copied) => hp.checked_add(copied),
            None => None,
        },
    }
}

/// Simulates one call: the program allocates `allocation_rate` bytes, and
/// the collector runs if that brings the heap pointer to the limit. The call
/// overflows where the heap pointer after the allocation, or the memory in use
/// during the collection, is beyond 32 bits.
pub fn step(config: &RuntimeConfig, state: HeapState) -> (outcome: StepOutcome)
    requires
        config.well_formed(),
        state.well_formed(),
    ensures
        outcome == spec_step(*config, state),
{
    let limit: u64 = heap_limit(config, state.last_hp);
    match state.hp.checked_add(config.allocation_rate) {
        None => StepOutcome::Overflowed,
        Some(hp) => {
            if hp as u64 >= limit {
                let live: u32 = new_live(hp - state.last_hp, config.survival_rate);
                match transient_peak(config.gc_strategy, hp, state.last_hp, live) {
                    None => StepOutcome::Overflowed,
                    Some(peak) => {
                        let after: u32 = state.last_hp + live;
                        let high_water: u32 = if peak > state.high_water {
                            peak
                        } else {
                            state.high_water
                        };
                        StepOutcome::Collected(HeapState { last_hp: after, hp: after, high_water })
                    },
                }
            } else {
                let high_water: u32 = if hp > state.high_water {
                    hp
                } else {
                    state.high_water
                };
                StepOutcome::Accumulated(HeapState { last_hp: state.last_hp, hp, high_water })
            }
        },
    }
}

} // verus!
