//! The inputs of a simulation run.

use crate::factor::GrowthFactor;
use vstd::prelude::*;

verus! {

/// The largest survival rate: all of the new data stays live.
pub const MAX_SURVIVAL_RATE: u32 = 100;

/// The bit pattern of the double-precision number 1.5.
pub const DEFAULT_GROWTH_FACTOR_BITS: u64 = 0x3FF8_0000_0000_0000;

/// The collector whose transient memory cost is modelled.
#[derive(Debug, Clone, Copy, PartialEq, Eq, Structural)]
pub enum GcStrategy {
    /// Marks live objects in a bitmap and compacts them in place.
    MarkCompact,
    /// Copies all live data to a second region.
    Copying,
}

/// The rule that decides when the next collection is due.
#[derive(Debug, Clone, Copy, PartialEq, Eq, Structural)]
pub enum Scheduler {
    /// Grow by a factor, by at least a fixed delta, up to a fixed ceiling.
    Old,
    /// Grow by a factor, up to half way towards the collector's live-data
    /// ceiling.
    New,
}

/// One simulation run's parameters.
#[derive(Debug, Clone, Copy, PartialEq, Eq, Structural)]
pub struct RuntimeConfig {
    pub gc_strategy: GcStrategy,
    pub scheduler: Scheduler,
    /// The number of calls to simulate.
    pub num_calls: u32,
    /// Bytes allocated by each call.
    pub allocation_rate: u32,
    /// The percentage of the bytes allocated since the last collection that
    /// are still live at the next one.
    pub survival_rate: u32,
    /// The factor by which the heap may grow between two collections.
    pub growth_factor: GrowthFactor,
    /// The least number of bytes by which the heap may grow between two
    /// collections under the old scheduler.
    pub small_heap_delta: u64,
    /// The heap size at which the old scheduler collects at the latest.
    pub max_hp_for_gc: u64,
}

impl RuntimeConfig {
    /// The survival rate is a percentage.
    pub open spec fn well_formed(&self) -> bool {
        self.survival_rate <= MAX_SURVIVAL_RATE
    }

    /// Tells whether the configuration can be simulated.
    pub fn is_valid(&self) -> (valid: bool)
        ensures
            valid == self.well_formed(),
    {
        self.survival_rate <= MAX_SURVIVAL_RATE
    }
}

impl Default for RuntimeConfig {
    /// A copying collector under the old scheduler: a hundred thousand calls
    /// of a hundred thousand bytes each, half of which survive; growth by a
    /// factor of 1.5 and by 10 MiB at least, up to 2 GiB.
    fn default() -> (config: Self)
        ensures
            config == (RuntimeConfig {
                gc_strategy: GcStrategy::Copying,
                scheduler: Scheduler::Old,
                num_calls: 100_000,
                allocation_rate: 100_000,
                survival_rate: 50,
                growth_factor: GrowthFactor { bits: DEFAULT_GROWTH_FACTOR_BITS },
                small_heap_delta: 10_485_760,
                max_hp_for_gc: 2_147_483_648,
            }),
            config.well_formed(),
    {
        RuntimeConfig {
            gc_strategy: GcStrategy::Copying,
            scheduler: Scheduler::Old,
            num_calls: 100_000,
            allocation_rate: 100_000,
            survival_rate: 50,
            growth_factor: GrowthFactor::from_bits(DEFAULT_GROWTH_FACTOR_BITS),
            small_heap_delta: 10 * 1024 * 1024,
            max_hp_for_gc: 2 * 1024 * 1024 * 1024,
        }
    }
}

} // verus!
