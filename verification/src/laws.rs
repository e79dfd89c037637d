//! What holds of every run.

use crate::config::{GcStrategy, RuntimeConfig, Scheduler, MAX_SURVIVAL_RATE};
use crate::engine::{
    spec_collection_due, spec_heap_limit, spec_max_live, spec_new_live, spec_step,
    spec_transient_peak, HeapState, StepOutcome, MARK_COMPACT_MAX_BITMAP_SIZE,
};
use crate::factor_laws::lemma_scale_zero;
use crate::simulation::{
    spec_high_water_series, spec_hp_series, spec_run, spec_stops_early, spec_trace,
};
use vstd::math::min;
use vstd::prelude::*;

verus! {

/// Of the bytes allocated since the last collection, a collection keeps no
/// more than there are and no fewer than none: none at a survival rate of
/// zero, all of them at a survival rate of one hundred.
pub proof fn lemma_new_live_bounds(new_allocs: int, survival_rate: int)
    by (nonlinear_arith)
    requires
        0 <= new_allocs,
        0 <= survival_rate <= 100,
    ensures
        0 <= spec_new_live(new_allocs, survival_rate) <= new_allocs,
        survival_rate == 0 ==> spec_new_live(new_allocs, survival_rate) == 0,
        survival_rate == 100 ==> spec_new_live(new_allocs, survival_rate) == new_allocs,
{
}

/// The old scheduler's limit is not beyond its ceiling, and below the heap
/// size plus the small heap delta only where the ceiling is. The new
/// scheduler's limit is not beyond the middle between the heap size and the
/// collector's live-data ceiling.
pub proof fn lemma_heap_limit_bounds(config: RuntimeConfig, last_hp: u32)
    ensures
        config.scheduler == Scheduler::Old ==> {
            &&& spec_heap_limit(config, last_hp) <= config.max_hp_for_gc
            &&& spec_heap_limit(config, last_hp) >= min(
                last_hp + config.small_heap_delta,
                config.max_hp_for_gc as int,
            )
        },
        config.scheduler == Scheduler::New ==> 2 * spec_heap_limit(config, last_hp) <= last_hp
            + spec_max_live(config.gc_strategy),
{
}

/// On the empty heap the old scheduler lets the heap grow by the small heap
/// delta, up to its ceiling; the new scheduler collects at once.
pub proof fn lemma_heap_limit_empty_heap(config: RuntimeConfig)
    ensures
        config.scheduler == Scheduler::Old ==> spec_heap_limit(config, 0) == min(
            config.small_heap_delta as int,
            config.max_hp_for_gc as int,
        ),
        config.scheduler == Scheduler::New ==> spec_heap_limit(config, 0) == 0,
{
    lemma_scale_zero(config.growth_factor);
}

/// On the same heap, a mark-compact collection and a copying collection
/// differ in their footprint by the size of the mark bitmap less the size of
/// the copy.
pub proof fn lemma_peak_difference(hp: int, last_hp: int, new_live: int)
    ensures
        spec_transient_peak(GcStrategy::MarkCompact, hp, last_hp, new_live) - spec_transient_peak(
            GcStrategy::Copying,
            hp,
            last_hp,
            new_live,
        ) == MARK_COMPACT_MAX_BITMAP_SIZE - (last_hp + new_live),
{
}

/// A call without a collection adds the allocation to the heap pointer and
/// leaves the mark of the last collection where it is.
pub proof fn lemma_step_accumulates(config: RuntimeConfig, state: HeapState)
    requires
        !spec_collection_due(config, state),
    ensures
        spec_step(config, state) matches StepOutcome::Accumulated(next) ==> {
            &&& next.hp == state.hp + config.allocation_rate
            &&& next.last_hp == state.last_hp
        },
        !(spec_step(config, state) is Collected),
{
}

/// A call with a collection leaves the heap pointer at the mark of the last
/// collection plus what survived of the bytes allocated since, and sets the
/// mark there.
pub proof fn lemma_step_collects(config: RuntimeConfig, state: HeapState)
    requires
        config.well_formed(),
        state.well_formed(),
        spec_collection_due(config, state),
    ensures
        spec_step(config, state) matches StepOutcome::Collected(next) ==> {
            let new_allocs = state.hp + config.allocation_rate - state.last_hp;
            let new_live = spec_new_live(new_allocs, config.survival_rate as int);
            &&& 0 <= new_live <= new_allocs
            &&& next.hp == state.last_hp + new_live
            &&& next.last_hp == next.hp
        },
        !(spec_step(config, state) is Accumulated),
{
    lemma_new_live_bounds(
        state.hp + config.allocation_rate - state.last_hp,
        config.survival_rate as int,
    );
}

/// A call never lowers the peak footprint, and it leaves the heap in order.
pub proof fn lemma_step_well_formed(config: RuntimeConfig, state: HeapState)
    requires
        config.well_formed(),
        state.well_formed(),
    ensures
        spec_step(config, state).spec_state() matches Some(next) ==> {
            &&& next.well_formed()
            &&& state.high_water <= next.high_water
        },
{
    lemma_new_live_bounds(
        state.hp + config.allocation_rate - state.last_hp,
        config.survival_rate as int,
    );
}

/// A run starts from the empty heap and has one state more than it has
/// completed calls.
pub proof fn lemma_trace_shape(config: RuntimeConfig, calls: nat)
    ensures
        1 <= spec_trace(config, calls).len() <= calls + 1,
        spec_trace(config, calls)[0] == HeapState::spec_new(),
    decreases calls,
{
    if calls > 0 {
        lemma_trace_shape(config, (calls - 1) as nat);
    }
}

/// Each state of a run but the first is what one call makes of the state
/// before it.
pub proof fn lemma_trace_steps(config: RuntimeConfig, calls: nat, i: int)
    requires
        0 <= i,
        i + 1 < spec_trace(config, calls).len(),
    ensures
        spec_step(config, spec_trace(config, calls)[i]).spec_state() == Some(
            spec_trace(config, calls)[i + 1],
        ),
    decreases calls,
{
    lemma_trace_shape(config, calls);
    if calls > 0 {
        let before = spec_trace(config, (calls - 1) as nat);
        lemma_trace_shape(config, (calls - 1) as nat);
        if i + 1 < before.len() {
            lemma_trace_steps(config, (calls - 1) as nat, i);
        }
    }
}

/// A run of more calls begins as the run of fewer calls does.
pub proof fn lemma_trace_prefix(config: RuntimeConfig, calls: nat, more: nat)
    requires
        calls <= more,
    ensures
        spec_trace(config, calls).is_prefix_of(spec_trace(config, more)),
    decreases more,
{
    if calls < more {
        lemma_trace_prefix(config, calls, (more - 1) as nat);
    }
}

/// A run ends before its last call only where the next call overflows.
pub proof fn lemma_trace_stops_at_overflow(config: RuntimeConfig, calls: nat)
    requires
        spec_trace(config, calls).len() <= calls,
    ensures
        spec_step(config, spec_trace(config, calls).last()) is Overflowed,
    decreases calls,
{
    lemma_trace_shape(config, calls);
    if calls > 0 {
        let before = spec_trace(config, (calls - 1) as nat);
        lemma_trace_shape(config, (calls - 1) as nat);
        if before.len() < calls {
            lemma_trace_stops_at_overflow(config, (calls - 1) as nat);
        }
    }
}

/// A run that has ended stays as it is, however many calls were asked for.
pub proof fn lemma_trace_stays_stopped(config: RuntimeConfig, calls: nat, more: nat)
    requires
        calls <= more,
        spec_trace(config, calls).len() <= calls,
    ensures
        spec_trace(config, more) == spec_trace(config, calls),
    decreases more,
{
    if calls < more {
        lemma_trace_stays_stopped(config, calls, (more - 1) as nat);
    }
}

/// Every state of a run is in order: the mark of the last collection is not
/// beyond the heap pointer, nor the heap pointer beyond the peak footprint.
pub proof fn lemma_trace_well_formed(config: RuntimeConfig, calls: nat)
    requires
        config.well_formed(),
    ensures
        forall|i: int|
            0 <= i < spec_trace(config, calls).len() ==> (#[trigger] spec_trace(
                config,
                calls,
            )[i]).well_formed(),
    decreases calls,
{
    if calls > 0 {
        let before = spec_trace(config, (calls - 1) as nat);
        lemma_trace_well_formed(config, (calls - 1) as nat);
        lemma_trace_shape(config, (calls - 1) as nat);
        lemma_step_well_formed(config, before.last());
    }
}

/// The peak footprint never falls in the course of a run.
pub proof fn lemma_high_water_monotonic(config: RuntimeConfig, calls: nat)
    requires
        config.well_formed(),
    ensures
        forall|i: int, j: int|
            0 <= i <= j < spec_trace(config, calls).len() ==> (#[trigger] spec_trace(
                config,
                calls,
            )[i]).high_water <= (#[trigger] spec_trace(config, calls)[j]).high_water,
    decreases calls,
{
    if calls > 0 {
        let before = spec_trace(config, (calls - 1) as nat);
        lemma_high_water_monotonic(config, (calls - 1) as nat);
        lemma_trace_well_formed(config, (calls - 1) as nat);
        lemma_trace_shape(config, (calls - 1) as nat);
        lemma_step_well_formed(config, before.last());
    }
}

/// The two series of a run are equally long and both start at zero; the run
/// is at most one state longer than the number of calls asked for, and
/// shorter than that exactly where it ended early.
pub proof fn lemma_series_shape(config: RuntimeConfig)
    ensures
        spec_hp_series(config).len() == spec_high_water_series(config).len(),
        1 <= spec_hp_series(config).len() <= config.num_calls + 1,
        spec_hp_series(config)[0] == 0,
        spec_high_water_series(config)[0] == 0,
        spec_stops_early(config) <==> spec_hp_series(config).len() <= config.num_calls,
{
    lemma_trace_shape(config, config.num_calls as nat);
}

/// The series of peak footprints does not decrease.
pub proof fn lemma_high_water_series_monotonic(config: RuntimeConfig, i: int, j: int)
    requires
        config.well_formed(),
        0 <= i <= j < spec_high_water_series(config).len(),
    ensures
        spec_high_water_series(config)[i] <= spec_high_water_series(config)[j],
{
    lemma_high_water_monotonic(config, config.num_calls as nat);
}

/// The heap pointer is never beyond the peak footprint of the same call.
pub proof fn lemma_hp_within_high_water(config: RuntimeConfig, i: int)
    requires
        config.well_formed(),
        0 <= i < spec_hp_series(config).len(),
    ensures
        spec_hp_series(config)[i] <= spec_high_water_series(config)[i],
{
    lemma_trace_well_formed(config, config.num_calls as nat);
}

/// After a call without a collection the heap pointer is that of the call
/// before plus the allocation rate.
pub proof fn lemma_accumulating_call(config: RuntimeConfig, i: int)
    requires
        1 <= i < spec_hp_series(config).len(),
        !spec_collection_due(config, spec_run(config)[i - 1]),
    ensures
        spec_hp_series(config)[i] == spec_hp_series(config)[i - 1] + config.allocation_rate,
{
    lemma_trace_steps(config, config.num_calls as nat, i - 1);
    lemma_step_accumulates(config, spec_run(config)[i - 1]);
}

/// After a call with a collection the heap pointer is the mark that the
/// collection before it left plus the surviving part of what was allocated
/// since, and that part is no more than what was allocated since.
pub proof fn lemma_collecting_call(config: RuntimeConfig, i: int)
    requires
        config.well_formed(),
        1 <= i < spec_hp_series(config).len(),
        spec_collection_due(config, spec_run(config)[i - 1]),
    ensures
        ({
            let before = spec_run(config)[i - 1];
            let new_allocs = spec_hp_series(config)[i - 1] + config.allocation_rate
                - before.last_hp;
            let new_live = spec_new_live(new_allocs, config.survival_rate as int);
            &&& 0 <= new_live <= new_allocs
            &&& spec_hp_series(config)[i] == before.last_hp + new_live
        }),
{
    lemma_trace_steps(config, config.num_calls as nat, i - 1);
    lemma_trace_well_formed(config, config.num_calls as nat);
    lemma_step_collects(config, spec_run(config)[i - 1]);
}

/// Where nothing survives, the mark of the last collection stays at zero
/// throughout the run.
pub proof fn lemma_nothing_survives_mark(config: RuntimeConfig, calls: nat)
    requires
        config.survival_rate == 0,
    ensures
        forall|i: int|
            0 <= i < spec_trace(config, calls).len() ==> (#[trigger] spec_trace(
                config,
                calls,
            )[i]).last_hp == 0,
    decreases calls,
{
    if calls > 0 {
        let before = spec_trace(config, (calls - 1) as nat);
        lemma_nothing_survives_mark(config, (calls - 1) as nat);
        lemma_trace_well_formed(config, (calls - 1) as nat);
        lemma_trace_shape(config, (calls - 1) as nat);
        lemma_new_live_bounds(before.last().hp + config.allocation_rate - before.last().last_hp, 0);
    }
}

/// Where nothing survives, every collection brings the heap pointer back to
/// the mark that the collection before it left, which is zero.
pub proof fn lemma_nothing_survives(config: RuntimeConfig, i: int)
    requires
        config.survival_rate == 0,
        1 <= i < spec_hp_series(config).len(),
        spec_collection_due(config, spec_run(config)[i - 1]),
    ensures
        spec_hp_series(config)[i] == spec_run(config)[i - 1].last_hp,
        spec_hp_series(config)[i] == 0,
{
    lemma_collecting_call(config, i);
    lemma_nothing_survives_mark(config, config.num_calls as nat);
}

/// Where everything survives, no call lowers the heap pointer.
pub proof fn lemma_everything_survives_trace(config: RuntimeConfig, calls: nat)
    requires
        config.survival_rate == MAX_SURVIVAL_RATE,
    ensures
        forall|i: int, j: int|
            0 <= i <= j < spec_trace(config, calls).len() ==> (#[trigger] spec_trace(
                config,
                calls,
            )[i]).hp <= (#[trigger] spec_trace(config, calls)[j]).hp,
    decreases calls,
{
    if calls > 0 {
        let before = spec_trace(config, (calls - 1) as nat);
        lemma_everything_survives_trace(config, (calls - 1) as nat);
        lemma_trace_well_formed(config, (calls - 1) as nat);
        lemma_trace_shape(config, (calls - 1) as nat);
        lemma_new_live_bounds(
            before.last().hp + config.allocation_rate - before.last().last_hp,
            100,
        );
    }
}

/// Where everything survives, the series of heap pointers does not decrease.
pub proof fn lemma_everything_survives(config: RuntimeConfig, i: int, j: int)
    requires
        config.survival_rate == MAX_SURVIVAL_RATE,
        0 <= i <= j < spec_hp_series(config).len(),
    ensures
        spec_hp_series(config)[i] <= spec_hp_series(config)[j],
{
    lemma_everything_survives_trace(config, config.num_calls as nat);
}

} // verus!
