//! A whole run: the heap after each call, from the empty heap on, until the
//! calls are done or a number leaves the 32-bit range.

use crate::config::RuntimeConfig;
use crate::engine::{spec_step, step, HeapState, StepOutcome};
use crate::laws::{
    lemma_high_water_monotonic, lemma_step_well_formed, lemma_trace_shape,
    lemma_trace_stays_stopped,
};
use vstd::prelude::*;

verus! {

/// The states of a run of at most `calls` calls: the empty heap first, then
/// the state after each call. The run ends early at the first call that
/// overflows; that call leaves no state.
pub open spec fn spec_trace(config: RuntimeConfig, calls: nat) -> Seq<HeapState>
    decreases calls,
{
    if calls == 0 {
        seq![HeapState::spec_new()]
    } else {
        let before = spec_trace(config, (calls - 1) as nat);
        if before.len() == calls {
            match spec_step(config, before.last()).spec_state() {
                Some(state) => before.push(state),
                None => before,
            }
        } else {
            before
        }
    }
}

/// The states of the run that `config` describes.
pub open spec fn spec_run(config: RuntimeConfig) -> Seq<HeapState> {
    spec_trace(config, config.num_calls as nat)
}

/// The heap pointer after each call of the run that `config` describes.
pub open spec fn spec_hp_series(config: RuntimeConfig) -> Seq<u32> {
    spec_run(config).map_values(|state: HeapState| state.hp)
}

/// The peak footprint up to each call of the run that `config` describes.
pub open spec fn spec_high_water_series(config: RuntimeConfig) -> Seq<u32> {
    spec_run(config).map_values(|state: HeapState| state.high_water)
}

/// Whether the run that `config` describes ends before its last call.
pub open spec fn spec_stops_early(config: RuntimeConfig) -> bool {
    spec_run(config).len() <= config.num_calls
}

/// What a run produced, index `i` for the heap after `i` calls.
#[derive(Debug)]
pub struct SimulationResult {
    /// The heap pointer after each call, after the collection if one ran.
    pub hp: Vec<u32>,
    /// The largest memory footprint up to and including each call.
    pub high_water: Vec<u32>,
    /// Set where the run ended before its last call because the heap pointer
    /// or the footprint of a collection left the 32-bit range.
    pub stopped_early: bool,
}

/// Runs the simulation that `config` describes: `num_calls` calls from the
/// empty heap on, or as many of them as come before the first that overflows.
///
/// The result holds the heap pointer and the peak footprint before the first
/// call and after each call that was completed.
pub fn simulate(config: RuntimeConfig) -> (result: SimulationResult)
    requires
        config.well_formed(),
    ensures
        result.hp@ == spec_hp_series(config),
        result.high_water@ == spec_high_water_series(config),
        result.stopped_early == spec_stops_early(config),
        result.hp@.len() == result.high_water@.len(),
        1 <= result.hp@.len() <= config.num_calls + 1,
        result.stopped_early <==> result.hp@.len() <= config.num_calls,
        result.hp@[0] == 0 && result.high_water@[0] == 0,
        forall|i: int, j: int|
            0 <= i <= j < result.high_water@.len() ==> result.high_water@[i]
                <= result.high_water@[j],
{
    let mut hp: Vec<u32> = Vec::new();
    let mut high_water: Vec<u32> = Vec::new();
    let mut state: HeapState = HeapState::new();
    hp.push(state.hp);
    high_water.push(state.high_water);
    let mut stopped_early: bool = false;
    let mut calls: u32 = 0;
    while calls < config.num_calls
        invariant_except_break
            !stopped_early,
        invariant
            config.well_formed(),
            state.well_formed(),
            calls <= config.num_calls,
            spec_trace(config, calls as nat).len() == calls + 1,
            state == spec_trace(config, calls as nat).last(),
            hp@ == spec_trace(config, calls as nat).map_values(|state: HeapState| state.hp),
            high_water@ == spec_trace(config, calls as nat).map_values(
                |state: HeapState| state.high_water,
            ),
            stopped_early ==> spec_step(config, state) is Overflowed,
        ensures
            stopped_early ==> calls < config.num_calls,
            !stopped_early ==> calls == config.num_calls,
        decreases config.num_calls - calls,
    {
        match step(&config, state) {
            StepOutcome::Accumulated(next) | StepOutcome::Collected(next) => {
                proof {
                    lemma_step_well_formed(config, state);
                    assert(spec_trace(config, (calls + 1) as nat) == spec_trace(
                        config,
                        calls as nat,
                    ).push(next));
                }
                state = next;
                hp.push(next.hp);
                high_water.push(next.high_water);
                calls = calls + 1;
            },
            StepOutcome::Overflowed => {
                stopped_early = true;
                break ;
            },
        }
    }
    proof {
        if stopped_early {
            assert(spec_trace(config, (calls + 1) as nat) == spec_trace(config, calls as nat));
            lemma_trace_stays_stopped(config, (calls + 1) as nat, config.num_calls as nat);
        }
        lemma_trace_shape(config, config.num_calls as nat);
        lemma_high_water_monotonic(config, config.num_calls as nat);
    }
    SimulationResult { hp, high_water, stopped_early }
}

} // verus!
