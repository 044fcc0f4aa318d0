use vstd::prelude::*;
use crate::timer::{MAX_MINUTES, Phase, TICK_PERIOD_MS, TimerAction, TimerState};

verus! {

/// What the host must do after a command was applied: drive the two timers
/// and tell the display and the audio cue what changed.
#[derive(Clone, Copy, Debug, PartialEq, Eq, Structural)]
pub enum Effect {
    /// Cancel the armed tick and completion timers.
    CancelTimers,
    /// Arm a repeating tick every `period_ms` milliseconds, whose callbacks
    /// carry `generation`.
    ArmTick { period_ms: u32, generation: u64 },
    /// Arm a one-shot completion after `delay_ms` milliseconds, whose callback
    /// carries `generation`.
    ArmTimeout { delay_ms: u32, generation: u64 },
    /// A run has finished: play the cue.
    PhaseComplete,
    /// The snapshot changed: redraw the phase, the time left and whether the
    /// countdown is running.
    Display { phase: Phase, remaining_seconds: u32, running: bool },
}

/// The effects of going from `prev` to `next` by command `a`, in the order the
/// host must perform them: disarm what stopped, arm what started, play the cue
/// when the run finished, and redraw when anything changed.
pub open spec fn effects(prev: TimerState, a: TimerAction, next: TimerState) -> Seq<Effect> {
    let disarm = if prev.running && !next.running {
        seq![Effect::CancelTimers]
    } else {
        seq![]
    };
    let arm = if !prev.running && next.running {
        seq![
            Effect::ArmTick { period_ms: TICK_PERIOD_MS, generation: next.generation },
            Effect::ArmTimeout {
                delay_ms: (next.time_remaining_seconds * 1000) as u32,
                generation: next.generation,
            },
        ]
    } else {
        seq![]
    };
    let cue = if prev.completes(a) {
        seq![Effect::PhaseComplete]
    } else {
        seq![]
    };
    let display = if next != prev {
        seq![
            Effect::Display {
                phase: next.phase,
                remaining_seconds: next.time_remaining_seconds,
                running: next.running,
            },
        ]
    } else {
        seq![]
    };
    disarm + arm + cue + display
}

/// The effects of going from `prev` to `next` by command `action`.
pub fn effects_of(prev: &TimerState, action: TimerAction, next: &TimerState) -> (r: Vec<Effect>)
    requires
        next.inv(),
    ensures
        r@ == effects(*prev, action, *next),
{
    let mut r: Vec<Effect> = Vec::new();
    if prev.running && !next.running {
        r.push(Effect::CancelTimers);
    }
    if !prev.running && next.running {
        assert(next.time_remaining_seconds * 1000 <= MAX_MINUTES * 60000);
        r.push(Effect::ArmTick { period_ms: TICK_PERIOD_MS, generation: next.generation });
        r.push(
            Effect::ArmTimeout {
                delay_ms: next.time_remaining_seconds * 1000,
                generation: next.generation,
            },
        );
    }
    if prev.finishes_run(action) {
        r.push(Effect::PhaseComplete);
    }
    if *next != *prev {
        r.push(
            Effect::Display {
                phase: next.phase,
                remaining_seconds: next.time_remaining_seconds,
                running: next.running,
            },
        );
    }
    assert(r@ =~= effects(*prev, action, *next));
    r
}

} // verus!
