use vstd::prelude::*;
use crate::timer::{Phase, TimerAction, TimerState};

verus! {

/// The snapshot reached from `s` by applying `actions` in order, refused
/// commands leaving it unchanged.
pub open spec fn run(s: TimerState, actions: Seq<TimerAction>) -> TimerState
    decreases actions.len(),
{
    if actions.len() == 0 {
        s
    } else {
        run(s.step(actions[0]), actions.drop_first())
    }
}

/// `n` tick callbacks stamped with generation `g`.
pub open spec fn ticks(g: u64, n: nat) -> Seq<TimerAction> {
    Seq::new(n, |_i: int| TimerAction::Tick(g))
}

/// Every command keeps a well-formed snapshot well-formed.
pub proof fn lemma_step_keeps_inv(s: TimerState, a: TimerAction)
    requires
        s.inv(),
    ensures
        s.step(a).inv(),
{
}

/// Every snapshot reachable from a well-formed one is well-formed.
pub proof fn lemma_run_keeps_inv(s: TimerState, actions: Seq<TimerAction>)
    requires
        s.inv(),
    ensures
        run(s, actions).inv(),
    decreases actions.len(),
{
    if actions.len() > 0 {
        lemma_step_keeps_inv(s, actions[0]);
        lemma_run_keeps_inv(s.step(actions[0]), actions.drop_first());
    }
}

/// In every snapshot reachable from the initial one, the time left is at most
/// the full length of the current phase.
pub proof fn lemma_reachable_time_within_phase(actions: Seq<TimerAction>)
    ensures
        run(TimerState::initial(), actions).time_remaining_seconds <= run(
            TimerState::initial(),
            actions,
        ).full_seconds(run(TimerState::initial(), actions).phase),
{
    lemma_run_keeps_inv(TimerState::initial(), actions);
}

/// In every snapshot reachable from the initial one, the engine is running
/// exactly when both timers are armed under the current generation, and no
/// timer is armed when it is not running.
pub proof fn lemma_reachable_running_iff_armed(actions: Seq<TimerAction>)
    ensures
        ({
            let s = run(TimerState::initial(), actions);
            &&& s.running <==> (s.tick_handle == Some(s.generation) && s.completion_handle == Some(
                s.generation,
            ))
            &&& !s.running ==> s.tick_handle is None && s.completion_handle is None
        }),
{
    lemma_run_keeps_inv(TimerState::initial(), actions);
}

/// A second `Cancel` right after a first one changes nothing but the
/// generation, which advances by one more.
pub proof fn lemma_cancel_again_only_advances_generation(s: TimerState)
    ensures
        ({
            let once = s.step(TimerAction::Cancel);
            once.step(TimerAction::Cancel) == TimerState {
                generation: (once.generation + 1) as u64,
                ..once
            }
        }),
{
}

/// A tick stamped with any generation other than the current one, the
/// previous generation included, leaves the snapshot unchanged.
pub proof fn lemma_stale_tick_ignored(s: TimerState, g: u64)
    requires
        g != s.generation,
    ensures
        s.step(TimerAction::Tick(g)) == s,
{
}

/// Starting a work run of 25 minutes with one second left and then letting
/// its completion timer fire leaves the engine stopped in the break phase with
/// the full break time left.
pub proof fn lemma_completion_flips_phase(s: TimerState)
    requires
        s.inv(),
        s.phase == Phase::Work,
        s.work_minutes == 25,
        s.time_remaining_seconds == 1,
        !s.running,
    ensures
        ({
            let started = s.step(TimerAction::Start);
            let done = started.step(TimerAction::Complete(started.generation));
            &&& done.phase == Phase::Break
            &&& done.time_remaining_seconds == s.break_minutes * 60
            &&& !done.running
        }),
{
}

/// A completion stamped with any generation other than the current one leaves
/// the snapshot unchanged.
pub proof fn lemma_stale_completion_ignored(s: TimerState, g: u64)
    requires
        g != s.generation,
    ensures
        s.step(TimerAction::Complete(g)) == s,
{
}

/// While running, a current tick takes one second off the time left, stopping
/// at zero, and changes nothing else.
pub proof fn lemma_current_tick_counts_one_second(s: TimerState)
    requires
        s.running,
    ensures
        s.step(TimerAction::Tick(s.generation)) == (TimerState {
            time_remaining_seconds: if s.time_remaining_seconds == 0 {
                0
            } else {
                (s.time_remaining_seconds - 1) as u32
            },
            ..s
        }),
{
}

/// Pausing a running snapshot keeps the phase, the durations and the time
/// left, stops it, disarms both timers and advances the generation by one.
pub proof fn lemma_pause_keeps_time(s: TimerState)
    requires
        s.running,
        s.generation < u64::MAX,
    ensures
        ({
            let p = s.step(TimerAction::Pause);
            &&& p.phase == s.phase
            &&& p.work_minutes == s.work_minutes
            &&& p.break_minutes == s.break_minutes
            &&& p.time_remaining_seconds == s.time_remaining_seconds
            &&& !p.running
            &&& p.tick_handle is None
            &&& p.completion_handle is None
            &&& p.generation == s.generation + 1
        }),
{
}

/// A tick when no time is left leaves no time left.
pub proof fn lemma_tick_saturates(s: TimerState, g: u64)
    requires
        s.time_remaining_seconds == 0,
    ensures
        s.step(TimerAction::Tick(g)).time_remaining_seconds == 0,
{
}

/// Every command that arms or disarms a timer advances the generation by one,
/// and no command moves it by more.
pub proof fn lemma_generation_tracks_arming(s: TimerState, a: TimerAction)
    requires
        s.inv(),
        s.generation < u64::MAX,
    ensures
        ({
            let n = s.step(a);
            &&& (n.tick_handle != s.tick_handle || n.completion_handle != s.completion_handle)
                ==> n.generation == s.generation + 1
            &&& n.generation == s.generation || n.generation == s.generation + 1
        }),
{
}

/// While running, `n` current ticks, no more than the seconds left, count the
/// time down by `n` and change nothing else.
pub proof fn lemma_current_ticks_count_down(s: TimerState, n: nat)
    requires
        s.running,
        n <= s.time_remaining_seconds,
    ensures
        run(s, ticks(s.generation, n)) == (TimerState {
            time_remaining_seconds: (s.time_remaining_seconds - n) as u32,
            ..s
        }),
    decreases n,
{
    if n == 0 {
        assert(ticks(s.generation, 0) =~= Seq::<TimerAction>::empty());
    } else {
        let t = s.step(TimerAction::Tick(s.generation));
        assert(ticks(s.generation, n).drop_first() =~= ticks(t.generation, (n - 1) as nat));
        lemma_current_ticks_count_down(t, (n - 1) as nat);
    }
}

/// Pausing a run after `n` ticks keeps the time it had counted down to, and
/// starting again resumes the countdown from that time, not from the full
/// length, with both timers armed under the new generation.
pub proof fn lemma_pause_then_resume(s: TimerState, n: nat)
    requires
        s.inv(),
        !s.running,
        n < s.time_remaining_seconds,
    ensures
        ({
            let started = s.step(TimerAction::Start);
            let paused = run(started, ticks(started.generation, n)).step(TimerAction::Pause);
            let resumed = paused.step(TimerAction::Start);
            &&& paused.time_remaining_seconds == s.time_remaining_seconds - n
            &&& !paused.running
            &&& resumed.running
            &&& resumed.time_remaining_seconds == s.time_remaining_seconds - n
            &&& resumed.tick_handle == Some(resumed.generation)
            &&& resumed.completion_handle == Some(resumed.generation)
        }),
{
    let started = s.step(TimerAction::Start);
    lemma_current_ticks_count_down(started, n);
}

/// From any stopped snapshot: saving 25 and 5 minutes, selecting the work
/// phase, starting, 1500 current ticks and then the completion leave the
/// engine stopped in the break phase with 300 seconds left.
pub proof fn lemma_full_work_run(s: TimerState)
    requires
        s.inv(),
        !s.running,
    ensures
        ({
            let prepared = s.step(TimerAction::SaveSettings(25, 5)).step(
                TimerAction::SelectPhase(Phase::Work),
            );
            let started = prepared.step(TimerAction::Start);
            let counted = run(started, ticks(started.generation, 1500));
            let done = counted.step(TimerAction::Complete(started.generation));
            &&& done.phase == Phase::Break
            &&& done.time_remaining_seconds == 300
            &&& !done.running
        }),
{
    let prepared = s.step(TimerAction::SaveSettings(25, 5)).step(
        TimerAction::SelectPhase(Phase::Work),
    );
    let started = prepared.step(TimerAction::Start);
    lemma_current_ticks_count_down(started, 1500);
}

} // verus!
