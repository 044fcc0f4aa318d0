use pomodoro::{effects_of, Effect, Msg, Note, Phase, Pomodoro, TimerAction, TimerError, TimerState};

fn send(p: &mut Pomodoro, m: Msg) -> Vec<Effect> {
    p.update(m).unwrap()
}

#[test]
fn create_starts_at_defaults_with_empty_log() {
    let p = Pomodoro::create();
    assert_eq!(p.state(), TimerState::new());
    assert!(p.log().is_empty());
}

#[test]
fn save_select_start_full_run_then_complete() {
    let mut p = Pomodoro::create();
    send(&mut p, Msg::SaveSettings(25, 5));
    send(&mut p, Msg::SelectPhase(Phase::Work));
    let fx = send(&mut p, Msg::StartTimeout);
    let g = p.state().generation;
    assert!(fx.contains(&Effect::ArmTick { period_ms: 1000, generation: g }));
    assert!(fx.contains(&Effect::ArmTimeout { delay_ms: 1_500_000, generation: g }));
    for _ in 0..1500 {
        send(&mut p, Msg::UpdateCountdown(g));
    }
    assert_eq!(p.state().time_remaining_seconds, 0);
    let fx = send(&mut p, Msg::Done(g));
    let s = p.state();
    assert_eq!(s.phase, Phase::Break);
    assert_eq!(s.time_remaining_seconds, 300);
    assert!(!s.running);
    assert_eq!(
        fx,
        vec![
            Effect::CancelTimers,
            Effect::PhaseComplete,
            Effect::Display { phase: Phase::Break, remaining_seconds: 300, running: false },
        ]
    );
    assert_eq!(p.log().last(), Some(&Note::Done));
}

#[test]
fn pause_after_ten_ticks_then_resume_from_there() {
    let mut p = Pomodoro::create();
    let initial = p.state().time_remaining_seconds;
    send(&mut p, Msg::StartTimeout);
    let g = p.state().generation;
    for _ in 0..10 {
        send(&mut p, Msg::UpdateCountdown(g));
    }
    let fx = send(&mut p, Msg::Pause);
    let s = p.state();
    assert_eq!(s.time_remaining_seconds, initial - 10);
    assert!(!s.running);
    assert_eq!(fx[0], Effect::CancelTimers);
    let fx = send(&mut p, Msg::StartTimeout);
    let s = p.state();
    assert!(s.running);
    assert_eq!(s.time_remaining_seconds, initial - 10);
    assert_eq!(
        fx,
        vec![
            Effect::ArmTick { period_ms: 1000, generation: s.generation },
            Effect::ArmTimeout { delay_ms: (initial - 10) * 1000, generation: s.generation },
            Effect::Display { phase: Phase::Work, remaining_seconds: initial - 10, running: true },
        ]
    );
    // a tick armed before the pause no longer counts
    send(&mut p, Msg::UpdateCountdown(g));
    assert_eq!(p.state().time_remaining_seconds, initial - 10);
    send(&mut p, Msg::UpdateCountdown(s.generation));
    assert_eq!(p.state().time_remaining_seconds, initial - 11);
}

#[test]
fn start_effects_are_exact() {
    let mut p = Pomodoro::create();
    let fx = send(&mut p, Msg::StartTimeout);
    assert_eq!(
        fx,
        vec![
            Effect::ArmTick { period_ms: 1000, generation: 1 },
            Effect::ArmTimeout { delay_ms: 1_500_000, generation: 1 },
            Effect::Display { phase: Phase::Work, remaining_seconds: 1500, running: true },
        ]
    );
    assert_eq!(p.log(), &vec![Note::Started]);
}

#[test]
fn tick_effects_redraw_only() {
    let mut p = Pomodoro::create();
    send(&mut p, Msg::StartTimeout);
    let fx = send(&mut p, Msg::UpdateCountdown(1));
    assert_eq!(
        fx,
        vec![Effect::Display { phase: Phase::Work, remaining_seconds: 1499, running: true }]
    );
}

#[test]
fn stale_callback_has_no_effects() {
    let mut p = Pomodoro::create();
    send(&mut p, Msg::StartTimeout);
    send(&mut p, Msg::Cancel);
    let before = p.state();
    assert_eq!(send(&mut p, Msg::UpdateCountdown(1)), vec![]);
    assert_eq!(send(&mut p, Msg::Done(1)), vec![]);
    assert_eq!(p.state(), before);
}

#[test]
fn cancel_while_running_disarms_and_resets() {
    let mut p = Pomodoro::create();
    send(&mut p, Msg::StartTimeout);
    send(&mut p, Msg::UpdateCountdown(1));
    let fx = send(&mut p, Msg::Cancel);
    assert_eq!(
        fx,
        vec![
            Effect::CancelTimers,
            Effect::Display { phase: Phase::Work, remaining_seconds: 1500, running: false },
        ]
    );
    assert_eq!(p.log(), &vec![Note::Started, Note::Canceled]);
}

#[test]
fn refused_command_is_logged_and_leaves_state() {
    let mut p = Pomodoro::create();
    let before = p.state();
    assert_eq!(p.update(Msg::Pause), Err(TimerError::IllegalTransition));
    assert_eq!(p.update(Msg::SaveSettings(0, 5)), Err(TimerError::InvalidInput));
    assert_eq!(p.state(), before);
    assert_eq!(
        p.log(),
        &vec![
            Note::Rejected(TimerError::IllegalTransition),
            Note::Rejected(TimerError::InvalidInput),
        ]
    );
}

#[test]
fn msg_maps_to_reducer_commands() {
    assert_eq!(Msg::StartTimeout.action(), TimerAction::Start);
    assert_eq!(Msg::Pause.action(), TimerAction::Pause);
    assert_eq!(Msg::Cancel.action(), TimerAction::Cancel);
    assert_eq!(Msg::SelectPhase(Phase::Break).action(), TimerAction::SelectPhase(Phase::Break));
    assert_eq!(Msg::SaveSettings(3, 4).action(), TimerAction::SaveSettings(3, 4));
    assert_eq!(Msg::UpdateCountdown(9).action(), TimerAction::Tick(9));
    assert_eq!(Msg::Done(9).action(), TimerAction::Complete(9));
}

#[test]
fn note_messages() {
    assert_eq!(Note::Started.message(), "Timer started!");
    assert_eq!(Note::Paused.message(), "Paused!");
    assert_eq!(Note::Canceled.message(), "Canceled!");
    assert_eq!(Note::Done.message(), "Done!");
    assert_eq!(Note::Rejected(TimerError::InvalidInput).message(), "Invalid duration!");
    assert_eq!(Note::Rejected(TimerError::IllegalTransition).message(), "Not allowed now!");
}

#[test]
fn effects_of_unchanged_state_is_empty() {
    let s = TimerState::new();
    assert_eq!(effects_of(&s, TimerAction::Tick(5), &s), vec![]);
}

#[test]
fn effects_of_settings_change_redraws() {
    let s = TimerState::new();
    let n = s.reduce(TimerAction::SaveSettings(10, 2)).unwrap();
    assert_eq!(
        effects_of(&s, TimerAction::SaveSettings(10, 2), &n),
        vec![Effect::Display { phase: Phase::Work, remaining_seconds: 600, running: false }]
    );
}
