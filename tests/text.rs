use pomodoro::{countdown_text, page_title, phase_label, settings_open_after_toggle, Phase, SelectOption, TimerAction, TimerState};

#[test]
fn countdown_text_pads_to_two_digits() {
    assert_eq!(countdown_text(1500), "25:00");
    assert_eq!(countdown_text(0), "00:00");
    assert_eq!(countdown_text(59), "00:59");
    assert_eq!(countdown_text(65), "01:05");
    assert_eq!(countdown_text(300), "05:00");
    assert_eq!(countdown_text(599), "09:59");
}

#[test]
fn countdown_text_beyond_two_digit_minutes() {
    assert_eq!(countdown_text(6000), "100:00");
    assert_eq!(countdown_text(4294920), "71582:00");
}

#[test]
fn phase_labels() {
    assert_eq!(phase_label(Phase::Work), "Work");
    assert_eq!(phase_label(Phase::Break), "Break");
}

#[test]
fn title_while_stopped_and_running() {
    let s = TimerState::new();
    assert_eq!(page_title(&s), "Pomodoro Timer | Neblume ");
    let r = s.reduce(TimerAction::Start).unwrap();
    let r = r.reduce(TimerAction::Tick(1)).unwrap();
    assert_eq!(page_title(&r), "Work : 24:59");
}

#[test]
fn settings_toggle() {
    assert!(settings_open_after_toggle(false, false));
    assert!(!settings_open_after_toggle(true, false));
    assert!(!settings_open_after_toggle(false, true));
    assert!(!settings_open_after_toggle(true, true));
}

#[test]
fn select_option_new_copies_fields() {
    let o = SelectOption::new("25", "Twenty-five", true);
    assert_eq!(o.value, "25");
    assert_eq!(o.label, "Twenty-five");
    assert!(o.is_selected);
}
