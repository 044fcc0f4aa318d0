//! A countdown engine for a work/break cycle: a pure reducer over the timer
//! state, a dispatcher that turns accepted commands into timer requests and
//! notifications for the host, and the text shown for the time left.

pub mod display;
pub mod effects;
pub mod laws;
pub mod pomodoro;
pub mod timer;

pub use display::{countdown_text, page_title, phase_label, settings_open_after_toggle, SelectOption};
pub use effects::{effects_of, Effect};
pub use pomodoro::{Msg, Note, Pomodoro};
pub use timer::{Phase, TimerAction, TimerError, TimerState, MAX_MINUTES, TICK_PERIOD_MS};
