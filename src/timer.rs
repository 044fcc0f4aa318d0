use vstd::prelude::*;

verus! {

/// The longest duration a phase may be configured with, in minutes: the
/// largest for which the completion delay in milliseconds fits in a `u32`.
pub const MAX_MINUTES: u32 = 71582;

/// Period of the tick source, in milliseconds.
pub const TICK_PERIOD_MS: u32 = 1000;

/// Which segment of the cycle is counting down.
#[derive(Clone, Copy, Debug, PartialEq, Eq, Structural)]
pub enum Phase {
    Work,
    Break,
}

impl Phase {
    /// The phase that follows this one when a run completes.
    pub open spec fn other(self) -> Phase {
        match self {
            Phase::Work => Phase::Break,
            Phase::Break => Phase::Work,
        }
    }

    pub fn flip(self) -> (r: Phase)
        ensures
            r == self.other(),
    {
        match self {
            Phase::Work => Phase::Break,
            Phase::Break => Phase::Work,
        }
    }
}

/// Why a command was refused. A stale timer callback is not an error: it is
/// accepted and leaves the state as it was.
#[derive(Clone, Copy, Debug, PartialEq, Eq, Structural)]
pub enum TimerError {
    /// A duration of zero minutes, or one longer than `MAX_MINUTES`.
    InvalidInput,
    /// A command that the current state does not allow.
    IllegalTransition,
}

/// A command to the reducer. `Tick` and `Complete` carry the generation under
/// which their timer was armed.
#[derive(Clone, Copy, Debug, PartialEq, Eq, Structural)]
pub enum TimerAction {
    SelectPhase(Phase),
    SetWorkDuration(u32),
    SetBreakDuration(u32),
    SaveSettings(u32, u32),
    Start,
    Pause,
    Cancel,
    Tick(u64),
    Complete(u64),
}

/// A snapshot of the engine. `tick_handle` and `completion_handle` hold the
/// generation that the armed tick and completion timers were stamped with, or
/// `None` when that timer is not armed.
#[derive(Clone, Copy, Debug, PartialEq, Eq, Structural)]
pub struct TimerState {
    pub phase: Phase,
    pub work_minutes: u32,
    pub break_minutes: u32,
    pub time_remaining_seconds: u32,
    pub running: bool,
    pub generation: u64,
    pub tick_handle: Option<u64>,
    pub completion_handle: Option<u64>,
}

/// A duration in minutes that a phase may be configured with.
pub open spec fn valid_minutes(m: u32) -> bool {
    0 < m <= MAX_MINUTES
}

impl TimerState {
    /// The configured minutes of phase `p`.
    pub open spec fn minutes_of(self, p: Phase) -> u32 {
        match p {
            Phase::Work => self.work_minutes,
            Phase::Break => self.break_minutes,
        }
    }

    /// The full length of phase `p`, in seconds.
    pub open spec fn full_seconds(self, p: Phase) -> int {
        self.minutes_of(p) * 60
    }

    /// Both timers are armed under the current generation exactly when the
    /// state is running, and neither is armed otherwise.
    pub open spec fn handles_agree(self) -> bool {
        if self.running {
            &&& self.tick_handle == Some(self.generation)
            &&& self.completion_handle == Some(self.generation)
        } else {
            &&& self.tick_handle is None
            &&& self.completion_handle is None
        }
    }

    /// Well-formedness of a snapshot.
    pub open spec fn inv(self) -> bool {
        &&& valid_minutes(self.work_minutes)
        &&& valid_minutes(self.break_minutes)
        &&& self.time_remaining_seconds <= self.full_seconds(self.phase)
        &&& self.handles_agree()
    }

    /// The snapshot the engine starts from.
    pub open spec fn initial() -> TimerState {
        TimerState {
            phase: Phase::Work,
            work_minutes: 25,
            break_minutes: 5,
            time_remaining_seconds: 1500,
            running: false,
            generation: 0,
            tick_handle: None,
            completion_handle: None,
        }
    }

    /// The error a command is refused with in this state, if any.
    pub open spec fn rejection(self, a: TimerAction) -> Option<TimerError> {
        match a {
            TimerAction::SelectPhase(_) | TimerAction::Start => if self.running {
                Some(TimerError::IllegalTransition)
            } else {
                None
            },
            TimerAction::SetWorkDuration(m) | TimerAction::SetBreakDuration(m) => if !valid_minutes(
                m,
            ) {
                Some(TimerError::InvalidInput)
            } else if self.running {
                Some(TimerError::IllegalTransition)
            } else {
                None
            },
            TimerAction::SaveSettings(w, b) => if !valid_minutes(w) || !valid_minutes(b) {
                Some(TimerError::InvalidInput)
            } else if self.running {
                Some(TimerError::IllegalTransition)
            } else {
                None
            },
            TimerAction::Pause => if !self.running {
                Some(TimerError::IllegalTransition)
            } else {
                None
            },
            TimerAction::Cancel | TimerAction::Tick(_) | TimerAction::Complete(_) => None,
        }
    }

    /// A timer callback stamped with generation `g` belongs to the current run.
    pub open spec fn is_current(self, g: u64) -> bool {
        self.running && g == self.generation
    }

    /// Stopped, with both timers disarmed and the generation advanced.
    pub open spec fn halted(self) -> TimerState {
        TimerState {
            running: false,
            generation: (self.generation + 1) as u64,
            tick_handle: None,
            completion_handle: None,
            ..self
        }
    }

    /// The snapshot after a run of the current phase has finished: halted, in
    /// the other phase, with that phase's full time left.
    pub open spec fn completed(self) -> TimerState {
        let p = self.phase.other();
        TimerState {
            phase: p,
            time_remaining_seconds: self.full_seconds(p) as u32,
            ..self.halted()
        }
    }

    /// Running, with both timers armed under the next generation.
    pub open spec fn armed(self) -> TimerState {
        let g = (self.generation + 1) as u64;
        TimerState {
            running: true,
            generation: g,
            tick_handle: Some(g),
            completion_handle: Some(g),
            ..self
        }
    }

    /// Whether command `a`, accepted in this state, finishes the run.
    pub open spec fn completes(self, a: TimerAction) -> bool {
        match a {
            TimerAction::Start => !self.running && self.time_remaining_seconds == 0,
            TimerAction::Complete(g) => self.is_current(g),
            _ => false,
        }
    }

    /// The snapshot after command `a`; a refused command leaves it as it was.
    pub open spec fn step(self, a: TimerAction) -> TimerState {
        if self.rejection(a) is Some {
            self
        } else {
            match a {
                TimerAction::SelectPhase(p) => TimerState {
                    phase: p,
                    time_remaining_seconds: self.full_seconds(p) as u32,
                    ..self
                },
                TimerAction::SetWorkDuration(m) => if self.phase == Phase::Work {
                    TimerState { work_minutes: m, time_remaining_seconds: (m * 60) as u32, ..self }
                } else {
                    TimerState { work_minutes: m, ..self }
                },
                TimerAction::SetBreakDuration(m) => if self.phase == Phase::Break {
                    TimerState { break_minutes: m, time_remaining_seconds: (m * 60) as u32, ..self }
                } else {
                    TimerState { break_minutes: m, ..self }
                },
                TimerAction::SaveSettings(w, b) => {
                    let s = TimerState { work_minutes: w, break_minutes: b, ..self };
                    TimerState { time_remaining_seconds: s.full_seconds(s.phase) as u32, ..s }
                },
                TimerAction::Start => if self.time_remaining_seconds == 0 {
                    self.completed()
                } else {
                    self.armed()
                },
                TimerAction::Pause => self.halted(),
                TimerAction::Cancel => TimerState {
                    time_remaining_seconds: self.full_seconds(self.phase) as u32,
                    ..self.halted()
                },
                TimerAction::Tick(g) => if self.is_current(g) && self.time_remaining_seconds > 0 {
                    TimerState { time_remaining_seconds: (self.time_remaining_seconds - 1) as u32, ..self }
                } else {
                    self
                },
                TimerAction::Complete(g) => if self.is_current(g) {
                    self.completed()
                } else {
                    self
                },
            }
        }
    }

    /// The snapshot the engine starts from: the work phase, 25 minutes of work
    /// and 5 of break, the full work time left, stopped, generation zero.
    pub fn new() -> (r: TimerState)
        ensures
            r == TimerState::initial(),
            r.inv(),
    {
        TimerState {
            phase: Phase::Work,
            work_minutes: 25,
            break_minutes: 5,
            time_remaining_seconds: 25 * 60,
            running: false,
            generation: 0,
            tick_handle: None,
            completion_handle: None,
        }
    }

    /// The full length of phase `p` in seconds.
    pub fn seconds_of(&self, p: Phase) -> (r: u32)
        requires
            valid_minutes(self.work_minutes),
            valid_minutes(self.break_minutes),
        ensures
            r == self.full_seconds(p),
    {
        match p {
            Phase::Work => self.work_minutes * 60,
            Phase::Break => self.break_minutes * 60,
        }
    }

    fn halt(&self) -> (r: TimerState)
        requires
            self.generation < u64::MAX,
        ensures
            r == self.halted(),
    {
        TimerState {
            running: false,
            generation: self.generation + 1,
            tick_handle: None,
            completion_handle: None,
            ..*self
        }
    }

    fn complete_run(&self) -> (r: TimerState)
        requires
            self.inv(),
            self.generation < u64::MAX,
        ensures
            r == self.completed(),
    {
        let p = self.phase.flip();
        let seconds = self.seconds_of(p);
        TimerState { phase: p, time_remaining_seconds: seconds, ..self.halt() }
    }

    /// Whether command `action`, accepted in this state, finishes the run.
    pub fn finishes_run(&self, action: TimerAction) -> (r: bool)
        ensures
            r == self.completes(action),
    {
        match action {
            TimerAction::Start => !self.running && self.time_remaining_seconds == 0,
            TimerAction::Complete(g) => self.running && g == self.generation,
            _ => false,
        }
    }

    /// Applies one command. A refused command yields its error and no new
    /// snapshot; every other command, a stale timer callback included, yields
    /// the snapshot that `step` describes.
    pub fn reduce(&self, action: TimerAction) -> (r: Result<TimerState, TimerError>)
        requires
            self.inv(),
            self.generation < u64::MAX,
        ensures
            match self.rejection(action) {
                Some(e) => r == Err::<TimerState, TimerError>(e),
                None => r == Ok::<TimerState, TimerError>(self.step(action)),
            },
    {
        match action {
            TimerAction::SelectPhase(p) => {
                if self.running {
                    return Err(TimerError::IllegalTransition);
                }
                Ok(TimerState { phase: p, time_remaining_seconds: self.seconds_of(p), ..*self })
            },
            TimerAction::SetWorkDuration(m) => {
                if m == 0 || m > MAX_MINUTES {
                    return Err(TimerError::InvalidInput);
                }
                if self.running {
                    return Err(TimerError::IllegalTransition);
                }
                if self.phase == Phase::Work {
                    Ok(TimerState { work_minutes: m, time_remaining_seconds: m * 60, ..*self })
                } else {
                    Ok(TimerState { work_minutes: m, ..*self })
                }
            },
            TimerAction::SetBreakDuration(m) => {
                if m == 0 || m > MAX_MINUTES {
                    return Err(TimerError::InvalidInput);
                }
                if self.running {
                    return Err(TimerError::IllegalTransition);
                }
                if self.phase == Phase::Break {
                    Ok(TimerState { break_minutes: m, time_remaining_seconds: m * 60, ..*self })
                } else {
                    Ok(TimerState { break_minutes: m, ..*self })
                }
            },
            TimerAction::SaveSettings(w, b) => {
                if w == 0 || w > MAX_MINUTES || b == 0 || b > MAX_MINUTES {
                    return Err(TimerError::InvalidInput);
                }
                if self.running {
                    return Err(TimerError::IllegalTransition);
                }
                let s = TimerState { work_minutes: w, break_minutes: b, ..*self };
                Ok(TimerState { time_remaining_seconds: s.seconds_of(s.phase), ..s })
            },
            TimerAction::Start => {
                if self.running {
                    return Err(TimerError::IllegalTransition);
                }
                if self.time_remaining_seconds == 0 {
                    Ok(self.complete_run())
                } else {
                    let g = self.generation + 1;
                    Ok(
                        TimerState {
                            running: true,
                            generation: g,
                            tick_handle: Some(g),
                            completion_handle: Some(g),
                            ..*self
                        },
                    )
                }
            },
            TimerAction::Pause => {
                if !self.running {
                    return Err(TimerError::IllegalTransition);
                }
                Ok(self.halt())
            },
            TimerAction::Cancel => {
                let seconds = self.seconds_of(self.phase);
                Ok(TimerState { time_remaining_seconds: seconds, ..self.halt() })
            },
            TimerAction::Tick(g) => {
                if self.running && g == self.generation && self.time_remaining_seconds > 0 {
                    Ok(TimerState { time_remaining_seconds: self.time_remaining_seconds - 1, ..*self })
                } else {
                    Ok(*self)
                }
            },
            TimerAction::Complete(g) => {
                if self.running && g == self.generation {
                    Ok(self.complete_run())
                } else {
                    Ok(*self)
                }
            },
        }
    }
}

} // verus!
