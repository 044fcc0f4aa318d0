use vstd::prelude::*;
use crate::effects::{effects, effects_of, Effect};
use crate::laws::lemma_step_keeps_inv;
use crate::timer::{Phase, TimerAction, TimerError, TimerState};

verus! {

/// A message to the dispatcher: a command from the user, or a timer callback
/// carrying the generation its timer was armed under.
#[derive(Clone, Copy, Debug, PartialEq, Eq, Structural)]
pub enum Msg {
    StartTimeout,
    Pause,
    Cancel,
    SelectPhase(Phase),
    SaveSettings(u32, u32),
    UpdateCountdown(u64),
    Done(u64),
}

impl Msg {
    /// The reducer command this message stands for.
    pub open spec fn spec_action(self) -> TimerAction {
        match self {
            Msg::StartTimeout => TimerAction::Start,
            Msg::Pause => TimerAction::Pause,
            Msg::Cancel => TimerAction::Cancel,
            Msg::SelectPhase(p) => TimerAction::SelectPhase(p),
            Msg::SaveSettings(w, b) => TimerAction::SaveSettings(w, b),
            Msg::UpdateCountdown(g) => TimerAction::Tick(g),
            Msg::Done(g) => TimerAction::Complete(g),
        }
    }

    pub fn action(self) -> (r: TimerAction)
        ensures
            r == self.spec_action(),
    {
        match self {
            Msg::StartTimeout => TimerAction::Start,
            Msg::Pause => TimerAction::Pause,
            Msg::Cancel => TimerAction::Cancel,
            Msg::SelectPhase(p) => TimerAction::SelectPhase(p),
            Msg::SaveSettings(w, b) => TimerAction::SaveSettings(w, b),
            Msg::UpdateCountdown(g) => TimerAction::Tick(g),
            Msg::Done(g) => TimerAction::Complete(g),
        }
    }
}

/// An entry of the dispatcher's history.
#[derive(Clone, Copy, Debug, PartialEq, Eq, Structural)]
pub enum Note {
    Started,
    Paused,
    Canceled,
    Done,
    Rejected(TimerError),
}

/// The history entry that command `a` adds in state `s`, if any: a refusal, a
/// finished run, or a start, pause or cancel.
pub open spec fn note_for(s: TimerState, a: TimerAction) -> Option<Note> {
    match s.rejection(a) {
        Some(e) => Some(Note::Rejected(e)),
        None => if s.completes(a) {
            Some(Note::Done)
        } else {
            match a {
                TimerAction::Start => Some(Note::Started),
                TimerAction::Pause => Some(Note::Paused),
                TimerAction::Cancel => Some(Note::Canceled),
                _ => None,
            }
        },
    }
}

/// The history after command `a` in state `s`.
pub open spec fn noted(log: Seq<Note>, s: TimerState, a: TimerAction) -> Seq<Note> {
    match note_for(s, a) {
        Some(n) => log.push(n),
        None => log,
    }
}

impl Note {
    /// The text shown for this entry.
    pub open spec fn text(self) -> Seq<char> {
        match self {
            Note::Started => "Timer started!"@,
            Note::Paused => "Paused!"@,
            Note::Canceled => "Canceled!"@,
            Note::Done => "Done!"@,
            Note::Rejected(TimerError::InvalidInput) => "Invalid duration!"@,
            Note::Rejected(TimerError::IllegalTransition) => "Not allowed now!"@,
        }
    }

    pub fn message(&self) -> (r: &'static str)
        ensures
            r@ == self.text(),
    {
        match self {
            Note::Started => "Timer started!",
            Note::Paused => "Paused!",
            Note::Canceled => "Canceled!",
            Note::Done => "Done!",
            Note::Rejected(TimerError::InvalidInput) => "Invalid duration!",
            Note::Rejected(TimerError::IllegalTransition) => "Not allowed now!",
        }
    }
}

/// The dispatcher: owns the current snapshot and its history, and is the only
/// way commands reach the reducer.
pub struct Pomodoro {
    state: TimerState,
    log: Vec<Note>,
}

impl Pomodoro {
    /// The snapshot is well-formed.
    pub closed spec fn well_formed(self) -> bool {
        self.state.inv()
    }

    /// The current snapshot.
    pub closed spec fn snapshot(self) -> TimerState {
        self.state
    }

    /// The history so far, oldest first.
    pub closed spec fn history(self) -> Seq<Note> {
        self.log@
    }

    /// A dispatcher at the initial snapshot with an empty history.
    pub fn create() -> (r: Pomodoro)
        ensures
            r.well_formed(),
            r.snapshot() == TimerState::initial(),
            r.history() == Seq::<Note>::empty(),
    {
        Pomodoro { state: TimerState::new(), log: Vec::new() }
    }

    pub fn state(&self) -> (r: TimerState)
        requires
            self.well_formed(),
        ensures
            r == self.snapshot(),
            r.inv(),
    {
        self.state
    }

    pub fn log(&self) -> (r: &Vec<Note>)
        ensures
            r@ == self.history(),
    {
        &self.log
    }

    /// Dispatches `msg`. A refused command leaves the snapshot as it was,
    /// records the refusal and returns its error. Any other message moves the
    /// snapshot one `step` and returns the effects the host must perform.
    pub fn update(&mut self, msg: Msg) -> (r: Result<Vec<Effect>, TimerError>)
        requires
            old(self).well_formed(),
            old(self).snapshot().generation < u64::MAX,
        ensures
            final(self).well_formed(),
            ({
                let prev = old(self).snapshot();
                let a = msg.spec_action();
                &&& final(self).history() == noted(old(self).history(), prev, a)
                &&& match prev.rejection(a) {
                    Some(e) => {
                        &&& r == Err::<Vec<Effect>, TimerError>(e)
                        &&& final(self).snapshot() == prev
                    },
                    None => {
                        &&& r is Ok
                        &&& r->Ok_0@ == effects(prev, a, prev.step(a))
                        &&& final(self).snapshot() == prev.step(a)
                    },
                }
            }),
    {
        let action = msg.action();
        match self.state.reduce(action) {
            Err(e) => {
                self.log.push(Note::Rejected(e));
                Err(e)
            },
            Ok(next) => {
                proof {
                    lemma_step_keeps_inv(self.state, action);
                }
                let effects = effects_of(&self.state, action, &next);
                if self.state.finishes_run(action) {
                    self.log.push(Note::Done);
                } else {
                    match action {
                        TimerAction::Start => self.log.push(Note::Started),
                        TimerAction::Pause => self.log.push(Note::Paused),
                        TimerAction::Cancel => self.log.push(Note::Canceled),
                        _ => {},
                    }
                }
                self.state = next;
                Ok(effects)
            },
        }
    }
}

} // verus!
