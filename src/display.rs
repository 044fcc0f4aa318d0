use vstd::prelude::*;
use vstd::string::{StrSliceExecFns, StringExecFns};
use crate::timer::{Phase, TimerState};

verus! {

/// The decimal digit `d`, for `d < 10`.
pub open spec fn digit_char(d: nat) -> char {
    "0123456789"@[d as int]
}

/// The decimal representation of `n`, without leading zeros.
pub open spec fn decimal(n: nat) -> Seq<char>
    decreases n,
{
    if n < 10 {
        seq![digit_char(n)]
    } else {
        decimal(n / 10).push(digit_char(n % 10))
    }
}

/// `n` in decimal, padded with a leading zero to at least two digits.
pub open spec fn two_digits(n: nat) -> Seq<char> {
    if n < 10 {
        seq!['0'] + decimal(n)
    } else {
        decimal(n)
    }
}

/// `seconds` as minutes and seconds, `mm:ss`, each part at least two digits.
pub open spec fn clock_text(seconds: nat) -> Seq<char> {
    two_digits(seconds / 60) + seq![':'] + two_digits(seconds % 60)
}

fn push_decimal(s: &mut String, n: u32)
    ensures
        final(s)@ == old(s)@ + decimal(n as nat),
    decreases n,
{
    if n >= 10 {
        push_decimal(s, n / 10);
    }
    let d: usize = (n % 10) as usize;
    proof {
        reveal_strlit("0123456789");
    }
    s.append("0123456789".substring_char(d, d + 1));
    assert(final(s)@ =~= old(s)@ + decimal(n as nat)) by {
        if n >= 10 {
            assert(decimal(n as nat) =~= decimal((n / 10) as nat).push(digit_char((n % 10) as nat)));
        }
    }
}

fn push_two_digits(s: &mut String, n: u32)
    ensures
        final(s)@ == old(s)@ + two_digits(n as nat),
{
    if n < 10 {
        proof {
            reveal_strlit("0");
        }
        s.append("0");
    }
    push_decimal(s, n);
}

/// The time left as shown on the display, `mm:ss`.
pub fn countdown_text(seconds: u32) -> (r: String)
    ensures
        r@ == clock_text(seconds as nat),
{
    let mut s = String::new();
    push_two_digits(&mut s, seconds / 60);
    proof {
        reveal_strlit(":");
    }
    s.append(":");
    push_two_digits(&mut s, seconds % 60);
    assert(s@ =~= clock_text(seconds as nat));
    s
}

/// The name of a phase as shown to the user.
pub open spec fn phase_name(p: Phase) -> Seq<char> {
    match p {
        Phase::Work => "Work"@,
        Phase::Break => "Break"@,
    }
}

/// The page title: the application's name while stopped, and the phase with
/// the time left while running.
pub open spec fn title_text(s: TimerState) -> Seq<char> {
    if s.running {
        phase_name(s.phase) + " : "@ + clock_text(s.time_remaining_seconds as nat)
    } else {
        "Pomodoro Timer | Neblume "@
    }
}

pub fn phase_label(p: Phase) -> (r: &'static str)
    ensures
        r@ == phase_name(p),
{
    match p {
        Phase::Work => "Work",
        Phase::Break => "Break",
    }
}

pub fn page_title(s: &TimerState) -> (r: String)
    ensures
        r@ == title_text(*s),
{
    if s.running {
        let mut t = String::from_str(phase_label(s.phase));
        t.append(" : ");
        t.append(countdown_text(s.time_remaining_seconds).as_str());
        t
    } else {
        String::from_str("Pomodoro Timer | Neblume ")
    }
}

/// Whether the settings panel is open after its button was pressed: it opens
/// only when it was closed and no countdown is running, and closes otherwise.
pub fn settings_open_after_toggle(open: bool, running: bool) -> (r: bool)
    ensures
        r == (!open && !running),
{
    !open && !running
}

/// One choice of a drop-down list.
#[derive(Clone, Debug, PartialEq, Eq)]
pub struct SelectOption {
    pub value: String,
    pub label: String,
    pub is_selected: bool,
}

impl SelectOption {
    pub fn new(value: &str, label: &str, is_selected: bool) -> (r: SelectOption)
        ensures
            r.value@ == value@,
            r.label@ == label@,
            r.is_selected == is_selected,
    {
        SelectOption {
            value: String::from_str(value),
            label: String::from_str(label),
            is_selected,
        }
    }
}

} // verus!
