//! The record that the status bar displays.

use vstd::prelude::*;
use vstd::string::StringExecFns;
use crate::session::{Pomobar, Session};
use crate::text::{decimal, push_decimal, push_two_wide, two_wide};

verus! {

/// Whole minutes in a span of seconds, rounded towards zero.
pub open spec fn whole_minutes(seconds: int) -> int {
    if seconds >= 0 {
        seconds / 60
    } else {
        -((-seconds) / 60)
    }
}

/// The seconds of a span that do not make up a whole minute; they carry the
/// sign of the span.
pub open spec fn odd_seconds(seconds: int) -> int {
    seconds - 60 * whole_minutes(seconds)
}

/// A span of seconds as minutes and seconds, each at least two digits wide.
pub open spec fn clock(seconds: int) -> Seq<char> {
    two_wide(whole_minutes(seconds)) + seq![':'] + two_wide(odd_seconds(seconds))
}

/// The line that tells how many work intervals are done.
pub open spec fn tally(pomodoro_count: nat) -> Seq<char> {
    "Completed "@ + decimal(pomodoro_count) + " pomodoros"@
}

/// What the status bar is given to display.
#[derive(Debug, PartialEq, Eq)]
pub struct Waybar {
    /// The time left, as minutes and seconds.
    pub text: String,
    /// The phase name.
    pub alt: String,
    /// The phase name, for styling.
    pub class: String,
    /// The count of completed work intervals, in words.
    pub tooltip: String,
}

/// The mathematical value of a status-bar record.
pub struct WaybarText {
    pub text: Seq<char>,
    pub alt: Seq<char>,
    pub class: Seq<char>,
    pub tooltip: Seq<char>,
}

impl View for Waybar {
    type V = WaybarText;

    open spec fn view(&self) -> WaybarText {
        WaybarText {
            text: self.text@,
            alt: self.alt@,
            class: self.class@,
            tooltip: self.tooltip@,
        }
    }
}

impl WaybarText {
    /// The record for a session.
    pub open spec fn of(session: Session) -> WaybarText {
        WaybarText {
            text: clock(session.remaining_time),
            alt: session.state.name(),
            class: session.state.name(),
            tooltip: tally(session.pomodoro_count),
        }
    }
}

impl Waybar {
    /// Renders a session for the status bar.
    pub fn from(value: Pomobar) -> (bar: Waybar)
        ensures
            bar@ == WaybarText::of(value@),
    {
        let minutes: i64 = value.remaining_time / 60;
        let seconds: i64 = value.remaining_time - minutes * 60;

        let mut time = String::new();
        push_two_wide(&mut time, minutes);
        time.append(":");
        push_two_wide(&mut time, seconds);
        proof {
            reveal_strlit(":");
            assert(time@ =~= clock(value.remaining_time as int));
        }

        let mut tooltip = String::from_str("Completed ");
        push_decimal(&mut tooltip, value.pomodoro_count as u64);
        tooltip.append(" pomodoros");

        let class = value.state.to_string();
        Waybar { text: time, alt: class.clone(), class, tooltip }
    }
}

} // verus!
