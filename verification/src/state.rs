//! The phases a session moves through.

use vstd::prelude::*;
use vstd::string::StringExecFns;

verus! {

/// The phase a session is in.
#[derive(Debug, Clone, Copy, PartialEq, Eq, Structural)]
pub enum State {
    Idle,
    Work,
    ShortBreak,
    LongBreak,
    Paused,
}

impl State {
    /// The lowercase name under which the phase appears in snapshots and as
    /// the status-bar class.
    pub open spec fn name(self) -> Seq<char> {
        match self {
            State::Idle => "idle"@,
            State::Work => "work"@,
            State::ShortBreak => "short_break"@,
            State::LongBreak => "long_break"@,
            State::Paused => "paused"@,
        }
    }

    /// The phase that goes by a name, if any does.
    pub open spec fn named(name: Seq<char>) -> Option<State> {
        if name == "idle"@ {
            Some(State::Idle)
        } else if name == "work"@ {
            Some(State::Work)
        } else if name == "short_break"@ {
            Some(State::ShortBreak)
        } else if name == "long_break"@ {
            Some(State::LongBreak)
        } else if name == "paused"@ {
            Some(State::Paused)
        } else {
            None
        }
    }

    /// Whether the clock runs in this phase: work and the two breaks are
    /// timed, idle and paused are frozen.
    pub open spec fn is_timed(self) -> bool {
        self is Work || self is ShortBreak || self is LongBreak
    }

    /// Reads a phase name back. Only the five names are phases; there is no
    /// trimming and no folding of case.
    pub fn from_name(name: &str) -> (state: Option<State>)
        ensures
            state == State::named(name@),
    {
        let name = name.to_owned();
        if name == "idle".to_owned() {
            Some(State::Idle)
        } else if name == "work".to_owned() {
            Some(State::Work)
        } else if name == "short_break".to_owned() {
            Some(State::ShortBreak)
        } else if name == "long_break".to_owned() {
            Some(State::LongBreak)
        } else if name == "paused".to_owned() {
            Some(State::Paused)
        } else {
            None
        }
    }

    /// A name stands for a phase exactly when it is the name of that phase:
    /// the five names are distinct, so writing a phase down by name and
    /// reading the name back gives the phase again, and nothing else reads
    /// as a phase.
    pub proof fn lemma_named_inverts_name(name: Seq<char>, state: State)
        ensures
            State::named(name) == Some(state) <==> name == state.name(),
            State::named(state.name()) == Some(state),
    {
        reveal_strlit("idle");
        reveal_strlit("work");
        reveal_strlit("short_break");
        reveal_strlit("long_break");
        reveal_strlit("paused");
        assert("idle"@.len() == 4 && "idle"@[0] == 'i');
        assert("work"@.len() == 4 && "work"@[0] == 'w');
        assert("short_break"@.len() == 11);
        assert("long_break"@.len() == 10);
        assert("paused"@.len() == 6);
    }

    /// The lowercase phase name as an owned string.
    pub fn to_string(&self) -> (text: String)
        ensures
            text@ == self.name(),
    {
        match self {
            State::Idle => String::from_str("idle"),
            State::Work => String::from_str("work"),
            State::ShortBreak => String::from_str("short_break"),
            State::LongBreak => String::from_str("long_break"),
            State::Paused => String::from_str("paused"),
        }
    }
}

} // verus!
