//! The session and its transitions.

use vstd::prelude::*;
use crate::ident::{fresh_id, is_random_uuid_text};
use crate::state::State;

verus! {

/// Length of a work interval, in seconds: 25 minutes.
pub const WORK_SECONDS: i64 = 25 * 60;

/// Length of a short break, in seconds: 5 minutes.
pub const SHORT_BREAK_SECONDS: i64 = 5 * 60;

/// Length of the long break, in seconds: 15 minutes.
pub const LONG_BREAK_SECONDS: i64 = 15 * 60;

/// Number of completed work intervals after which the long break is taken.
pub const POMODOROS_PER_CYCLE: usize = 4;

/// The mathematical value of a session: what the contracts speak about.
pub struct Session {
    pub id: Seq<char>,
    pub state: State,
    pub last_state: State,
    pub pomodoro_count: nat,
    pub remaining_time: int,
}

impl Session {
    /// The session as it is created: idle, nothing completed, a full work
    /// interval on the clock.
    pub open spec fn fresh(id: Seq<char>) -> Session {
        Session {
            id,
            state: State::Idle,
            last_state: State::Idle,
            pomodoro_count: 0,
            remaining_time: WORK_SECONDS as int,
        }
    }

    /// The current phase has run out: nothing, or less than nothing, remains.
    pub open spec fn timeout(self) -> bool {
        self.remaining_time <= 0
    }

    /// One second less on the clock.
    pub open spec fn count_down(self) -> Session {
        Session { remaining_time: self.remaining_time - 1, ..self }
    }

    /// The length of a timed phase, in seconds. Idle and paused have none.
    pub open spec fn length(phase: State) -> int {
        match phase {
            State::Work => WORK_SECONDS as int,
            State::ShortBreak => SHORT_BREAK_SECONDS as int,
            State::LongBreak => LONG_BREAK_SECONDS as int,
            State::Idle | State::Paused => 0,
        }
    }

    /// Entering a timed phase from the current phase: the current phase is
    /// remembered and the clock is set to the full length of the new one.
    pub open spec fn enter(self, phase: State) -> Session {
        Session {
            state: phase,
            last_state: self.state,
            remaining_time: Session::length(phase),
            ..self
        }
    }

    /// Entering work from the current phase. Leaving a long break closes the
    /// cycle and clears the count.
    pub open spec fn work(self) -> Session {
        if self.state is LongBreak {
            Session { pomodoro_count: 0, ..self.enter(State::Work) }
        } else {
            self.enter(State::Work)
        }
    }

    /// Whether leaving work for a break is defined: the count stands for the
    /// intervals completed in this cycle and cannot exceed the cycle length.
    pub open spec fn break_defined(self) -> bool {
        self.state is Work ==> self.pomodoro_count <= POMODOROS_PER_CYCLE
    }

    /// Leaving work for the break that the count calls for: the long break
    /// once the cycle is full, a short break before that. Outside work
    /// nothing changes.
    pub open spec fn take_break(self) -> Session {
        if self.state is Work && self.pomodoro_count < POMODOROS_PER_CYCLE {
            self.enter(State::ShortBreak)
        } else if self.state is Work && self.pomodoro_count == POMODOROS_PER_CYCLE {
            self.enter(State::LongBreak)
        } else {
            self
        }
    }

    /// The session with one more work interval completed.
    pub open spec fn completed(self) -> Session {
        Session { pomodoro_count: self.pomodoro_count + 1, ..self }
    }

    /// Whether a tick is defined on this session: a work interval that has
    /// run out must have room left in the cycle for the interval it completes.
    pub open spec fn tick_defined(self) -> bool {
        self.state is Work && self.timeout() ==> self.pomodoro_count < POMODOROS_PER_CYCLE
    }

    /// The session after one tick.
    pub open spec fn status(self) -> Session {
        match self.state {
            State::Idle | State::Paused => self,
            State::Work => if !self.timeout() {
                self.count_down()
            } else {
                self.completed().take_break()
            },
            State::ShortBreak | State::LongBreak => if !self.timeout() {
                self.count_down()
            } else {
                self.work()
            },
        }
    }

    /// What a timed phase allows of the count and the clock: work goes on
    /// while the cycle has room for the interval, a short break follows one
    /// to three intervals, the long break follows the fourth; the clock is
    /// never below zero and never above the length of the phase.
    pub open spec fn phase_inv(phase: State, pomodoro_count: nat, remaining_time: int) -> bool {
        &&& 0 <= remaining_time <= Session::length(phase)
        &&& match phase {
            State::Work => pomodoro_count < POMODOROS_PER_CYCLE,
            State::ShortBreak => 1 <= pomodoro_count < POMODOROS_PER_CYCLE,
            State::LongBreak => pomodoro_count == POMODOROS_PER_CYCLE,
            State::Idle | State::Paused => false,
        }
    }

    /// What holds of every session that commands have made out of a fresh
    /// one. An idle session is untouched; a timed phase keeps to its bounds
    /// and is never its own predecessor; a paused session remembers a timed
    /// phase and keeps to the bounds of that phase.
    pub open spec fn inv(self) -> bool {
        match self.state {
            State::Idle => self == Session::fresh(self.id),
            State::Paused => Session::phase_inv(
                self.last_state,
                self.pomodoro_count,
                self.remaining_time,
            ),
            _ => self.last_state != self.state && Session::phase_inv(
                self.state,
                self.pomodoro_count,
                self.remaining_time,
            ),
        }
    }

    /// The session after the pause/resume/start control was used.
    pub open spec fn toggle(self) -> Session {
        match self.state {
            State::Idle => self.work(),
            State::Paused => Session { state: self.last_state, last_state: State::Paused, ..self },
            _ => Session { state: State::Paused, last_state: self.state, ..self },
        }
    }
}

/// The one live timer session.
#[derive(Debug, PartialEq, Eq)]
pub struct Pomobar {
    /// Opaque identifier, given at creation and used for correlation only.
    pub id: String,
    /// Current phase.
    pub state: State,
    /// The phase held before the latest phase change; while paused, the phase
    /// to resume.
    pub last_state: State,
    /// Work intervals completed since the cycle began.
    pub pomodoro_count: usize,
    /// Seconds left in the current phase; zero or less means it has run out.
    pub remaining_time: i64,
}

impl View for Pomobar {
    type V = Session;

    open spec fn view(&self) -> Session {
        Session {
            id: self.id@,
            state: self.state,
            last_state: self.last_state,
            pomodoro_count: self.pomodoro_count as nat,
            remaining_time: self.remaining_time as int,
        }
    }
}

impl Clone for Pomobar {
    fn clone(&self) -> (copy: Self)
        ensures
            copy == *self,
    {
        Pomobar {
            id: self.id.clone(),
            state: self.state,
            last_state: self.last_state,
            pomodoro_count: self.pomodoro_count,
            remaining_time: self.remaining_time,
        }
    }
}

impl Default for Pomobar {
    /// A fresh session under a newly drawn identifier.
    fn default() -> (session: Self)
        ensures
            session@ == Session::fresh(session@.id),
            is_random_uuid_text(session@.id),
    {
        Pomobar::with_id(fresh_id())
    }
}

impl Pomobar {
    /// A fresh session under the given identifier.
    pub fn with_id(id: String) -> (session: Self)
        ensures
            session@ == Session::fresh(id@),
    {
        Pomobar {
            id,
            state: State::Idle,
            last_state: State::Idle,
            pomodoro_count: 0,
            remaining_time: WORK_SECONDS,
        }
    }

    /// Whether the current phase has run out.
    pub fn timeout(&self) -> (expired: bool)
        ensures
            expired == self@.timeout(),
    {
        self.remaining_time <= 0
    }

    /// Takes one second off the clock and returns a snapshot.
    pub fn count_down(&mut self) -> (snapshot: Self)
        requires
            old(self).remaining_time > i64::MIN,
        ensures
            final(self)@ == old(self)@.count_down(),
            snapshot == *final(self),
    {
        self.remaining_time = self.remaining_time - 1;
        self.clone()
    }

    /// Enters work from the current phase and returns a snapshot.
    pub fn work(&mut self) -> (snapshot: Self)
        ensures
            final(self)@ == old(self)@.work(),
            snapshot == *final(self),
    {
        self.last_state = self.state;
        self.state = State::Work;
        self.remaining_time = WORK_SECONDS;
        if let State::LongBreak = self.last_state {
            self.pomodoro_count = 0;
        }
        self.clone()
    }

    /// Leaves work for the break that the count calls for and returns a
    /// snapshot; outside work nothing changes.
    pub fn take_break(&mut self) -> (snapshot: Self)
        requires
            old(self)@.break_defined(),
        ensures
            final(self)@ == old(self)@.take_break(),
            snapshot == *final(self),
    {
        if let State::Work = self.state {
            if self.pomodoro_count < POMODOROS_PER_CYCLE {
                self.last_state = self.state;
                self.state = State::ShortBreak;
                self.remaining_time = SHORT_BREAK_SECONDS;
            } else {
                self.last_state = self.state;
                self.state = State::LongBreak;
                self.remaining_time = LONG_BREAK_SECONDS;
            }
        }
        self.clone()
    }

    /// One tick of the clock. Idle and paused sessions are frozen; a timed
    /// phase counts down until it has run out, and then gives way to the
    /// next phase.
    pub fn status(&mut self) -> (snapshot: Self)
        requires
            old(self)@.tick_defined(),
        ensures
            final(self)@ == old(self)@.status(),
            snapshot == *final(self),
            old(self)@.state.is_timed() ==> {
                ||| final(self)@.state != old(self)@.state
                ||| final(self)@.remaining_time == old(self)@.remaining_time - 1
            },
    {
        match self.state {
            State::Paused | State::Idle => self.clone(),
            State::Work => {
                if !self.timeout() {
                    self.count_down()
                } else {
                    self.pomodoro_count = self.pomodoro_count + 1;
                    self.take_break()
                }
            },
            State::LongBreak | State::ShortBreak => {
                if !self.timeout() {
                    self.count_down()
                } else {
                    self.work()
                }
            },
        }
    }

    /// The pause/resume/start control: starts work from idle, pauses a timed
    /// phase, and resumes the paused phase.
    pub fn toggle(&mut self) -> (snapshot: Self)
        ensures
            final(self)@ == old(self)@.toggle(),
            snapshot == *final(self),
    {
        if let State::Idle = self.state {
            return self.work();
        }
        if let State::Paused = self.state {
            self.state = self.last_state;
            self.last_state = State::Paused;
        } else {
            self.last_state = self.state;
            self.state = State::Paused;
        }
        self.clone()
    }

    /// Replaces the session by a fresh one under a newly drawn identifier,
    /// whatever phase it was in, and returns a snapshot.
    pub fn reset(&mut self) -> (snapshot: Self)
        ensures
            final(self)@ == Session::fresh(final(self)@.id),
            is_random_uuid_text(final(self)@.id),
            snapshot == *final(self),
    {
        *self = Pomobar::default();
        self.clone()
    }
}

} // verus!
