//! The lifecycle events that a command gives rise to, and what the
//! notification and sound services are asked to do about them.

use vstd::prelude::*;
use crate::command::Command;
use crate::notice::{Notice, NoticeText};
use crate::session::{Pomobar, Session, POMODOROS_PER_CYCLE};
use crate::state::State;

verus! {

/// The two breaks.
#[derive(Debug, Clone, Copy, PartialEq, Eq, Structural)]
pub enum BreakKind {
    Short,
    Long,
}

/// A notable step in the life of a session.
#[derive(Debug, Clone, Copy, PartialEq, Eq, Structural)]
pub enum Event {
    /// Work was started from idle.
    SessionStarted,
    /// A timed phase was paused.
    Paused,
    /// The paused phase was resumed; the phase is the one restored.
    Resumed(State),
    /// A work interval ran out and the given break was entered.
    PomodoroCompleted(BreakKind),
    /// A break ran out and work was started.
    BreakEnded,
    /// The session was replaced by a fresh one.
    SessionReset,
}

/// The audio clips.
#[derive(Debug, Clone, Copy, PartialEq, Eq, Structural)]
pub enum Sound {
    /// Played when a session starts.
    Start,
    /// Played when a break begins.
    Break,
}

impl Session {
    /// The event that a command gives rise to on this session, if any. A
    /// tick is notable only when it changes the phase.
    pub open spec fn event(self, command: Command) -> Option<Event> {
        match command {
            Command::Status => match (self.state, self.status().state) {
                (State::Work, State::ShortBreak) => Some(
                    Event::PomodoroCompleted(BreakKind::Short),
                ),
                (State::Work, State::LongBreak) => Some(Event::PomodoroCompleted(BreakKind::Long)),
                (State::ShortBreak, State::Work) | (State::LongBreak, State::Work) => Some(
                    Event::BreakEnded,
                ),
                _ => None,
            },
            Command::Toggle => match self.state {
                State::Idle => Some(Event::SessionStarted),
                State::Paused => Some(Event::Resumed(self.last_state)),
                _ => Some(Event::Paused),
            },
            Command::Reset => Some(Event::SessionReset),
        }
    }
}

impl Pomobar {
    /// The event that `command` will give rise to when it is applied to the
    /// session as it stands.
    pub fn event(&self, command: Command) -> (event: Option<Event>)
        ensures
            event == self@.event(command),
    {
        match command {
            Command::Status => match self.state {
                State::Idle | State::Paused => None,
                State::Work => {
                    if !self.timeout() || self.pomodoro_count >= POMODOROS_PER_CYCLE {
                        None
                    } else if self.pomodoro_count + 1 < POMODOROS_PER_CYCLE {
                        Some(Event::PomodoroCompleted(BreakKind::Short))
                    } else {
                        Some(Event::PomodoroCompleted(BreakKind::Long))
                    }
                },
                State::ShortBreak | State::LongBreak => {
                    if self.timeout() {
                        Some(Event::BreakEnded)
                    } else {
                        None
                    }
                },
            },
            Command::Toggle => match self.state {
                State::Idle => Some(Event::SessionStarted),
                State::Paused => Some(Event::Resumed(self.last_state)),
                _ => Some(Event::Paused),
            },
            Command::Reset => Some(Event::SessionReset),
        }
    }
}

impl Event {
    /// What the notification service is asked to show for the event. A
    /// resumed phase is not announced.
    pub open spec fn notice(self) -> Option<NoticeText> {
        match self {
            Event::SessionStarted | Event::BreakEnded => Some(NoticeText::start()),
            Event::Paused => Some(NoticeText::pause()),
            Event::PomodoroCompleted(BreakKind::Short) => Some(NoticeText::take_break()),
            Event::PomodoroCompleted(BreakKind::Long) => Some(NoticeText::take_long_break()),
            Event::SessionReset => Some(NoticeText::reset()),
            Event::Resumed(_) => None,
        }
    }

    /// The clip that the sound service is asked to play for the event: one
    /// for the start of a session, one for the start of either break.
    pub open spec fn clip(self) -> Option<Sound> {
        match self {
            Event::SessionStarted => Some(Sound::Start),
            Event::PomodoroCompleted(_) => Some(Sound::Break),
            _ => None,
        }
    }

    /// The notice to show for the event, if it is announced.
    pub fn notification(&self) -> (notice: Option<Notice>)
        ensures
            match self.notice() {
                Some(text) => notice is Some && notice->0@ == text,
                None => notice is None,
            },
    {
        match self {
            Event::SessionStarted | Event::BreakEnded => Some(State::notify_when_start()),
            Event::Paused => Some(State::notify_when_pause()),
            Event::PomodoroCompleted(BreakKind::Short) => Some(State::notify_when_take_break()),
            Event::PomodoroCompleted(BreakKind::Long) => Some(
                State::notify_when_take_long_break(),
            ),
            Event::SessionReset => Some(State::notify_when_reset()),
            Event::Resumed(_) => None,
        }
    }

    /// The clip to play for the event, if it has one.
    pub fn sound(&self) -> (sound: Option<Sound>)
        ensures
            sound == self.clip(),
    {
        match self {
            Event::SessionStarted => Some(Sound::Start),
            Event::PomodoroCompleted(_) => Some(Sound::Break),
            _ => None,
        }
    }
}

} // verus!
