//! The session as it travels between the daemon and its clients: a record
//! of plain values, with the phases under their names.

use vstd::prelude::*;
use crate::session::{Pomobar, Session};
use crate::state::State;

verus! {

/// A session snapshot in the form in which it is sent and received.
#[derive(Debug, PartialEq, Eq)]
pub struct Record {
    pub id: String,
    /// The name of the current phase.
    pub state: String,
    /// The name of the remembered phase.
    pub last_state: String,
    pub pomodoro_count: usize,
    /// The remaining time as whole seconds and the nanoseconds beyond them.
    pub remaining_time: (i64, i32),
}

/// Why a record is not a session.
#[derive(Debug, Clone, Copy, PartialEq, Eq, Structural)]
pub enum DecodeError {
    /// `state` is not the name of a phase.
    UnknownState,
    /// `last_state` is not the name of a phase.
    UnknownLastState,
    /// The remaining time is not a whole number of seconds.
    FractionalSeconds,
}

/// The mathematical value of a record.
pub struct RecordText {
    pub id: Seq<char>,
    pub state: Seq<char>,
    pub last_state: Seq<char>,
    pub pomodoro_count: nat,
    pub seconds: int,
    pub nanoseconds: int,
}

impl View for Record {
    type V = RecordText;

    open spec fn view(&self) -> RecordText {
        RecordText {
            id: self.id@,
            state: self.state@,
            last_state: self.last_state@,
            pomodoro_count: self.pomodoro_count as nat,
            seconds: self.remaining_time.0 as int,
            nanoseconds: self.remaining_time.1 as int,
        }
    }
}

impl RecordText {
    /// The record of a session.
    pub open spec fn of(session: Session) -> RecordText {
        RecordText {
            id: session.id,
            state: session.state.name(),
            last_state: session.last_state.name(),
            pomodoro_count: session.pomodoro_count,
            seconds: session.remaining_time,
            nanoseconds: 0,
        }
    }

    /// The session that a record stands for, or the first reason why it
    /// stands for none. A record is taken whole or not at all.
    pub open spec fn session(self) -> Result<Session, DecodeError> {
        match (State::named(self.state), State::named(self.last_state)) {
            (None, _) => Err(DecodeError::UnknownState),
            (Some(_), None) => Err(DecodeError::UnknownLastState),
            (Some(state), Some(last_state)) => if self.nanoseconds != 0 {
                Err(DecodeError::FractionalSeconds)
            } else {
                Ok(
                    Session {
                        id: self.id,
                        state,
                        last_state,
                        pomodoro_count: self.pomodoro_count,
                        remaining_time: self.seconds,
                    },
                )
            },
        }
    }

    /// Writing a session down as a record and reading the record back gives
    /// the session again: identifier, both phases, count and clock.
    pub proof fn lemma_round_trip(session: Session)
        ensures
            RecordText::of(session).session() == Ok::<Session, DecodeError>(session),
    {
        State::lemma_named_inverts_name(session.state.name(), session.state);
        State::lemma_named_inverts_name(session.last_state.name(), session.last_state);
    }

    /// A record that reads as a session is the record of that session: no
    /// two records stand for the same session.
    pub proof fn lemma_only_its_record_reads_as_a_session(self, session: Session)
        requires
            self.session() == Ok::<Session, DecodeError>(session),
        ensures
            self == RecordText::of(session),
    {
        State::lemma_named_inverts_name(self.state, session.state);
        State::lemma_named_inverts_name(self.last_state, session.last_state);
    }
}

impl Pomobar {
    /// Writes the session down as a record.
    pub fn to_record(&self) -> (record: Record)
        ensures
            record@ == RecordText::of(self@),
    {
        Record {
            id: self.id.clone(),
            state: self.state.to_string(),
            last_state: self.last_state.to_string(),
            pomodoro_count: self.pomodoro_count,
            remaining_time: (self.remaining_time, 0),
        }
    }

    /// Reads a session from a record, or says why the record is none.
    pub fn from_record(record: Record) -> (session: Result<Pomobar, DecodeError>)
        ensures
            match session {
                Ok(session) => record@.session() == Ok::<Session, DecodeError>(session@),
                Err(error) => record@.session() == Err::<Session, DecodeError>(error),
            },
    {
        let state = match State::from_name(record.state.as_str()) {
            Some(state) => state,
            None => return Err(DecodeError::UnknownState),
        };
        let last_state = match State::from_name(record.last_state.as_str()) {
            Some(state) => state,
            None => return Err(DecodeError::UnknownLastState),
        };
        if record.remaining_time.1 != 0 {
            return Err(DecodeError::FractionalSeconds);
        }
        Ok(
            Pomobar {
                id: record.id,
                state,
                last_state,
                pomodoro_count: record.pomodoro_count,
                remaining_time: record.remaining_time.0,
            },
        )
    }
}

} // verus!
