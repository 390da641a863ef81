//! The coordinator: sole owner of the live session.

use vstd::prelude::*;
use crate::command::Command;
use crate::event::Event;
use crate::ident::is_random_uuid_text;
use crate::session::{Pomobar, Session};

verus! {

impl Session {
    /// The session after a command. `fresh` is the identifier that a reset
    /// gives to the new session; the other commands do not look at it.
    pub open spec fn step(self, command: Command, fresh: Seq<char>) -> Session {
        match command {
            Command::Status => self.status(),
            Command::Toggle => self.toggle(),
            Command::Reset => Session::fresh(fresh),
        }
    }
}

/// What a command hands back: the session as the command left it, and the
/// event to pass on to the notification and sound services, if any.
#[derive(Debug, PartialEq, Eq)]
pub struct Outcome {
    pub snapshot: Pomobar,
    pub event: Option<Event>,
}

/// Owns the one live session. Commands reach the session only through
/// `execute` and `apply`, which take the coordinator exclusively: each
/// command works on the session that the previous one left.
pub struct Coordinator {
    session: Pomobar,
}

impl View for Coordinator {
    type V = Session;

    closed spec fn view(&self) -> Session {
        self.session@
    }
}

impl Coordinator {
    #[verifier::type_invariant]
    spec fn session_inv(self) -> bool {
        self.session@.inv()
    }

    /// A coordinator with a fresh session under a newly drawn identifier.
    pub fn new() -> (coordinator: Self)
        ensures
            coordinator@ == Session::fresh(coordinator@.id),
            is_random_uuid_text(coordinator@.id),
    {
        Coordinator { session: Pomobar::default() }
    }

    /// A copy of the session as it stands.
    pub fn snapshot(&self) -> (snapshot: Pomobar)
        ensures
            snapshot@ == self@,
            self@.inv(),
    {
        proof {
            use_type_invariant(self);
        }
        self.session.clone()
    }

    /// Applies one command to the session.
    pub fn apply(&mut self, command: Command) -> (outcome: Outcome)
        ensures
            final(self)@ == old(self)@.step(command, final(self)@.id),
            command is Reset ==> is_random_uuid_text(final(self)@.id),
            final(self)@.inv(),
            outcome.snapshot@ == final(self)@,
            outcome.event == old(self)@.event(command),
    {
        proof {
            use_type_invariant(&*self);
        }
        let mut working = self.session.clone();
        let event = working.event(command);
        let snapshot = match command {
            Command::Status => working.status(),
            Command::Toggle => working.toggle(),
            Command::Reset => working.reset(),
        };
        self.session = working;
        Outcome { snapshot, event }
    }

    /// Executes the command that `token` stands for: `toggle` and `reset`
    /// by name, anything else as `status`.
    pub fn execute(&mut self, token: &str) -> (outcome: Outcome)
        ensures
            final(self)@ == old(self)@.step(Command::of(token@), final(self)@.id),
            Command::of(token@) is Reset ==> is_random_uuid_text(final(self)@.id),
            final(self)@.inv(),
            outcome.snapshot@ == final(self)@,
            outcome.event == old(self)@.event(Command::of(token@)),
    {
        self.apply(Command::parse(token))
    }
}

} // verus!
