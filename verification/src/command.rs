//! Command tokens.

use vstd::prelude::*;

verus! {

/// What a caller may ask of the session.
#[derive(Debug, Clone, Copy, PartialEq, Eq, Structural)]
pub enum Command {
    /// The tick, and the reading of the session that comes with it.
    Status,
    /// The pause/resume/start control.
    Toggle,
    /// Starting over with a fresh session.
    Reset,
}

impl Command {
    /// The command that a token stands for: the literal tokens `toggle` and
    /// `reset` stand for themselves, every other text is read as `status`.
    pub open spec fn of(token: Seq<char>) -> Command {
        if token == "toggle"@ {
            Command::Toggle
        } else if token == "reset"@ {
            Command::Reset
        } else {
            Command::Status
        }
    }

    /// Reads a command token. No token is rejected.
    pub fn parse(token: &str) -> (command: Command)
        ensures
            command == Command::of(token@),
    {
        let token = token.to_owned();
        if token == "toggle".to_owned() {
            Command::Toggle
        } else if token == "reset".to_owned() {
            Command::Reset
        } else {
            Command::Status
        }
    }
}

} // verus!
