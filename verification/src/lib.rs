//! A pomodoro timer core: the session state machine, the coordinator that
//! applies command tokens to the one live session, and the records handed to
//! the status bar and to the notification and sound services.
//!
//! The session moves through five phases. A tick (`status`) counts a timed
//! phase down and, once it has run out, moves on: work gives way to a short
//! break, the fourth work interval of a cycle to the long break, and every
//! break to work again. `toggle` starts, pauses and resumes; `reset` starts
//! over. The library performs no input or output: it says which notice and
//! which sound go with a command, and leaves showing and playing to its
//! caller.

pub mod command;
pub mod coordinator;
pub mod event;
pub mod ident;
pub mod laws;
pub mod notice;
pub mod record;
pub mod session;
pub mod state;
pub mod text;
pub mod waybar;

pub use command::Command;
pub use coordinator::{Coordinator, Outcome};
pub use event::{BreakKind, Event, Sound};
pub use notice::{Notice, Urgency};
pub use record::{DecodeError, Record};
pub use session::{Pomobar, Session};
pub use state::State;
pub use waybar::Waybar;
